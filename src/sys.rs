//! Kernel constants taken from `libc`.
use vstd::prelude::*;

verus! {

/// Flag of `clone`/`unshare` for a new hostname (UTS) namespace.
pub open spec fn spec_clone_newuts() -> i32 {
    0x0400_0000
}

/// Flag of `clone`/`unshare` for a new process-ID namespace.
pub open spec fn spec_clone_newpid() -> i32 {
    0x2000_0000
}

/// Flag of `clone`/`unshare` for a new mount namespace.
pub open spec fn spec_clone_newns() -> i32 {
    0x0002_0000
}

/// The error number "file exists".
pub open spec fn spec_eexist() -> i32 {
    17
}

/// Relies on `libc::CLONE_NEWUTS`, the new-UTS-namespace flag of Linux.
#[verifier::external_body]
pub(crate) fn clone_newuts() -> (r: i32)
    ensures
        r == spec_clone_newuts(),
{
    libc::CLONE_NEWUTS
}

/// Relies on `libc::CLONE_NEWPID`, the new-PID-namespace flag of Linux.
#[verifier::external_body]
pub(crate) fn clone_newpid() -> (r: i32)
    ensures
        r == spec_clone_newpid(),
{
    libc::CLONE_NEWPID
}

/// Relies on `libc::CLONE_NEWNS`, the new-mount-namespace flag of Linux.
#[verifier::external_body]
pub(crate) fn clone_newns() -> (r: i32)
    ensures
        r == spec_clone_newns(),
{
    libc::CLONE_NEWNS
}

/// Relies on `libc::EEXIST`, the Linux error number for an existing file.
#[verifier::external_body]
pub(crate) fn eexist() -> (r: i32)
    ensures
        r == spec_eexist(),
{
    libc::EEXIST
}

} // verus!
