//! A command to start in new namespaces, and the handle of a started one.
use vstd::prelude::*;
use crate::bytes::{has_nul, nul_terminated, utf8_of, bytes_of, contains_nul, c_string};
use crate::sys::{
    clone_newns, clone_newpid, clone_newuts, spec_clone_newns, spec_clone_newpid,
    spec_clone_newuts,
};

verus! {

/// Size in bytes of the stack that a started process runs on.
pub const STACK_SIZE: usize = 8192000;

/// An error number that a kernel call reported.
#[derive(Clone, Copy, Debug, PartialEq, Eq, Structural)]
pub struct OsError {
    pub code: i32,
}

impl OsError {
    /// The result of a call that returns 0 on success and sets `errno` otherwise.
    pub fn check(ret: i32, errno: i32) -> (r: Result<(), OsError>)
        ensures
            r == if ret == 0 {
                Ok::<(), OsError>(())
            } else {
                Err(OsError { code: errno })
            },
    {
        if ret == 0 {
            Ok(())
        } else {
            Err(OsError { code: errno })
        }
    }
}

/// Attributes of the process to start: the namespaces it gets.
#[derive(Clone, Copy, Debug, PartialEq, Eq)]
pub struct SysProcAttr {
    pub clone_flags: i32,
}

impl Default for SysProcAttr {
    fn default() -> (r: SysProcAttr)
        ensures
            r.clone_flags == 0,
    {
        SysProcAttr { clone_flags: 0 }
    }
}

/// The namespace flags of a container: own hostname, own process IDs, own mounts.
pub open spec fn container_flags() -> i32 {
    spec_clone_newuts() | spec_clone_newpid() | spec_clone_newns()
}

impl SysProcAttr {
    /// Attributes that give the process new UTS, PID and mount namespaces.
    pub fn container() -> (r: SysProcAttr)
        ensures
            r.clone_flags == container_flags(),
    {
        SysProcAttr { clone_flags: clone_newuts() | clone_newpid() | clone_newns() }
    }
}

/// An argument as it is handed on: one that holds a nul byte becomes empty.
pub open spec fn arg_of(a: Seq<u8>) -> Seq<u8> {
    if has_nul(a) {
        Seq::<u8>::empty()
    } else {
        a
    }
}

/// A program and its argument vector, with the namespaces to start it in.
pub struct Cmd {
    cmd: Vec<u8>,
    pub sys_proc_attr: SysProcAttr,
    args: Vec<Vec<u8>>,
}

/// What `execvp` is given: the program and each argument, nul-terminated.
#[derive(Debug, PartialEq, Eq)]
pub struct ExecImage {
    pub program: Vec<u8>,
    pub argv: Vec<Vec<u8>>,
}

impl Cmd {
    /// The program path.
    pub closed spec fn program(&self) -> Seq<u8> {
        self.cmd@
    }

    /// The argument vector.
    pub closed spec fn arguments(&self) -> Seq<Seq<u8>> {
        self.args@.map_values(|a: Vec<u8>| a@)
    }

    /// The namespace flags the process is started with.
    pub closed spec fn flags(&self) -> i32 {
        self.sys_proc_attr.clone_flags
    }

    /// A non-empty program path, and no nul byte in it or in any argument.
    pub open spec fn wf(&self) -> bool {
        &&& self.program().len() > 0
        &&& !has_nul(self.program())
        &&& forall|i: int| 0 <= i < self.arguments().len() ==> !has_nul(#[trigger] self.arguments()[i])
    }

    /// A command for program `cmd` with argument vector `args` and no namespaces.
    pub fn command(cmd: &str, args: Vec<String>) -> (r: Cmd)
        requires
            cmd@.len() > 0,
            !has_nul(utf8_of(cmd@)),
        ensures
            r.program() == utf8_of(cmd@),
            r.arguments() == args@.map_values(|a: String| arg_of(utf8_of(a@))),
            r.flags() == 0,
            r.wf(),
    {
        let program = bytes_of(cmd);
        proof {
            let first = vstd::utf8::encode_scalar(cmd@[0] as u32);
            assert(utf8_of(cmd@) == first + vstd::utf8::encode_utf8(cmd@.drop_first()));
            assert(first.len() > 0);
        }
        let mut out: Vec<Vec<u8>> = Vec::new();
        let mut i: usize = 0;
        while i < args.len()
            invariant
                0 <= i <= args@.len(),
                out@.len() == i,
                forall|j: int| 0 <= j < i ==> #[trigger] out@[j]@ == arg_of(utf8_of(args@[j]@)),
                forall|j: int| 0 <= j < i ==> !has_nul(#[trigger] out@[j]@),
            decreases args@.len() - i,
        {
            let a = bytes_of(args[i].as_str());
            if contains_nul(a.as_slice()) {
                out.push(Vec::new());
            } else {
                out.push(a);
            }
            i = i + 1;
        }
        let r = Cmd { cmd: program, sys_proc_attr: SysProcAttr::default(), args: out };
        proof {
            assert(r.arguments() =~= args@.map_values(|a: String| arg_of(utf8_of(a@))));
        }
        r
    }

    /// The program and arguments as C strings, in order.
    pub fn exec_image(&self) -> (r: ExecImage)
        ensures
            r.program@ == nul_terminated(self.program()),
            r.argv@.len() == self.arguments().len(),
            forall|i: int| 0 <= i < r.argv@.len() ==> #[trigger] r.argv@[i]@ == nul_terminated(self.arguments()[i]),
    {
        let program = c_string(self.cmd.as_slice());
        let mut argv: Vec<Vec<u8>> = Vec::new();
        let mut i: usize = 0;
        while i < self.args.len()
            invariant
                0 <= i <= self.args@.len(),
                argv@.len() == i,
                forall|j: int| 0 <= j < i ==> #[trigger] argv@[j]@ == nul_terminated(self.args@[j]@),
            decreases self.args@.len() - i,
        {
            argv.push(c_string(self.args[i].as_slice()));
            i = i + 1;
        }
        ExecImage { program, argv }
    }
}

/// A started process, which owns the stack it runs on until it is reaped.
pub struct CmdHandle {
    handle: i32,
    stack: Vec<u8>,
}

impl CmdHandle {
    /// The process ID of the started process.
    pub closed spec fn spec_pid(&self) -> i32 {
        self.handle
    }

    /// The stack the process runs on.
    pub closed spec fn stack(&self) -> Seq<u8> {
        self.stack@
    }

    /// A live handle: a real process ID and a stack of the full size.
    pub open spec fn wf(&self) -> bool {
        self.spec_pid() != -1 && self.stack().len() == STACK_SIZE
    }

    /// A zeroed stack for a process about to be started.
    pub fn alloc_stack() -> (r: Vec<u8>)
        ensures
            r@.len() == STACK_SIZE,
            forall|i: int| 0 <= i < r@.len() ==> r@[i] == 0u8,
    {
        vec![0u8; STACK_SIZE]
    }

    /// The outcome of `clone` on `stack`: it returned `ret` and set `errno`.
    /// On success the handle takes the stack over; on failure no process runs
    /// on it and it is released here.
    pub fn spawned(stack: Vec<u8>, ret: i32, errno: i32) -> (r: Result<CmdHandle, OsError>)
        requires
            stack@.len() == STACK_SIZE,
        ensures
            ret == -1 ==> r == Err::<CmdHandle, OsError>(OsError { code: errno }),
            ret != -1 ==> r is Ok && r->Ok_0.spec_pid() == ret && r->Ok_0.stack() == stack@
                && r->Ok_0.wf(),
    {
        if ret == -1 {
            Err(OsError { code: errno })
        } else {
            Ok(CmdHandle { handle: ret, stack })
        }
    }

    /// The process ID to wait for.
    pub fn pid(&self) -> (r: i32)
        ensures
            r == self.spec_pid(),
    {
        self.handle
    }

    /// Ends the handle once `waitpid` on its process returned `ret` with
    /// `errno` set: the stack is released here, after the wait, and the
    /// handle cannot be used again.
    pub fn wait(self, ret: i32, errno: i32) -> (r: Result<(), OsError>)
        ensures
            r == if ret == -1 {
                Err(OsError { code: errno })
            } else {
                Ok::<(), OsError>(())
            },
    {
        {
            // The process no longer runs: its stack is freed at the end of this block.
            let CmdHandle { handle: _, stack: _released } = self;
        }
        if ret == -1 {
            Err(OsError { code: errno })
        } else {
            Ok(())
        }
    }
}

} // verus!
