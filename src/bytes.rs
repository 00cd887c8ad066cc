//! Byte strings as the kernel takes them: paths, names and numbers.
use vstd::prelude::*;
use vstd::string::StringSliceAdditionalSpecFns;

verus! {

/// Whether `s` holds a nul byte, which no C string can carry inside it.
pub open spec fn has_nul(s: Seq<u8>) -> bool {
    exists|i: int| 0 <= i < s.len() && s[i] == 0u8
}

/// The decimal digits of `n`, most significant first, without leading zeros.
pub open spec fn decimal_of(n: nat) -> Seq<u8>
    decreases n,
{
    if n < 10 {
        seq![(48 + n) as u8]
    } else {
        decimal_of(n / 10).push((48 + n % 10) as u8)
    }
}

/// `s` followed by the nul byte that ends a C string.
pub open spec fn nul_terminated(s: Seq<u8>) -> Seq<u8> {
    s.push(0u8)
}

/// `dir`, a slash, then `name`.
pub open spec fn joined(dir: Seq<u8>, name: Seq<u8>) -> Seq<u8> {
    dir.push(47u8) + name
}

/// The UTF-8 bytes of a text.
pub open spec fn utf8_of(s: Seq<char>) -> Seq<u8> {
    vstd::utf8::encode_utf8(s)
}

/// The bytes of `s`, copied.
pub fn bytes_of(s: &str) -> (r: Vec<u8>)
    ensures
        r@ == utf8_of(s@),
{
    vstd::slice::slice_to_vec(s.as_bytes())
}

/// Whether `s` holds a nul byte.
pub fn contains_nul(s: &[u8]) -> (r: bool)
    ensures
        r == has_nul(s@),
{
    let mut i: usize = 0;
    while i < s.len()
        invariant
            0 <= i <= s@.len(),
            forall|j: int| 0 <= j < i ==> s@[j] != 0u8,
        decreases s@.len() - i,
    {
        if s[i] == 0u8 {
            return true;
        }
        i = i + 1;
    }
    false
}

/// The decimal rendering of `n`, as `to_string` writes it.
pub fn decimal(n: u32) -> (r: Vec<u8>)
    ensures
        r@ == decimal_of(n as nat),
    decreases n,
{
    if n < 10 {
        let d: u8 = 48u8 + n as u8;
        let mut v: Vec<u8> = Vec::new();
        v.push(d);
        proof {
            assert(v@ =~= decimal_of(n as nat));
        }
        v
    } else {
        let mut v = decimal(n / 10);
        let d: u8 = 48u8 + (n % 10) as u8;
        v.push(d);
        v
    }
}

/// A copy of `v`.
pub fn copy_bytes(v: &Vec<u8>) -> (r: Vec<u8>)
    ensures
        r@ == v@,
{
    vstd::slice::slice_to_vec(v.as_slice())
}

/// `s` with a nul byte appended.
pub fn c_string(s: &[u8]) -> (r: Vec<u8>)
    ensures
        r@ == nul_terminated(s@),
{
    let mut v = vstd::slice::slice_to_vec(s);
    v.push(0u8);
    v
}

/// The path `dir/name`.
pub fn join(dir: &[u8], name: &[u8]) -> (r: Vec<u8>)
    ensures
        r@ == joined(dir@, name@),
{
    let mut v = vstd::slice::slice_to_vec(dir);
    v.push(47u8);
    let mut i: usize = 0;
    while i < name.len()
        invariant
            0 <= i <= name@.len(),
            v@ == dir@.push(47u8) + name@.subrange(0, i as int),
        decreases name@.len() - i,
    {
        v.push(name[i]);
        i = i + 1;
        proof {
            assert(v@ =~= dir@.push(47u8) + name@.subrange(0, i as int));
        }
    }
    proof {
        assert(name@.subrange(0, name@.len() as int) =~= name@);
    }
    v
}

} // verus!
