use minibox::bytes::{bytes_of, c_string, contains_nul, copy_bytes, decimal, join};

#[test]
fn decimal_of_zero() {
    assert_eq!(decimal(0), b"0".to_vec());
}

#[test]
fn decimal_of_ceiling() {
    assert_eq!(decimal(20), b"20".to_vec());
}

#[test]
fn decimal_of_largest() {
    assert_eq!(decimal(u32::MAX), b"4294967295".to_vec());
}

#[test]
fn decimal_matches_to_string() {
    for n in [1u32, 9, 10, 99, 100, 1234, 65536, 1_000_000_007] {
        assert_eq!(decimal(n), n.to_string().into_bytes());
    }
}

#[test]
fn c_string_ends_in_one_nul() {
    assert_eq!(c_string(b"/bin/echo"), b"/bin/echo\0".to_vec());
    assert_eq!(c_string(b""), vec![0u8]);
}

#[test]
fn join_puts_one_slash_between() {
    assert_eq!(join(b"/sys/fs/cgroup/pids/cfs", b"pids.max"), b"/sys/fs/cgroup/pids/cfs/pids.max".to_vec());
}

#[test]
fn contains_nul_finds_inner_nul() {
    assert!(contains_nul(b"a\0b"));
    assert!(contains_nul(b"\0"));
    assert!(!contains_nul(b"abc"));
    assert!(!contains_nul(b""));
}

#[test]
fn bytes_of_is_utf8() {
    assert_eq!(bytes_of("héllo"), "héllo".as_bytes().to_vec());
    assert_eq!(copy_bytes(&vec![1u8, 2, 3]), vec![1u8, 2, 3]);
}
