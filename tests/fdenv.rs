use snp_launch::fdenv::{fd_environment, join_names, push_decimal};

#[test]
fn fd_environment_entries() {
    let names = vec![b"stdin".to_vec(), b"stdout".to_vec(), b"stderr".to_vec()];
    let env = fd_environment(&names);
    assert_eq!(env.len(), 2);
    assert_eq!(env[0].0, b"FD_COUNT".to_vec());
    assert_eq!(env[0].1, b"3".to_vec());
    assert_eq!(env[1].0, b"FD_NAMES".to_vec());
    assert_eq!(env[1].1, b"stdin:stdout:stderr".to_vec());
}

#[test]
fn fd_environment_empty() {
    let env = fd_environment(&Vec::new());
    assert_eq!(env[0].1, b"0".to_vec());
    assert_eq!(env[1].1, Vec::<u8>::new());
}

#[test]
fn decimal_digits() {
    let mut out = Vec::new();
    push_decimal(&mut out, 1204);
    assert_eq!(out, b"1204".to_vec());
    assert_eq!(join_names(&vec![b"a".to_vec()]), b"a".to_vec());
}
