use osvr::c_string::nul_terminated;

#[test]
fn identifier_gets_a_terminating_nul() {
    let bytes = nul_terminated("Rust OSVR example").unwrap();
    let mut expected = b"Rust OSVR example".to_vec();
    expected.push(0);
    assert_eq!(bytes, expected);
}

#[test]
fn interface_path_gets_a_terminating_nul() {
    assert_eq!(nul_terminated("/controller/left/1").unwrap(), b"/controller/left/1\0".to_vec());
}

#[test]
fn empty_string_is_a_lone_nul() {
    assert_eq!(nul_terminated("").unwrap(), vec![0u8]);
}

#[test]
fn interior_nul_is_refused() {
    assert_eq!(nul_terminated("bad\0path"), None);
    assert_eq!(nul_terminated("\0"), None);
    assert_eq!(nul_terminated("trailing\0"), None);
}

#[test]
fn multibyte_characters_are_kept_as_utf8() {
    let bytes = nul_terminated("héllo").unwrap();
    assert_eq!(bytes, vec![b'h', 0xc3, 0xa9, b'l', b'l', b'o', 0]);
}
