use xbuilder::xstr::XStr;

#[test]
fn xstr() {
    let s = XStr("abc");
    assert_eq!(s.0, "abc");
}

#[test]
fn xstr_c_bytes_end_in_one_zero() {
    assert_eq!(XStr("abc").c_bytes(), Some(vec![b'a', b'b', b'c', 0]));
}

#[test]
fn xstr_c_bytes_of_the_empty_string() {
    assert_eq!(XStr("").c_bytes(), Some(vec![0]));
}

#[test]
fn xstr_c_bytes_keep_multibyte_characters() {
    assert_eq!(XStr("é").c_bytes(), Some(vec![0xc3, 0xa9, 0]));
}

#[test]
fn xstr_with_a_zero_byte_has_no_c_bytes() {
    assert_eq!(XStr("a\0b").c_bytes(), None);
    assert_eq!(XStr("\0").c_bytes(), None);
    assert_eq!(XStr("ab\0").c_bytes(), None);
}
