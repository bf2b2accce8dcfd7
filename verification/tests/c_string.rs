use dart::c_string::CStringBytes;

#[test]
fn bytes_without_zero_are_a_c_string() {
    let string = CStringBytes::new(b"hello".to_vec()).ok().expect("no zero byte");
    assert_eq!(string.as_bytes(), b"hello");
    assert_eq!(string.duplicate().as_bytes(), b"hello");
    assert_eq!(string.into_bytes(), b"hello".to_vec());
}

#[test]
fn the_empty_string_is_a_c_string() {
    let string = CStringBytes::new(Vec::new()).ok().expect("no zero byte");
    assert_eq!(string.as_bytes(), b"");
}

#[test]
fn a_zero_byte_is_refused_where_it_first_stands() {
    let error = CStringBytes::new(b"ab\0cd\0".to_vec()).err().expect("a zero byte");
    assert_eq!(error.nul_position(), 2);
    assert_eq!(error.into_vec(), b"ab\0cd\0".to_vec());
    let error = CStringBytes::new(vec![0u8]).err().expect("a zero byte");
    assert_eq!(error.nul_position(), 0);
}

#[test]
fn text_becomes_its_utf8_bytes() {
    let string = CStringBytes::from_str("né").ok().expect("no zero byte");
    assert_eq!(string.as_bytes(), "né".as_bytes());
    assert_eq!(string.as_bytes().len(), 3);
    let error = CStringBytes::from_str("a\0").err().expect("a zero byte");
    assert_eq!(error.nul_position(), 1);
}

#[test]
fn a_reader_of_c_strings_stops_at_the_first_zero() {
    assert_eq!(CStringBytes::until_nul(b"ab\0cd\0".to_vec()).as_bytes(), b"ab");
    assert_eq!(CStringBytes::until_nul(b"\0ab".to_vec()).as_bytes(), b"");
    assert_eq!(CStringBytes::until_nul(b"abc".to_vec()).as_bytes(), b"abc");
    assert_eq!(CStringBytes::until_nul(Vec::new()).as_bytes(), b"");
    assert_eq!(CStringBytes::until_nul_of_str("n\u{e9}\0x").as_bytes(), "n\u{e9}".as_bytes());
    assert_eq!(CStringBytes::until_nul_of_str("whole").as_bytes(), b"whole");
}
