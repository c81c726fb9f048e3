use cutecosmic::cstring::strdup;

#[test]
fn strdup_appends_the_terminator() {
    assert_eq!(strdup("Cosmic"), Some(vec![b'C', b'o', b's', b'm', b'i', b'c', 0]));
}

#[test]
fn strdup_of_empty_text_is_the_terminator_alone() {
    assert_eq!(strdup(""), Some(vec![0]));
}

#[test]
fn strdup_refuses_an_interior_nul() {
    assert_eq!(strdup("Open\0Sans"), None);
}

#[test]
fn strdup_refuses_a_leading_and_a_trailing_nul() {
    assert_eq!(strdup("\0"), None);
    assert_eq!(strdup("\0Noto"), None);
    assert_eq!(strdup("Noto\0"), None);
}

#[test]
fn strdup_keeps_the_utf8_encoding() {
    // U+00E9 takes two bytes, U+20AC three, U+1F600 four.
    assert_eq!(strdup("\u{e9}"), Some(vec![0xC3, 0xA9, 0]));
    assert_eq!(strdup("\u{20ac}"), Some(vec![0xE2, 0x82, 0xAC, 0]));
    assert_eq!(strdup("\u{1f600}"), Some(vec![0xF0, 0x9F, 0x98, 0x80, 0]));
}

#[test]
fn strdup_result_has_one_nul_at_the_end() {
    let bytes = strdup("Fira Sans Semibold").unwrap();
    assert_eq!(bytes.len(), "Fira Sans Semibold".len() + 1);
    assert_eq!(bytes.iter().filter(|byte| **byte == 0).count(), 1);
    assert_eq!(*bytes.last().unwrap(), 0);
    assert_eq!(&bytes[..bytes.len() - 1], "Fira Sans Semibold".as_bytes());
}
