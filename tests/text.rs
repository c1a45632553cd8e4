use livecmd::text::{decode_text, string_of_chars};

#[test]
fn chars_become_a_string() {
    assert_eq!(string_of_chars(&vec!['e', 'c', 'h', 'o', ' ', 'é']), "echo é");
    assert_eq!(string_of_chars(&vec![]), "");
}

#[test]
fn valid_utf8_decodes() {
    assert_eq!(decode_text(vec![0x68, 0x69, 0x0a]), Some("hi\n".to_string()));
    assert_eq!(decode_text(vec![0xc3, 0xa9]), Some("é".to_string()));
    assert_eq!(decode_text(vec![]), Some(String::new()));
}

#[test]
fn invalid_utf8_gives_none() {
    assert_eq!(decode_text(vec![0xff, 0xfe, 0x00]), None);
    assert_eq!(decode_text(vec![0x61, 0xc3]), None);
}
