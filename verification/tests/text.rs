use voicevox_binding::text::c_str_len;
use voicevox_binding::text::contains_nul;
use voicevox_binding::text::from_c_buffer;
use voicevox_binding::text::CText;
use voicevox_binding::Error;

#[test]
fn text_without_nul_is_terminated() {
    let text = CText::new("abc").unwrap();
    assert_eq!(text.as_bytes_with_nul(), &[0x61, 0x62, 0x63, 0x00]);
}

#[test]
fn empty_text_is_the_terminator_alone() {
    let text = CText::new("").unwrap();
    assert_eq!(text.as_bytes_with_nul(), &[0x00]);
}

#[test]
fn japanese_text_crosses_as_its_utf8_bytes() {
    let text = CText::new("こんにちは").unwrap();
    let expected: [u8; 16] = [
        0xe3, 0x81, 0x93, 0xe3, 0x82, 0x93, 0xe3, 0x81, 0xab, 0xe3, 0x81, 0xa1, 0xe3, 0x81, 0xaf,
        0x00,
    ];
    assert_eq!(text.as_bytes_with_nul(), &expected);
}

#[test]
fn text_with_a_nul_is_refused() {
    assert_eq!(CText::new("a\0b"), Err(Error::InvalidInput));
    assert_eq!(CText::new("\0"), Err(Error::InvalidInput));
    assert_eq!(CText::new("abc\0"), Err(Error::InvalidInput));
}

#[test]
fn contains_nul_finds_the_nul_character() {
    assert!(!contains_nul(""));
    assert!(!contains_nul("open_jtalk_dic_utf_8-1.11"));
    assert!(!contains_nul("こんにちは"));
    assert!(contains_nul("\0"));
    assert!(contains_nul("path\0rest"));
    assert!(contains_nul("こん\0にちは"));
}

#[test]
fn the_string_of_a_buffer_ends_at_its_first_nul() {
    assert_eq!(c_str_len(&[]), 0);
    assert_eq!(c_str_len(&[0]), 0);
    assert_eq!(c_str_len(&[0x41, 0x42]), 2);
    assert_eq!(c_str_len(&[0x41, 0x42, 0]), 2);
    assert_eq!(c_str_len(&[0x41, 0, 0x42, 0]), 1);
    assert_eq!(c_str_len(&[0, 0x41, 0x42]), 0);
}

#[test]
fn a_buffer_is_read_as_utf8_up_to_its_terminator() {
    assert_eq!(from_c_buffer(&[0x7b, 0x7d, 0x00]), Ok(String::from("{}")));
    assert_eq!(from_c_buffer(&[0x7b, 0x7d]), Ok(String::from("{}")));
    assert_eq!(from_c_buffer(&[0x00]), Ok(String::new()));
    assert_eq!(from_c_buffer(&[]), Ok(String::new()));
    assert_eq!(from_c_buffer(&[0xe3, 0x81, 0x93, 0x00]), Ok(String::from("こ")));
}

#[test]
fn what_follows_the_terminator_is_not_read() {
    assert_eq!(from_c_buffer(&[0x61, 0x00, 0xff, 0xfe]), Ok(String::from("a")));
    assert_eq!(from_c_buffer(&[0x61, 0x00, 0x62, 0x00]), Ok(String::from("a")));
}

#[test]
fn bytes_that_are_not_utf8_are_refused() {
    assert_eq!(from_c_buffer(&[0xff, 0x00]), Err(Error::InvalidEncoding));
    assert_eq!(from_c_buffer(&[0x61, 0x80, 0x00]), Err(Error::InvalidEncoding));
    // a character cut short by the terminator
    assert_eq!(from_c_buffer(&[0xe3, 0x81, 0x00]), Err(Error::InvalidEncoding));
    // an overlong encoding and a surrogate
    assert_eq!(from_c_buffer(&[0xc0, 0x80, 0x00]), Err(Error::InvalidEncoding));
    assert_eq!(from_c_buffer(&[0xed, 0xa0, 0x80, 0x00]), Err(Error::InvalidEncoding));
}

#[test]
fn what_is_written_is_what_is_read() {
    for text in ["", "a", "{\"kana\":\"コンニチワ\"}", "こんにちは"] {
        let written = CText::new(text).unwrap();
        assert_eq!(from_c_buffer(written.as_bytes_with_nul()), Ok(String::from(text)));
        assert_eq!(c_str_len(written.as_bytes_with_nul()), text.len());
    }
}

#[test]
fn characters_of_every_width_are_read() {
    assert_eq!(from_c_buffer(&[0x24, 0x00]), Ok(String::from("$")));
    assert_eq!(from_c_buffer(&[0xc3, 0xa9, 0x00]), Ok(String::from("é")));
    assert_eq!(from_c_buffer(&[0xe3, 0x81, 0x82, 0x00]), Ok(String::from("あ")));
    assert_eq!(from_c_buffer(&[0xf0, 0x9f, 0x98, 0x80, 0x00]), Ok(String::from("😀")));
    assert_eq!(from_c_buffer(&[0xf4, 0x8f, 0xbf, 0xbf, 0x00]), Ok(String::from("\u{10ffff}")));
}

#[test]
fn bytes_beyond_the_last_character_are_refused() {
    assert_eq!(from_c_buffer(&[0xf4, 0x90, 0x80, 0x80, 0x00]), Err(Error::InvalidEncoding));
    assert_eq!(from_c_buffer(&[0xf8, 0x88, 0x80, 0x80, 0x80, 0x00]), Err(Error::InvalidEncoding));
    assert_eq!(from_c_buffer(&[0x80, 0x00]), Err(Error::InvalidEncoding));
    assert_eq!(from_c_buffer(&[0xc3, 0x00]), Err(Error::InvalidEncoding));
    assert_eq!(from_c_buffer(&[0xc3]), Err(Error::InvalidEncoding));
}
