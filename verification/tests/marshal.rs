use prisma_engine::engine::tx_id_parse;
use prisma_engine::marshal::{c_char_to_string, string_to_c_char};

#[test]
fn c_string_is_read_up_to_the_first_nul() {
    assert_eq!(c_char_to_string(b"hello\0world\0"), "hello");
}

#[test]
fn c_string_without_terminator_is_read_whole() {
    assert_eq!(c_char_to_string(b"hello"), "hello");
}

#[test]
fn empty_c_string_is_empty_text() {
    assert_eq!(c_char_to_string(b"\0"), "");
    assert_eq!(c_char_to_string(b""), "");
}

#[test]
fn c_string_holds_multi_byte_characters() {
    let buffer = "Grüße, 世界\0".as_bytes();
    assert_eq!(c_char_to_string(buffer), "Grüße, 世界");
}

#[test]
fn string_to_c_char_appends_the_terminator() {
    assert_eq!(string_to_c_char("{}"), vec![b'{', b'}', 0u8]);
    assert_eq!(string_to_c_char(""), vec![0u8]);
}

#[test]
fn string_to_c_char_writes_utf8() {
    assert_eq!(string_to_c_char("é"), vec![0xC3u8, 0xA9u8, 0u8]);
}

#[test]
fn c_string_round_trip() {
    for text in ["", "a", "model User { id Int @id }", "postgresql://host/db", "ü€😀"] {
        let buffer = string_to_c_char(text);
        assert_eq!(buffer.len(), text.len() + 1);
        assert_eq!(c_char_to_string(&buffer), text);
    }
}

#[test]
fn tx_id_parse_takes_a_token() {
    assert_eq!(tx_id_parse(b"tx-42\0"), Some("tx-42".to_string()));
}

#[test]
fn tx_id_parse_drops_what_follows_the_terminator() {
    assert_eq!(tx_id_parse(b"abc\0def"), Some("abc".to_string()));
}

#[test]
fn tx_id_parse_empty_is_absent() {
    assert_eq!(tx_id_parse(b"\0"), None);
    assert_eq!(tx_id_parse(b""), None);
    assert_eq!(tx_id_parse(b"\0abc"), None);
}

#[test]
fn tx_id_parse_ill_formed_is_absent() {
    assert_eq!(tx_id_parse(&[0xFFu8, 0xFEu8, 0u8]), None);
    // a lone continuation byte, an overlong encoding, a surrogate
    assert_eq!(tx_id_parse(&[b'a', 0x80u8, 0u8]), None);
    assert_eq!(tx_id_parse(&[0xC0u8, 0x80u8, 0u8]), None);
    assert_eq!(tx_id_parse(&[0xEDu8, 0xA0u8, 0x80u8, 0u8]), None);
}

#[test]
fn tx_id_parse_ill_formed_after_the_terminator_does_not_count() {
    assert_eq!(tx_id_parse(&[b'o', b'k', 0u8, 0xFFu8]), Some("ok".to_string()));
}
