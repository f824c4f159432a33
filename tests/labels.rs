use key_overlay::labels::code_to_char;

#[test]
fn known_codes_have_their_labels() {
    assert_eq!(code_to_char(1), "ESC");
    assert_eq!(code_to_char(11), " 0");
    assert_eq!(code_to_char(16), "Q");
    assert_eq!(code_to_char(30), "A");
    assert_eq!(code_to_char(43), "\\");
    assert_eq!(code_to_char(57), "SPACE");
    assert_eq!(code_to_char(70), "SCROLLLOCK");
    assert_eq!(code_to_char(103), "UP");
    assert_eq!(code_to_char(105), "LEFT");
    assert_eq!(code_to_char(106), "RIGHT");
    assert_eq!(code_to_char(108), "DOWN");
}

#[test]
fn unknown_codes_get_the_fallback() {
    assert_eq!(code_to_char(999), "<UNK>");
    assert_eq!(code_to_char(0), "<UNK>");
    assert_eq!(code_to_char(71), "<UNK>");
    assert_eq!(code_to_char(104), "<UNK>");
    assert_eq!(code_to_char(u16::MAX), "<UNK>");
}

#[test]
fn every_code_has_a_nonempty_label() {
    for code in 0..=u16::MAX {
        assert!(!code_to_char(code).is_empty());
    }
}
