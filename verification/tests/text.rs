use dockyard::text::{chars_of, decimal_string, first_word_of, space, trim, zero_padded_string};

#[test]
fn decimal_string_writes_base_ten() {
    assert_eq!(decimal_string(0), "0");
    assert_eq!(decimal_string(7), "7");
    assert_eq!(decimal_string(10), "10");
    assert_eq!(decimal_string(4294967295), "4294967295");
    assert_eq!(decimal_string(u64::MAX), "18446744073709551615");
}

#[test]
fn zero_padded_string_pads_to_width() {
    assert_eq!(zero_padded_string(1, 4), "0001");
    assert_eq!(zero_padded_string(10, 4), "0010");
    assert_eq!(zero_padded_string(9999, 4), "9999");
    assert_eq!(zero_padded_string(0, 4), "0000");
    assert_eq!(zero_padded_string(7, 0), "7");
}

#[test]
fn zero_padded_string_keeps_longer_numbers() {
    assert_eq!(zero_padded_string(12345, 4), "12345");
    assert_eq!(zero_padded_string(4294967295, 4), "4294967295");
}

#[test]
fn chars_of_lists_characters() {
    assert_eq!(chars_of("a-b"), vec!['a', '-', 'b']);
    assert_eq!(chars_of(""), Vec::<char>::new());
    assert_eq!(chars_of("é1"), vec!['é', '1']);
}

#[test]
fn space_follows_unicode_white_space() {
    for c in ['\t', '\n', '\u{b}', '\u{c}', '\r', ' ', '\u{85}', '\u{a0}', '\u{1680}', '\u{2000}',
        '\u{200a}', '\u{2028}', '\u{2029}', '\u{202f}', '\u{205f}', '\u{3000}']
    {
        assert!(space(c));
        assert!(c.is_whitespace());
    }
    for c in ['a', '0', '-', '\u{200b}', '\u{180e}', '\u{feff}'] {
        assert!(!space(c));
        assert!(!c.is_whitespace());
    }
}

#[test]
fn first_word_of_takes_first_run() {
    assert_eq!(
        first_word_of("8f3a1c2e\tHEAD\n"),
        Some("8f3a1c2e".to_string())
    );
    assert_eq!(first_word_of("  abc def"), Some("abc".to_string()));
    assert_eq!(first_word_of("abc"), Some("abc".to_string()));
    assert_eq!(first_word_of("\n\t x"), Some("x".to_string()));
}

#[test]
fn first_word_of_finds_none_in_white_space() {
    assert_eq!(first_word_of(""), None);
    assert_eq!(first_word_of(" \n\t"), None);
}

#[test]
fn trim_strips_both_ends() {
    assert_eq!(trim("a784ec0\n"), "a784ec0");
    assert_eq!(trim("  a b \t"), "a b");
    assert_eq!(trim("x"), "x");
    assert_eq!(trim(""), "");
    assert_eq!(trim(" \n "), "");
}
