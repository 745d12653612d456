use chat_backlog::text::{char_is_space, char_is_upper, find, to_chars, trim};

#[test]
fn uppercase_letters_are_a_to_z_only() {
    assert!(char_is_upper('A'));
    assert!(char_is_upper('Z'));
    assert!(char_is_upper('M'));
    assert!(!char_is_upper('a'));
    assert!(!char_is_upper('@'));
    assert!(!char_is_upper('['));
    assert!(!char_is_upper('É'));
    assert!(!char_is_upper('-'));
}

#[test]
fn white_space_is_what_the_standard_library_calls_white_space() {
    for code in 0u32..=0x3100 {
        if let Some(c) = char::from_u32(code) {
            assert_eq!(char_is_space(c), c.is_whitespace(), "U+{code:04X}");
        }
    }
    assert!(!char_is_space('\u{feff}'));
    assert!(!char_is_space('\u{200b}'));
}

#[test]
fn characters_come_out_in_order() {
    assert_eq!(to_chars("añ!"), vec!['a', 'ñ', '!']);
    assert_eq!(to_chars(""), Vec::<char>::new());
}

#[test]
fn trim_drops_white_space_at_both_ends_only() {
    assert_eq!(trim("  dark mode \t\n"), "dark mode");
    assert_eq!(trim("dark"), "dark");
    assert_eq!(trim(""), "");
    assert_eq!(trim(" \u{a0}\u{3000} "), "");
    assert_eq!(trim("\u{2003}ночь\u{2003}"), "ночь");
    for text in ["  a b  ", "\n\n", "x", " x", "x ", "\u{85}x\u{85}"] {
        assert_eq!(trim(text), text.trim(), "{text:?}");
    }
}

#[test]
fn find_gives_the_first_occurrence_from_the_start_index() {
    let text = to_chars("a/track/b/track/c");
    let marker = to_chars("/track/");
    assert_eq!(find(&text, &marker, 0), Some(1));
    assert_eq!(find(&text, &marker, 1), Some(1));
    assert_eq!(find(&text, &marker, 2), Some(9));
    assert_eq!(find(&text, &marker, 10), None);
    assert_eq!(find(&text, &marker, 100), None);
    assert_eq!(find(&to_chars("ab"), &marker, 0), None);
    assert_eq!(find(&text, &to_chars(""), 3), Some(3));
    assert_eq!(find(&text, &to_chars(""), 17), Some(17));
    assert_eq!(find(&text, &to_chars(""), 18), None);
}
