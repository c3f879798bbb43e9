use creek::text::{chars_eq_ignore_ascii_case, chars_of, same_text, to_ascii_lower, trim_chars, white_space};

fn v(s: &str) -> Vec<char> {
    s.chars().collect()
}

#[test]
fn chars_are_taken_in_order() {
    assert_eq!(chars_of("héllo"), v("héllo"));
    assert_eq!(chars_of(""), Vec::<char>::new());
}

#[test]
fn trimming_matches_std() {
    for s in ["  exit\n", "\t\r\n", "", "a", " a b ", "\u{3000}x\u{a0}", "\u{2009}y\u{85}", "é "] {
        assert_eq!(trim_chars(&v(s)), v(s.trim()), "{:?}", s);
    }
}

#[test]
fn white_space_matches_std() {
    for c in ['\t', '\n', '\u{b}', '\u{c}', '\r', ' ', '\u{85}', '\u{a0}', '\u{1680}', '\u{2000}', '\u{200a}', '\u{2028}', '\u{2029}', '\u{202f}', '\u{205f}', '\u{3000}', 'a', '\u{200b}', '\u{180e}', '_', '\0'] {
        assert_eq!(white_space(c), c.is_whitespace(), "{:?}", c);
    }
}

#[test]
fn ascii_case_is_ignored() {
    assert!(chars_eq_ignore_ascii_case(&v("EXit"), &v("exit")));
    assert!(!chars_eq_ignore_ascii_case(&v("exi"), &v("exit")));
    assert!(!chars_eq_ignore_ascii_case(&v("éxit"), &v("Éxit")));
    assert_eq!(to_ascii_lower('Q'), 'q');
    assert_eq!(to_ascii_lower('@'), '@');
    assert_eq!(to_ascii_lower('['), '[');
}

#[test]
fn same_text_compares_characters() {
    assert!(same_text("dummy", "dummy"));
    assert!(!same_text("dummy", "dumm"));
    assert!(!same_text("winit", "dummy"));
}
