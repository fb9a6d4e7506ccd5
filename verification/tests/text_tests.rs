use weixin::text::{
    first_line, push_decimal, push_signed_decimal, is_whitespace, normalize_shortcut_text, str_eq, trim,
};

const SAMPLES: &[&str] = &[
    "",
    " ",
    "abc",
    "  abc  ",
    "\t\n a b \r\n",
    "\u{3000}全角空格\u{3000}",
    "\u{a0}x\u{2009}y\u{a0}",
    "Ctrl + Alt + A",
    "  Ctrl   +\tAlt  +  A  ",
    "a\nb",
    "a\r\nb",
    "first\r",
    "\nsecond",
    "line one\nline two\n",
];

#[test]
fn trim_matches_std() {
    for s in SAMPLES {
        assert_eq!(trim(s), s.trim(), "input {:?}", s);
    }
}

#[test]
fn normalize_matches_split_whitespace() {
    for s in SAMPLES {
        let expected = s.split_whitespace().collect::<Vec<_>>().join(" ");
        assert_eq!(normalize_shortcut_text(s), expected, "input {:?}", s);
    }
}

#[test]
fn normalize_collapses_shortcut() {
    assert_eq!(normalize_shortcut_text("  Ctrl   +\tAlt  +  A  "), "Ctrl + Alt + A");
    assert_eq!(normalize_shortcut_text("   "), "");
}

#[test]
fn first_line_matches_lines() {
    for s in SAMPLES {
        let expected = s.lines().next().unwrap_or("");
        assert_eq!(first_line(s), expected, "input {:?}", s);
    }
}

#[test]
fn decimal_values() {
    for n in [0u64, 7, 156, u64::MAX] {
        let mut s = String::from("x");
        push_decimal(&mut s, n);
        assert_eq!(s, format!("x{}", n));
    }
    for n in [0i64, -1, 42, i64::MIN, i64::MAX] {
        let mut s = String::new();
        push_signed_decimal(&mut s, n);
        assert_eq!(s, n.to_string());
    }
}

#[test]
fn whitespace_matches_std() {
    for c in ['a', ' ', '\t', '\n', '\u{a0}', '\u{3000}', '\u{200b}', '\u{2028}', 'x', '\u{85}'] {
        assert_eq!(is_whitespace(c), c.is_whitespace(), "char {:?}", c);
    }
    for c in (0u32..0x1_0000).filter_map(char::from_u32) {
        assert_eq!(is_whitespace(c), c.is_whitespace(), "char {:?}", c);
    }
}

#[test]
fn str_eq_values() {
    assert!(str_eq("group1", "group1"));
    assert!(!str_eq("group1", "group2"));
    assert!(!str_eq("a", "ab"));
    assert!(str_eq("", ""));
}
