use videodl::text::{
    cat, chars_of, contains, decimal_text, find, is_whitespace, join, split_once, starts_with,
    str_eq, substring, trim, trim_char, trim_start,
};

#[test]
fn trimming_matches_std() {
    for s in ["", "  ", " a b ", "\u{3000}x\u{85}", "\t\nline\r\n", "none", "\u{a0}é\u{2009}"] {
        assert_eq!(trim(s), s.trim());
        assert_eq!(trim_start(s), s.trim_start());
        assert_eq!(trim_char(s, ' '), s.trim_matches(' '));
    }
    assert_eq!(trim_char("\"\"a\"b\"\"", '"'), "a\"b");
}

#[test]
fn whitespace_matches_std() {
    for c in ['\u{0}', ' ', '\t', '\u{b}', '\u{1c}', '\u{85}', '\u{a0}', '\u{1680}', '\u{180e}', '\u{2000}', '\u{200a}', '\u{200b}', '\u{2028}', '\u{202f}', '\u{205f}', '\u{3000}', '\u{feff}', 'a'] {
        assert_eq!(is_whitespace(c), c.is_whitespace(), "{:?}", c);
    }
}

#[test]
fn searching_matches_std() {
    let cases = [("abcabc", "ca"), ("abc", ""), ("", "a"), ("héllo wörld", "wö"), ("aaa", "aa"), ("x", "xyz")];
    for (s, p) in cases {
        assert_eq!(contains(s, p), s.contains(p));
        assert_eq!(starts_with(s, p), s.starts_with(p));
        let expected = s.split_once(p).map(|(a, b)| (a.to_string(), b.to_string()));
        assert_eq!(split_once(s, p), expected);
        assert_eq!(find(s, p), s.find(p).map(|b| s[..b].chars().count()));
    }
}

#[test]
fn joining_and_numbers() {
    assert_eq!(join(&Vec::new(), ","), "");
    assert_eq!(join(&vec!["a".to_string()], ","), "a");
    assert_eq!(join(&vec!["a".to_string(), "b".to_string(), "c".to_string()], ", "), "a, b, c");
    for n in [0u64, 7, 10, 99, 1080, 4294967296, u64::MAX] {
        assert_eq!(decimal_text(n), n.to_string());
    }
}

#[test]
fn small_helpers() {
    assert_eq!(chars_of("añb"), vec!['a', 'ñ', 'b']);
    assert_eq!(cat("ab", "cd"), "abcd");
    assert_eq!(substring("héllo", 1, 3), "él");
    assert!(str_eq("x", "x") && !str_eq("x", "y"));
}
