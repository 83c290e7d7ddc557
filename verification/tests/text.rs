use crater_ohos::text::{
    constant_time_eq, constant_time_str_eq, contains, from_chars, is_whitespace, parse_u32,
    parse_u64, remove_all, starts_with, str_eq, to_chars, trim_bounds, u64_to_string,
};

#[test]
fn remove_all_matches_std_replace() {
    for (s, pat) in [
        ("https://x/api/v4", "/api/v4"),
        ("aaaa", "aa"),
        ("aaa", "aa"),
        ("abcabc", "bc"),
        ("abc", "abcd"),
        ("", "a"),
        ("abc", ""),
        ("ababab", "aba"),
        ("/api/v4/api/v4", "/api/v4"),
    ] {
        assert_eq!(remove_all(s, pat), s.replace(pat, ""), "{:?} {:?}", s, pat);
    }
}

#[test]
fn contains_and_prefix_match_std() {
    for (s, pat) in [
        ("process killed: out of memory", "out of memory"),
        ("abc", ""),
        ("", ""),
        ("", "a"),
        ("abc", "abcd"),
        ("xabc", "abc"),
        ("ab", "b"),
        ("ééé", "é"),
    ] {
        assert_eq!(contains(s, pat), s.contains(pat), "{:?} {:?}", s, pat);
        assert_eq!(starts_with(s, pat), s.starts_with(pat), "{:?} {:?}", s, pat);
        assert_eq!(str_eq(s, pat), s == pat);
    }
}

#[test]
fn numbers_parse_as_std_does() {
    for s in ["0", "007", "+5", "+", "", "-1", "12a", " 1", "18446744073709551615", "18446744073709551616", "4294967296", "99999999999999999999999"] {
        let cs = to_chars(s);
        assert_eq!(parse_u64(&cs, 0, cs.len()), s.parse::<u64>().ok(), "{:?}", s);
        assert_eq!(parse_u32(&cs, 0, cs.len()), s.parse::<u32>().ok(), "{:?}", s);
    }
    let cs = to_chars("ab123cd");
    assert_eq!(parse_u64(&cs, 2, 5), Some(123));
    assert_eq!(from_chars(&cs, 2, 5), "123");
    for n in [0u64, 9, 10, 12345, u64::MAX] {
        assert_eq!(u64_to_string(n), n.to_string());
    }
}

#[test]
fn whitespace_and_trim_match_std() {
    for c in ['\t', '\n', '\u{b}', '\u{c}', '\r', ' ', '\u{85}', '\u{a0}', '\u{1680}', '\u{2000}', '\u{200a}', '\u{200b}', '\u{2028}', '\u{2029}', '\u{202f}', '\u{205f}', '\u{3000}', 'a', '0', '\u{feff}'] {
        assert_eq!(is_whitespace(c), c.is_whitespace(), "{:?}", c);
    }
    for s in ["", "  ", " a ", "a", "\t\na b\r\n", "\u{3000}x\u{a0}"] {
        let cs = to_chars(s);
        let (from, to) = trim_bounds(&cs);
        assert_eq!(from_chars(&cs, from, to), s.trim(), "{:?}", s);
    }
}

#[test]
fn constant_time_equality() {
    assert!(constant_time_eq(b"", b""));
    assert!(constant_time_eq(b"abc", b"abc"));
    assert!(!constant_time_eq(b"abc", b"abd"));
    assert!(!constant_time_eq(b"abc", b"bbc"));
    assert!(!constant_time_eq(b"abc", b"ab"));
    assert!(!constant_time_eq(&[0x01, 0x02], &[0x02, 0x01]));
    assert!(constant_time_str_eq("sécret", "sécret"));
    assert!(!constant_time_str_eq("sécret", "secret"));
}
