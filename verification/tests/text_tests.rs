use sentinel::text::{is_white_space_char, joined, starts_with_char, str_eq, trim_white_space};

#[test]
fn trim_removes_unicode_white_space_at_both_ends() {
    assert_eq!(trim_white_space("\t a b \u{3000}\n"), "a b");
    assert_eq!(trim_white_space("\u{85}\u{a0}x\u{2028}"), "x");
    assert_eq!(trim_white_space("abc"), "abc");
    assert_eq!(trim_white_space(""), "");
    assert_eq!(trim_white_space(" \r\n\t "), "");
}

#[test]
fn trim_agrees_with_std() {
    for s in ["  héllo wörld  ", "\u{2000}\u{200a}mid dle\u{205f}", "\u{200b}x\u{200b}", "\u{feff} y"] {
        assert_eq!(trim_white_space(s), s.trim());
    }
}

#[test]
fn trim_is_idempotent_example() {
    let once = trim_white_space("  \u{1680}value\u{202f} ");
    assert_eq!(trim_white_space(&once), once);
}

#[test]
fn white_space_set_matches_std() {
    for code in 0u32..0x3100 {
        if let Some(c) = char::from_u32(code) {
            assert_eq!(is_white_space_char(c), c.is_whitespace(), "{:x}", code);
        }
    }
}

#[test]
fn string_helpers() {
    assert!(str_eq("config", "config"));
    assert!(!str_eq("config", "confi"));
    assert!(!str_eq("config", "Config"));
    assert!(starts_with_char("-x", '-'));
    assert!(!starts_with_char("", '-'));
    assert_eq!(joined("ab", "cd"), "abcd");
}
