use protractor_plus::scan::{
    is_space_char, parse_i32, parse_u32, parse_u8, parse_usize, push_decimal, push_signed,
    split_whitespace,
};

#[test]
fn split_whitespace_drops_all_kinds_of_space() {
    let tokens = split_whitespace("  11\n1.5 -2\t\u{3000}x\u{85}y  ");
    assert_eq!(tokens, vec!["11", "1.5", "-2", "x", "y"]);
}

#[test]
fn split_whitespace_of_blank_text_is_empty() {
    assert!(split_whitespace("").is_empty());
    assert!(split_whitespace(" \n\t ").is_empty());
}

#[test]
fn split_whitespace_matches_std() {
    let text = "a  bb\u{2028}c\u{A0}dd e\r\nf";
    let ours = split_whitespace(text);
    let std: Vec<String> = text.split_whitespace().map(|t| t.to_string()).collect();
    assert_eq!(ours, std);
}

#[test]
fn is_space_char_agrees_with_std() {
    for code in 0u32..0x3100 {
        if let Some(c) = char::from_u32(code) {
            assert_eq!(is_space_char(c), c.is_whitespace(), "code {code:#x}");
        }
    }
}

#[test]
fn parse_u8_accepts_plus_and_rejects_others() {
    assert_eq!(parse_u8("0"), Some(0));
    assert_eq!(parse_u8("+7"), Some(7));
    assert_eq!(parse_u8("255"), Some(255));
    assert_eq!(parse_u8("0255"), Some(255));
    assert_eq!(parse_u8("256"), None);
    assert_eq!(parse_u8("-1"), None);
    assert_eq!(parse_u8("+"), None);
    assert_eq!(parse_u8(""), None);
    assert_eq!(parse_u8("1a"), None);
    assert_eq!(parse_u8("1.0"), None);
}

#[test]
fn parse_integers_match_std() {
    for t in ["", "+", "-", "0", "-0", "+12", "-12", "4294967295", "4294967296", "2147483647",
        "2147483648", "-2147483648", "-2147483649", "18446744073709551615",
        "18446744073709551616", "٣", "1_000"] {
        assert_eq!(parse_u8(t), t.parse::<u8>().ok(), "u8 {t}");
        assert_eq!(parse_u32(t), t.parse::<u32>().ok(), "u32 {t}");
        assert_eq!(parse_usize(t), t.parse::<usize>().ok(), "usize {t}");
        assert_eq!(parse_i32(t), t.parse::<i32>().ok(), "i32 {t}");
    }
}

#[test]
fn push_decimal_and_signed_write_like_to_string() {
    for n in [0u32, 7, 10, 99, 100, 65535, u32::MAX] {
        let mut s = String::from("x");
        push_decimal(&mut s, n);
        assert_eq!(s, format!("x{n}"));
    }
    for v in [0i32, -1, 42, -2147483648, 2147483647] {
        let mut s = String::new();
        push_signed(&mut s, v);
        assert_eq!(s, v.to_string());
        assert_eq!(parse_i32(&s), Some(v));
    }
}
