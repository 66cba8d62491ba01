use copy_prog::text::{
    ends_with_char, eq_ignore_ascii_case, parse_u8, replace, starts_with_char, str_concat, str_eq,
    str_lex_le, string_from_range, to_decimal, trim,
};

#[test]
fn trim_removes_surrounding_whitespace() {
    assert_eq!(trim("  abc \n"), "abc");
    assert_eq!(trim("\t a b \r\n"), "a b");
    assert_eq!(trim(""), "");
    assert_eq!(trim("   "), "");
    assert_eq!(trim("\u{3000}x\u{3000}"), "x");
}

#[test]
fn trimming_twice_is_trimming_once() {
    for s in ["  a ", "\n\n", "x", " x y  ", ""] {
        let once = trim(s);
        assert_eq!(trim(&once), once);
    }
}

#[test]
fn parse_u8_reads_like_std() {
    assert_eq!(parse_u8("5"), Some(5));
    assert_eq!(parse_u8("+5"), Some(5));
    assert_eq!(parse_u8("007"), Some(7));
    assert_eq!(parse_u8("255"), Some(255));
    assert_eq!(parse_u8("256"), None);
    assert_eq!(parse_u8("99999999999"), None);
    assert_eq!(parse_u8(""), None);
    assert_eq!(parse_u8("+"), None);
    assert_eq!(parse_u8("-1"), None);
    assert_eq!(parse_u8("-0"), None);
    assert_eq!(parse_u8(" 5"), None);
    assert_eq!(parse_u8("5a"), None);
    for s in ["0", "+12", "300", "1x", "++1"] {
        assert_eq!(parse_u8(s), s.parse::<u8>().ok());
    }
}

#[test]
fn decimal_text_reads_back() {
    for n in 0..=255u8 {
        assert_eq!(parse_u8(&to_decimal(n as usize)), Some(n));
    }
}

#[test]
fn decimal_text_matches_display() {
    for n in [0usize, 7, 10, 42, 1000, 123456789] {
        assert_eq!(to_decimal(n), n.to_string());
    }
}

#[test]
fn replace_replaces_every_occurrence() {
    assert_eq!(replace("a {} b {}", "{}", "7"), "a 7 b 7");
    assert_eq!(replace("{}{}", "{}", "x"), "xx");
    assert_eq!(replace("no match", "{}", "x"), "no match");
    assert_eq!(replace("aaa", "aa", "b"), "ba");
    assert_eq!(replace("预览: 将复制 {} 个文件", "{}", "12"), "预览: 将复制 12 个文件");
}

#[test]
fn ascii_case_is_ignored_only_for_ascii() {
    assert!(eq_ignore_ascii_case("Q", "q"));
    assert!(eq_ignore_ascii_case("yEs", "YES"));
    assert!(!eq_ignore_ascii_case("q", "qq"));
    assert!(!eq_ignore_ascii_case("Д", "д"));
}

#[test]
fn lexicographic_order_matches_string_order() {
    let words = ["", "a", "a/", "a/b", "ab", "b", "B", "Ё", "е", "z/x"];
    for a in words {
        for b in words {
            assert_eq!(str_lex_le(a, b), a <= b, "{} {}", a, b);
        }
    }
}

#[test]
fn small_helpers() {
    assert_eq!(str_concat(".", "md"), ".md");
    assert!(str_eq("a", "a"));
    assert!(!str_eq("a", "b"));
    assert!(starts_with_char(".git", '.'));
    assert!(!starts_with_char("", '.'));
    assert!(ends_with_char("dir/", '/'));
    assert!(!ends_with_char("dir", '/'));
    assert_eq!(string_from_range(&vec!['a', 'ñ', 'b', 'c'], 1, 3), "ñb");
}

#[test]
fn only_unicode_white_space_is_trimmed() {
    assert_eq!(trim("\u{85}\u{a0}x\u{2028}\u{202f}"), "x");
    assert_eq!(trim("  ../proj  "), "../proj");
    assert_eq!(trim("\u{200b}x"), "\u{200b}x");
    assert_eq!(trim(".x."), ".x.");
}
