use webtui::text::{chars_of, matches_at, parse_i32, replace, same_text, split, trim_by, Trim};

#[test]
fn chars_of_lists_every_character() {
    assert_eq!(chars_of("a\u{e9}\u{1F600}"), vec!['a', '\u{e9}', '\u{1F600}']);
    assert!(chars_of("").is_empty());
}

#[test]
fn same_text_compares_character_by_character() {
    assert!(same_text("ArrowLeft", "ArrowLeft"));
    assert!(!same_text("ArrowLeft", "ArrowRight"));
    assert!(!same_text("abc", "abd"));
    assert!(same_text("", ""));
}

#[test]
fn matches_at_looks_at_one_position() {
    let text = chars_of("abcabc");
    let pattern = chars_of("bc");
    assert!(matches_at(&text, &pattern, 1));
    assert!(matches_at(&text, &pattern, 4));
    assert!(!matches_at(&text, &pattern, 0));
    assert!(!matches_at(&text, &pattern, 5));
    assert!(!matches_at(&text, &pattern, 7));
    assert!(matches_at(&text, &chars_of(""), 6));
}

#[test]
fn split_cuts_at_each_separator() {
    assert_eq!(split("a,\nb,\nc", ",\n"), vec!["a", "b", "c"]);
    assert_eq!(split("a,\nb,\nc", ",\n"), "a,\nb,\nc".split(",\n").collect::<Vec<_>>());
}

#[test]
fn split_keeps_empty_pieces() {
    assert_eq!(split("", ",\n"), vec![""]);
    assert_eq!(split(",\n", ",\n"), vec!["", ""]);
    assert_eq!(split("a,\n", ",\n"), vec!["a", ""]);
    assert_eq!(split("a,\n,\nb", ",\n"), vec!["a", "", "b"]);
    assert_eq!(split("no separator", ",\n"), vec!["no separator"]);
}

#[test]
fn split_does_not_overlap_matches() {
    assert_eq!(split("aaa", "aa"), vec!["", "a"]);
    assert_eq!(split("aaaa", "aa"), vec!["", "", ""]);
    assert_eq!(split("aaa", "aa"), "aaa".split("aa").collect::<Vec<_>>());
}

#[test]
fn trim_takes_whitespace_off_both_ends() {
    assert_eq!(trim_by("  \n\t hello world \r\n", Trim::Whitespace), "hello world");
    assert_eq!(trim_by("\u{a0}\u{2003}x\u{3000}", Trim::Whitespace), "x");
    assert_eq!(trim_by("   ", Trim::Whitespace), "");
    assert_eq!(trim_by("", Trim::Whitespace), "");
    assert_eq!(trim_by("a b", Trim::Whitespace), "a b");
}

#[test]
fn trim_takes_one_character_off_both_ends() {
    assert_eq!(trim_by("\"\"quoted\"", Trim::Matching('"')), "quoted");
    assert_eq!(trim_by("\"in\"side\"", Trim::Matching('"')), "in\"side");
    assert_eq!(trim_by("\"\"\"", Trim::Matching('"')), "");
    assert_eq!(trim_by(" \"x\"", Trim::Matching('"')), " \"x");
}

#[test]
fn replace_rewrites_every_occurrence() {
    assert_eq!(replace("say \\\"hi\\\"", "\\\"", "\""), "say \"hi\"");
    assert_eq!(replace("aaa", "aa", "b"), "ba");
    assert_eq!(replace("abc", "x", "y"), "abc");
    assert_eq!(replace("", "x", "y"), "");
    assert_eq!(replace("xx", "x", ""), "");
    assert_eq!(replace("a-b-c", "-", "--"), "a--b--c");
}

#[test]
fn parse_i32_reads_decimal_numbers() {
    assert_eq!(parse_i32("0"), Some(0));
    assert_eq!(parse_i32("80"), Some(80));
    assert_eq!(parse_i32("+17"), Some(17));
    assert_eq!(parse_i32("-17"), Some(-17));
    assert_eq!(parse_i32("000000000000000000000012"), Some(12));
    assert_eq!(parse_i32("2147483647"), Some(i32::MAX));
    assert_eq!(parse_i32("-2147483648"), Some(i32::MIN));
}

#[test]
fn parse_i32_refuses_what_is_no_number() {
    assert_eq!(parse_i32(""), None);
    assert_eq!(parse_i32("+"), None);
    assert_eq!(parse_i32("-"), None);
    assert_eq!(parse_i32("12a"), None);
    assert_eq!(parse_i32(" 12"), None);
    assert_eq!(parse_i32("1_000"), None);
    assert_eq!(parse_i32("--1"), None);
    assert_eq!(parse_i32("\u{663}"), None);
}

#[test]
fn parse_i32_refuses_numbers_out_of_range() {
    assert_eq!(parse_i32("2147483648"), None);
    assert_eq!(parse_i32("-2147483649"), None);
    assert_eq!(parse_i32("99999999999999999999999999"), None);
}

#[test]
fn parse_i32_agrees_with_the_standard_library() {
    for text in ["7", "-7", "+7", "", "x", "2147483647", "2147483648", "-2147483648", "0x10", "1 "] {
        assert_eq!(parse_i32(text), text.parse::<i32>().ok());
    }
}

#[test]
fn an_empty_separator_cuts_around_every_character() {
    assert_eq!(split("rust", ""), vec!["", "r", "u", "s", "t", ""]);
    assert_eq!(split("", ""), vec!["", ""]);
    assert_eq!(split("a\u{e9}", ""), vec!["", "a", "\u{e9}", ""]);
    for text in ["rust", "", "a\u{e9}b"] {
        assert_eq!(split(text, ""), text.split("").collect::<Vec<_>>());
    }
}

#[test]
fn an_empty_pattern_is_replaced_around_every_character() {
    assert_eq!(replace("abc", "", "-"), "-a-b-c-");
    assert_eq!(replace("", "", "x"), "x");
    assert_eq!(replace("ab", "", ""), "ab");
    for text in ["abc", "", "a\u{e9}b"] {
        assert_eq!(replace(text, "", "--"), text.replace("", "--"));
    }
}

#[test]
fn ascii_whitespace_is_tab_to_carriage_return_and_space() {
    for code in 0u8..128 {
        let c = code as char;
        let expected = (9..=13).contains(&code) || code == 32;
        assert_eq!(c.is_whitespace(), expected);
        let text = format!("{c}-{c}");
        let kept = trim_by(&text, Trim::Whitespace);
        assert_eq!(kept == "-", expected);
        assert_eq!(kept, text.trim());
    }
}
