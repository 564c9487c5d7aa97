use capsule::decimal::{parse_i32, parse_u32, parse_u8, push_decimal};
use capsule::text::{
    copy_range, find_from, has_prefix, has_substring, is_space_char, joined_lines, removed,
    same_chars, split_fields, split_lines, split_text, stripped_both, stripped_trailing, to_chars,
    to_string, trimmed, trimmed_end, trimmed_start,
};

fn chars(s: &str) -> Vec<char> {
    s.chars().collect()
}

fn texts(rows: &[Vec<char>]) -> Vec<String> {
    rows.iter().map(|r| r.iter().collect::<String>()).collect()
}

#[test]
fn chars_and_strings_convert_both_ways() {
    assert_eq!(to_chars("aä€"), vec!['a', 'ä', '€']);
    assert_eq!(to_string(&['a', 'ä', '€']), "aä€");
    assert_eq!(to_chars(""), Vec::<char>::new());
    assert_eq!(to_string(&[]), "");
}

#[test]
fn copy_range_takes_the_half_open_range() {
    assert_eq!(copy_range(&chars("abcdef"), 1, 4), chars("bcd"));
    assert_eq!(copy_range(&chars("abcdef"), 2, 2), chars(""));
}

#[test]
fn same_chars_compares_contents() {
    assert!(same_chars(&chars("fill"), &chars("fill")));
    assert!(!same_chars(&chars("fill"), &chars("fil")));
    assert!(!same_chars(&chars("fill"), &chars("file")));
}

#[test]
fn white_space_is_what_unicode_calls_so() {
    for c in ['\t', '\n', '\u{b}', '\u{c}', '\r', ' ', '\u{85}', '\u{a0}', '\u{2003}', '\u{3000}'] {
        assert!(is_space_char(c));
        assert!(c.is_whitespace());
    }
    for c in ['a', '0', '\u{8}', '\u{e}', '\u{200b}', '_'] {
        assert!(!is_space_char(c));
        assert!(!c.is_whitespace());
    }
}

#[test]
fn white_space_agrees_with_std_on_every_char() {
    let mut c = 0u32;
    while c <= 0x10ffff {
        if let Some(ch) = char::from_u32(c) {
            assert_eq!(is_space_char(ch), ch.is_whitespace());
        }
        c += 1;
    }
}

#[test]
fn trimming_removes_white_space_at_the_ends_only() {
    assert_eq!(trimmed(&chars("  a b \t\n")), chars("a b"));
    assert_eq!(trimmed_start(&chars("  a b ")), chars("a b "));
    assert_eq!(trimmed_end(&chars("  a b ")), chars("  a b"));
    assert_eq!(trimmed(&chars("   ")), chars(""));
    assert_eq!(trimmed(&chars("")), chars(""));
}

#[test]
fn stripping_removes_every_copy_of_the_character() {
    assert_eq!(stripped_trailing(&chars("40%%"), '%'), chars("40"));
    assert_eq!(stripped_both(&chars("''A''"), '\''), chars("A"));
    assert_eq!(stripped_both(&chars("'"), '\''), chars(""));
    assert_eq!(stripped_both(&chars("it's"), '\''), chars("it's"));
}

#[test]
fn prefixes_and_substrings() {
    assert!(has_prefix(&chars("Exec=/bin/foo"), &chars("Exec=")));
    assert!(!has_prefix(&chars("Exe"), &chars("Exec=")));
    assert!(has_prefix(&chars("x"), &chars("")));
    assert!(has_substring(&chars("Mute: yes"), &chars("yes")));
    assert!(!has_substring(&chars("Mute: no"), &chars("yes")));
    assert!(has_substring(&chars(""), &chars("")));
    assert_eq!(find_from(&chars("abcabc"), 0, &chars("bc")), Some(1));
    assert_eq!(find_from(&chars("abcabc"), 2, &chars("bc")), Some(4));
    assert_eq!(find_from(&chars("abcabc"), 5, &chars("bc")), None);
}

#[test]
fn lines_end_at_line_feeds() {
    assert_eq!(texts(&split_lines(&chars("a\nb\r\nc"))), vec!["a", "b", "c"]);
    assert_eq!(texts(&split_lines(&chars("a\n"))), vec!["a"]);
    assert_eq!(texts(&split_lines(&chars("a\n\n"))), vec!["a", ""]);
    assert_eq!(texts(&split_lines(&chars("\n"))), vec![""]);
    assert_eq!(texts(&split_lines(&chars("a\r"))), vec!["a\r"]);
    assert_eq!(texts(&split_lines(&chars(""))), Vec::<String>::new());
}

#[test]
fn lines_agree_with_std() {
    for text in ["", "\n", "\r\n", "a", "a\r\nb\n\nc\r", "\r\r\n", "x\n\r\ny", "fill", "a\nb\n"] {
        let expected: Vec<String> = text.lines().map(|l| l.to_string()).collect();
        assert_eq!(texts(&split_lines(&chars(text))), expected);
    }
}

#[test]
fn fields_are_split_at_every_separator() {
    assert_eq!(texts(&split_fields(&chars("a|b||c"), '|')), vec!["a", "b", "", "c"]);
    assert_eq!(texts(&split_fields(&chars(""), '|')), vec![""]);
    assert_eq!(texts(&split_fields(&chars("a|"), '|')), vec!["a", ""]);
}

#[test]
fn text_is_split_at_every_boundary() {
    assert_eq!(texts(&split_text(&chars("{a}\n{b}\n{c}"), &chars("}\n{"))), vec!["{a", "b", "c}"]);
    assert_eq!(texts(&split_text(&chars(""), &chars("}\n{"))), vec![""]);
    assert_eq!(texts(&split_text(&chars("aXXXb"), &chars("XX"))), vec!["a", "Xb"]);
}

#[test]
fn removed_drops_both_characters() {
    assert_eq!(removed(&chars("{a{b}}c"), '{', '}'), chars("abc"));
}

#[test]
fn joined_lines_puts_line_feeds_between() {
    assert_eq!(joined_lines(&vec![chars("a"), chars(""), chars("b")]), chars("a\n\nb"));
    assert_eq!(joined_lines(&vec![chars("a")]), chars("a"));
    assert_eq!(joined_lines(&vec![]), chars(""));
}

#[test]
fn unsigned_numbers_are_parsed_as_std_does() {
    for text in ["55", "+5", "-0", "0", "255", "256", "", "+", "-", "007", "1 ", " 1", "1a", "++1"] {
        assert_eq!(parse_u8(&chars(text)), text.parse::<u8>().ok());
        assert_eq!(parse_u32(&chars(text)), text.parse::<u32>().ok());
    }
    assert_eq!(parse_u8(&chars("55")), Some(55));
    assert_eq!(parse_u8(&chars("256")), None);
    assert_eq!(parse_u32(&chars("4294967295")), Some(u32::MAX));
    assert_eq!(parse_u32(&chars("4294967296")), None);
    let long = format!("{}{}", "0".repeat(60), "17");
    assert_eq!(parse_u8(&chars(&long)), Some(17));
    let huge = "9".repeat(60);
    assert_eq!(parse_u32(&chars(&huge)), None);
}

#[test]
fn signed_numbers_are_parsed_as_std_does() {
    for text in [
        "0", "-0", "+0", "-5", "+5", "2147483647", "2147483648", "-2147483648", "-2147483649", "",
        "-", "+", "--1", "1-", "12x",
    ] {
        assert_eq!(parse_i32(&chars(text)), text.parse::<i32>().ok());
    }
    assert_eq!(parse_i32(&chars("-2147483648")), Some(i32::MIN));
    assert_eq!(parse_i32(&chars("400")), Some(400));
}

#[test]
fn numbers_are_written_without_leading_zeros() {
    let mut out = chars("n=");
    push_decimal(0, &mut out);
    assert_eq!(out, chars("n=0"));
    let mut out = Vec::new();
    push_decimal(18446744073709551615, &mut out);
    assert_eq!(out, chars("18446744073709551615"));
    let mut out = Vec::new();
    push_decimal(100, &mut out);
    assert_eq!(out, chars("100"));
}
