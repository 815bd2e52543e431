use bunyan_view::text::{
    blank, chars_of, find, has_char, parse_u16, push_decimal, push_indented,
    push_indented_nonblank, push_joined, push_signed_decimal, same_text, split_lines, starts_with,
    to_upper, upper_chars,
};

#[test]
fn text_is_cut_at_line_feeds() {
    assert_eq!(split_lines(""), Vec::<String>::new());
    assert_eq!(split_lines("a"), vec!["a"]);
    assert_eq!(split_lines("a\n"), vec!["a"]);
    assert_eq!(split_lines("\n"), vec![""]);
    assert_eq!(split_lines("a\n\nb"), vec!["a", "", "b"]);
    assert_eq!(split_lines("a\r\nb\r\n"), vec!["a", "b"]);
    assert_eq!(split_lines("a\rb\r"), vec!["a\rb\r"]);
    assert_eq!(split_lines("\r\n\r\r\n"), vec!["", "\r"]);
    assert_eq!(split_lines("\u{e9}t\u{e9}\nfin"), vec!["\u{e9}t\u{e9}", "fin"]);
}

#[test]
fn lines_are_cut_as_the_standard_library_cuts_them() {
    for text in ["", "a", "a\n", "\n\n", "a\r\n\r\nb", "x\ry\n", "tail\r"] {
        let expected: Vec<String> = text.lines().map(String::from).collect();
        assert_eq!(split_lines(text), expected);
    }
}

#[test]
fn scans_find_characters_and_texts() {
    assert!(has_char("a b", ' '));
    assert!(!has_char("ab", ' '));
    assert!(!has_char("", 'x'));
    assert!(blank(""));
    assert!(blank(" \t\r\n\u{b}\u{c}"));
    assert!(blank("\u{85}\u{a0}\u{1680}\u{2000}\u{200a}\u{2028}\u{2029}\u{202f}\u{205f}\u{3000}"));
    assert!(!blank("\u{200b}"));
    for c in ['\u{8}', '\u{e}', '\u{1f}', '\u{84}', '\u{86}', '\u{1fff}', '\u{200b}', 'a'] {
        assert_eq!(bunyan_view::text::space_char(c), c.is_whitespace());
    }
    for c in [' ', '\u{9}', '\u{d}', '\u{85}', '\u{2005}', '\u{3000}'] {
        assert_eq!(bunyan_view::text::space_char(c), c.is_whitespace());
    }
    assert!(!blank(" x "));
    assert!(starts_with("HTTP/1.1", "HTTP/"));
    assert!(starts_with("a", ""));
    assert!(!starts_with("HTT", "HTTP/"));
    assert!(!starts_with("xHTTP/", "HTTP/"));
    assert_eq!(find("at line 3 or line 4", " line "), Some(2));
    assert_eq!(find("line 3", " line "), None);
    assert_eq!(find("", "x"), None);
    assert_eq!(find("abc", ""), Some(0));
    assert_eq!(find("aab", "ab"), Some(1));
    assert!(same_text("abc", "abc"));
    assert!(!same_text("abc", "abd"));
    assert!(!same_text("abc", "ab"));
    assert_eq!(chars_of("h\u{e9}"), vec!['h', '\u{e9}']);
}

#[test]
fn sixteen_bit_numbers_are_read_as_the_standard_library_reads_them() {
    for text in [
        "0", "7", "007", "+7", "65535", "65536", "99999999999999999999", "", "+", "-1", "1.0",
        " 1", "1 ", "a", "12a", "++1", "0x10",
    ] {
        assert_eq!(parse_u16(text), text.parse::<u16>().ok(), "for {:?}", text);
    }
    assert_eq!(parse_u16("65535"), Some(65535));
    assert_eq!(parse_u16("65536"), None);
}

#[test]
fn numbers_are_written_in_decimal() {
    for n in [0u64, 9, 10, 99, 100, 65535, 1_000_000_007, u64::MAX] {
        let mut out = String::from("n=");
        push_decimal(&mut out, n);
        assert_eq!(out, format!("n={}", n));
    }
    for n in [0i64, -1, 1, -10, i64::MAX, i64::MIN] {
        let mut out = String::new();
        push_signed_decimal(&mut out, n);
        assert_eq!(out, format!("{}", n));
    }
}

#[test]
fn small_letters_are_made_capital() {
    assert_eq!(to_upper('a'), 'A');
    assert_eq!(to_upper('z'), 'Z');
    assert_eq!(to_upper('A'), 'A');
    assert_eq!(to_upper('1'), '1');
    assert_eq!(to_upper('\u{e9}'), '\u{e9}');
    assert_eq!(upper_chars("lvl1\u{e9}"), vec!['L', 'V', 'L', '1', '\u{e9}']);
}

#[test]
fn lines_are_indented_by_four_spaces() {
    let mut out = String::from("x\n");
    push_indented(&mut out, "a\n\n b\r\n");
    assert_eq!(out, "x\n    a\n    \n     b\n");
    let mut kept = String::new();
    push_indented_nonblank(&mut kept, "a\n\n \t\nb\r\n\r\n");
    assert_eq!(kept, "    a\n    b\n");
    let mut nothing = String::new();
    push_indented(&mut nothing, "");
    assert_eq!(nothing, "");
}

#[test]
fn texts_are_joined_with_a_separator() {
    let mut out = String::from("(");
    push_joined(&mut out, &vec![String::from("a"), String::from("b"), String::from("c")], ", ");
    assert_eq!(out, "(a, b, c");
    let mut one = String::new();
    push_joined(&mut one, &vec![String::from("a")], ", ");
    assert_eq!(one, "a");
    let mut none = String::new();
    push_joined(&mut none, &Vec::new(), ", ");
    assert_eq!(none, "");
}
