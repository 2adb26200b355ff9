use maestro::text::{
    chars_of, is_whitespace, parse_i32_span, split_span, str_eq, trim_span, trim_str, Span,
};

fn whole(chars: &Vec<char>) -> Span {
    Span { start: 0, end: chars.len() }
}

fn parse(text: &str) -> Option<i32> {
    let chars = chars_of(text);
    parse_i32_span(&chars, whole(&chars))
}

fn split(text: &str, sep: char) -> Vec<String> {
    let chars = chars_of(text);
    split_span(&chars, whole(&chars), sep)
        .iter()
        .map(|s| chars[s.start..s.end].iter().collect())
        .collect()
}

#[test]
fn white_space_is_what_the_standard_library_says() {
    let mut c = '\0';
    loop {
        assert_eq!(is_whitespace(c), c.is_whitespace(), "{:?}", c);
        if c == char::MAX {
            break;
        }
        c = match char::from_u32(c as u32 + 1) {
            Some(next) => next,
            None => '\u{E000}',
        };
    }
}

#[test]
fn trimming_agrees_with_the_standard_library() {
    for text in ["", " ", "a", " a", "a ", "  a b  ", "\t\r\n50|10\n", "\u{a0}x\u{3000}", " \u{2003} "] {
        assert_eq!(trim_str(text), text.trim());
        let chars = chars_of(text);
        let kept = trim_span(&chars, whole(&chars));
        let trimmed: String = chars[kept.start..kept.end].iter().collect();
        assert_eq!(trimmed, text.trim());
    }
}

#[test]
fn splitting_agrees_with_the_standard_library() {
    for text in ["", "|", "a", "a|b", "a||b", "|a|", "50|10", "50 | 10 |", "|||"] {
        let expected: Vec<String> = text.split('|').map(|s| s.to_string()).collect();
        assert_eq!(split(text, '|'), expected);
    }
    assert_eq!(split("", '+'), vec![String::new()]);
    assert_eq!(split("a+", '+'), vec!["a".to_string(), String::new()]);
}

#[test]
fn numbers_are_read_as_the_standard_library_reads_them() {
    for text in [
        "0", "7", "50", "-40", "+40", "007", "-0", "100", "-100", "2147483647", "-2147483648",
        "2147483648", "-2147483649", "99999999999999999999", "", "+", "-", "--1", "+-1", "1-", " 1",
        "1 ", "1.5", "0x10", "١", "1_000", "4a",
    ] {
        assert_eq!(parse(text), text.parse::<i32>().ok(), "{:?}", text);
    }
    assert_eq!(parse("50"), Some(50));
    assert_eq!(parse("-40"), Some(-40));
    assert_eq!(parse("2147483648"), None);
    assert_eq!(parse("-2147483648"), Some(i32::MIN));
}

#[test]
fn a_number_can_be_read_from_the_middle_of_a_buffer() {
    let chars = chars_of("ab-12cd");
    assert_eq!(parse_i32_span(&chars, Span { start: 2, end: 5 }), Some(-12));
    assert_eq!(parse_i32_span(&chars, Span { start: 2, end: 6 }), None);
    assert_eq!(parse_i32_span(&chars, Span { start: 3, end: 3 }), None);
}

#[test]
fn strings_are_equal_when_their_characters_are() {
    assert!(str_eq("", ""));
    assert!(str_eq("chrome", "chrome"));
    assert!(!str_eq("chrome", "Chrome"));
    assert!(!str_eq("chrome", "chrom"));
    assert!(str_eq("é", "é"));
    assert!(!str_eq("é", "e"));
    assert_eq!(chars_of("aé"), vec!['a', 'é']);
}
