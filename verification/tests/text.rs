use video_compositor::text::chars_of;
use video_compositor::text::find_char;
use video_compositor::text::parse_number;
use video_compositor::text::push_decimal;
use video_compositor::text::same_text;

fn parse(text: &str, max: u32) -> Option<u32> {
    let chars = chars_of(text);
    parse_number(&chars, 0, chars.len(), max)
}

#[test]
fn chars_come_out_in_order() {
    assert_eq!(chars_of("a/b"), vec!['a', '/', 'b']);
    assert_eq!(chars_of(""), Vec::<char>::new());
    assert_eq!(chars_of("żółw"), vec!['ż', 'ó', 'ł', 'w']);
}

#[test]
fn first_occurrence_is_found() {
    assert_eq!(find_char(&chars_of("5000:5002"), ':'), Some(4));
    assert_eq!(find_char(&chars_of("1:2:3"), ':'), Some(1));
    assert_eq!(find_char(&chars_of(":"), ':'), Some(0));
    assert_eq!(find_char(&chars_of("5000"), ':'), None);
    assert_eq!(find_char(&chars_of(""), ':'), None);
}

#[test]
fn numbers_are_read() {
    assert_eq!(parse("0", 10), Some(0));
    assert_eq!(parse("10", 10), Some(10));
    assert_eq!(parse("+10", 10), Some(10));
    assert_eq!(parse("000010", 10), Some(10));
    assert_eq!(parse("65535", 65535), Some(65535));
    assert_eq!(parse("4294967295", u32::MAX), Some(4294967295));
}

#[test]
fn numbers_beyond_the_limit_are_refused() {
    assert_eq!(parse("11", 10), None);
    assert_eq!(parse("65536", 65535), None);
    assert_eq!(parse("4294967296", u32::MAX), None);
    assert_eq!(parse("99999999999999999999999999", u32::MAX), None);
}

#[test]
fn what_is_no_number_is_refused() {
    assert_eq!(parse("", 10), None);
    assert_eq!(parse("+", 10), None);
    assert_eq!(parse("-1", 10), None);
    assert_eq!(parse("++1", 10), None);
    assert_eq!(parse("1+", 10), None);
    assert_eq!(parse(" 1", 10), None);
    assert_eq!(parse("1a", 10), None);
    assert_eq!(parse("١", 10), None);
}

#[test]
fn a_part_of_the_text_is_read() {
    let chars = chars_of("12/345");
    assert_eq!(parse_number(&chars, 0, 2, 1000), Some(12));
    assert_eq!(parse_number(&chars, 3, 6, 1000), Some(345));
    assert_eq!(parse_number(&chars, 1, 2, 1000), Some(2));
    assert_eq!(parse_number(&chars, 2, 2, 1000), None);
    assert_eq!(parse_number(&chars, 0, 6, 1000), None);
}

#[test]
fn numbers_are_written() {
    for (number, text) in [
        (0u64, "0"),
        (7, "7"),
        (10, "10"),
        (5004, "5004"),
        (65535, "65535"),
        (1234567890, "1234567890"),
        (u64::MAX, "18446744073709551615"),
    ] {
        let mut out = String::from("port ");
        push_decimal(&mut out, number);
        assert_eq!(out, format!("port {text}"));
    }
}

#[test]
fn texts_are_told_apart() {
    assert!(same_text("json", "json"));
    assert!(same_text("", ""));
    assert!(!same_text("json", "jso"));
    assert!(!same_text("json", "JSON"));
}
