use linechat::lines::{collect_request_lines, request_complete, RequestError};

fn bytes(s: &[u8]) -> Vec<u8> {
    s.to_vec()
}

#[test]
fn collects_lines_until_blank_line() {
    let input = bytes(b"foo\nbar\n\n");
    let lines = collect_request_lines(&input).unwrap();
    assert_eq!(lines, vec!["foo".to_string(), "bar".to_string()]);
}

#[test]
fn ignores_everything_after_blank_line() {
    let input = bytes(b"foo\nbar\n\nrest of the stream\nmore\n");
    let lines = collect_request_lines(&input).unwrap();
    assert_eq!(lines, vec!["foo".to_string(), "bar".to_string()]);
}

#[test]
fn ignores_invalid_bytes_after_blank_line() {
    let input = bytes(b"foo\n\n\xff\xfe");
    let lines = collect_request_lines(&input).unwrap();
    assert_eq!(lines, vec!["foo".to_string()]);
}

#[test]
fn empty_input_gives_no_lines() {
    let input = bytes(b"");
    let lines = collect_request_lines(&input).unwrap();
    assert!(lines.is_empty());
}

#[test]
fn immediate_blank_line_gives_no_lines() {
    let input = bytes(b"\nfoo\n");
    let lines = collect_request_lines(&input).unwrap();
    assert!(lines.is_empty());
}

#[test]
fn strips_carriage_return_before_line_feed() {
    let input = bytes(b"foo\r\nbar\r\n\r\n");
    let lines = collect_request_lines(&input).unwrap();
    assert_eq!(lines, vec!["foo".to_string(), "bar".to_string()]);
}

#[test]
fn final_fragment_without_line_feed_is_a_line() {
    let input = bytes(b"foo\nbar");
    let lines = collect_request_lines(&input).unwrap();
    assert_eq!(lines, vec!["foo".to_string(), "bar".to_string()]);
}

#[test]
fn final_fragment_keeps_carriage_return() {
    // no line feed follows, so the carriage return is part of the line
    let input = bytes(b"foo\n\r");
    let lines = collect_request_lines(&input).unwrap();
    assert_eq!(lines, vec!["foo".to_string(), "\r".to_string()]);
}

#[test]
fn multibyte_text_is_decoded() {
    let input = bytes(b"h\xc3\xa9llo\n\n");
    let lines = collect_request_lines(&input).unwrap();
    assert_eq!(lines, vec!["h\u{e9}llo".to_string()]);
    assert_eq!(lines[0].chars().count(), 5);
}

#[test]
fn invalid_text_is_a_reported_error() {
    let input = bytes(b"f\xffo\n\n");
    let err = collect_request_lines(&input).unwrap_err();
    assert_eq!(err, RequestError::InvalidText(0));
}

#[test]
fn invalid_text_error_names_the_first_bad_line() {
    let input = bytes(b"fine\nalso fine\n\xff\nnever read\n\n");
    let err = collect_request_lines(&input).unwrap_err();
    assert_eq!(err, RequestError::InvalidText(2));
}

#[test]
fn request_complete_only_after_blank_line() {
    assert!(!request_complete(&bytes(b"")));
    assert!(!request_complete(&bytes(b"foo\nba")));
    assert!(!request_complete(&bytes(b"foo\nbar\n")));
    assert!(request_complete(&bytes(b"foo\nbar\n\n")));
    assert!(request_complete(&bytes(b"foo\r\n\r\ntail")));
    assert!(request_complete(&bytes(b"\n")));
}
