use winnow_regex::bytes::BytesInput;
use winnow_regex::{MatchError, RegexParser, TextInput};

#[test]
fn regex_parser() {
    let p = RegexParser::new(regex::Regex::new(r"^\d+").unwrap());
    let mut input = TextInput::new_complete("42abc");
    assert_eq!(p.parse_next(&mut input), Ok("42"));
    assert_eq!(input.rest, "abc");
}

#[test]
fn ok_with_literal_pattern() {
    let p = winnow_regex::regex(r"^\d+");
    let mut input = TextInput::new_complete("42xyz");
    assert_eq!(p.parse_next(&mut input), Ok("42"));
    assert_eq!(input.rest, "xyz");
}

#[test]
fn unicode_partial() {
    let p = winnow_regex::regex(r"^[ぁ-ん]+");
    let mut input = TextInput::new_complete("あいう123");
    let re = p.parse_next(&mut input).unwrap();
    assert_eq!(re, "あいう");
}

#[test]
fn lib_partial() {
    let p = winnow_regex::regex(regex::bytes::Regex::new(r"^\d+").unwrap());
    let mut input = BytesInput::new_partial(&b"123abc"[..]);
    assert_eq!(p.parse_next(&mut input), Ok(&b"123"[..]));
    assert_eq!(input.rest, &b"abc"[..]);
    let mut short = BytesInput::new_partial(&b"123"[..]);
    assert_eq!(short.eof_offset(), 3);
    assert_eq!(p.parse_next(&mut short), Err(MatchError::Incomplete));
    assert_eq!(short.rest, &b"123"[..]);
}

#[test]
fn lib_test_re() {
    let re = regex::Regex::new(r"\d+").unwrap();
    assert!(re.find_at("1abc123", 0).is_some());
    assert!(re.find_at("1abc123", 1).is_some());
    assert!(re.find("abc123").is_some());
}

#[test]
fn bytes_partial() {
    let p = winnow_regex::bytes::regex(r"^\d+");
    let mut input = BytesInput::new_partial(&b"123abc"[..]);
    assert_eq!(p.parse_next(&mut input), Ok(&b"123"[..]));
    assert_eq!(input.rest, &b"abc"[..]);
    let mut short = BytesInput::new_partial(&b"123"[..]);
    assert_eq!(p.parse_next(&mut short), Err(MatchError::Incomplete));
    assert_eq!(short.rest, &b"123"[..]);
}

#[test]
fn bytes_test_re() {
    let re = regex::Regex::new(r"\d+").unwrap();
    assert!(re.find_at("1abc123", 0).is_some());
    assert!(re.find_at("1abc123", 1).is_some());
    assert!(re.find("abc123").is_some());
}

#[test]
fn digits_complete_match() {
    let p = winnow_regex::regex(r"^\d+");
    let mut input = TextInput::new_complete("42abc");
    assert_eq!(p.parse_next(&mut input), Ok("42"));
    assert_eq!(input.rest, "abc");
    assert!(!input.is_partial());
}

#[test]
fn digits_complete_no_match() {
    let p = winnow_regex::regex(r"^\d+");
    let mut input = TextInput::new_complete("abc42");
    assert_eq!(p.parse_next(&mut input), Err(MatchError::NoMatch));
    assert_eq!(input.rest, "abc42");
}

#[test]
fn digits_partial_incomplete() {
    let p = winnow_regex::regex(r"^\d+");
    let mut input = TextInput::new_partial("123");
    assert_eq!(p.parse_next(&mut input), Err(MatchError::Incomplete));
    assert_eq!(input.rest, "123");
}

#[test]
fn digits_partial_match() {
    let p = winnow_regex::regex(r"^\d+");
    let mut input = TextInput::new_partial("123abc");
    assert_eq!(p.parse_next(&mut input), Ok("123"));
    assert_eq!(input.rest, "abc");
    assert!(input.is_partial());
}

#[test]
fn bytes_digits_complete() {
    let p = winnow_regex::bytes::regex(r"^\d+");
    let mut input = BytesInput::new_complete(&b"42abc"[..]);
    assert_eq!(p.parse_next(&mut input), Ok(&b"42"[..]));
    assert_eq!(input.rest, &b"abc"[..]);
}

#[test]
fn unanchored_match_is_no_match_when_complete() {
    let p = winnow_regex::regex(r"\d+");
    let mut input = TextInput::new_complete("abc1");
    assert_eq!(p.parse_next(&mut input), Err(MatchError::NoMatch));
    assert_eq!(input.rest, "abc1");
}

#[test]
fn unanchored_match_is_incomplete_when_partial() {
    let p = winnow_regex::regex(r"\d+");
    let mut input = TextInput::new_partial("abc1");
    assert_eq!(p.parse_next(&mut input), Err(MatchError::Incomplete));
    assert_eq!(input.rest, "abc1");
}

#[test]
fn empty_partial_buffer_is_incomplete() {
    let p = winnow_regex::regex(r"^a?");
    let mut input = TextInput::new_partial("");
    assert_eq!(p.parse_next(&mut input), Err(MatchError::Incomplete));
    assert_eq!(input.rest, "");
}

#[test]
fn zero_length_match_on_complete_input() {
    let p = winnow_regex::regex(r"^a?");
    let mut input = TextInput::new_complete("xyz");
    assert_eq!(p.parse_next(&mut input), Ok(""));
    assert_eq!(input.rest, "xyz");
}

#[test]
fn match_reaching_end_of_complete_input_is_accepted() {
    let p = winnow_regex::regex(r"^\d+");
    let mut input = TextInput::new_complete("123");
    assert_eq!(p.parse_next(&mut input), Ok("123"));
    assert_eq!(input.rest, "");
}

#[test]
fn reinvocation_is_deterministic() {
    let p = winnow_regex::regex(r"^\d+");
    let mut first = TextInput::new_partial("123");
    let mut second = TextInput::new_partial("123");
    let a = p.parse_next(&mut first);
    let b = p.parse_next(&mut second);
    assert_eq!(a, b);
    assert_eq!(first.rest, second.rest);
    let mut third = TextInput::new_complete("42abc");
    let mut fourth = TextInput::new_complete("42abc");
    assert_eq!(p.parse_next(&mut third), p.parse_next(&mut fourth));
    assert_eq!(third.rest, fourth.rest);
}

#[test]
fn invalid_pattern_reports_error() {
    let r = winnow_regex::try_regex(r"(");
    assert!(matches!(r, Err(winnow_regex::Error::Regex(_))));
    let c = winnow_regex::try_captures(r"[z-a]");
    assert!(matches!(c, Err(winnow_regex::Error::Regex(_))));
    let b = winnow_regex::bytes::try_regex(r"(");
    assert!(matches!(b, Err(winnow_regex::Error::Regex(_))));
}

#[test]
fn valid_pattern_reports_ok() {
    let r = winnow_regex::try_regex(r"^\d+");
    assert!(r.is_ok());
    let mut input = TextInput::new_complete("7x");
    assert_eq!(r.unwrap().parse_next(&mut input), Ok("7"));
    assert!(winnow_regex::bytes::try_captures(r"^\d+").is_ok());
}

#[test]
fn string_pattern_compiles() {
    let pat = String::from(r"^\d+");
    let p = winnow_regex::try_regex(pat).unwrap();
    let mut input = TextInput::new_complete("99!");
    assert_eq!(p.parse_next(&mut input), Ok("99"));
    assert_eq!(input.rest, "!");
}

#[test]
fn input_accessors_report_buffer_state() {
    let input = TextInput::new_partial("abc");
    assert_eq!(input.peek(), "abc");
    assert!(input.is_partial());
    assert_eq!(input.eof_offset(), 3);
    let complete = TextInput::new_complete("あ");
    assert!(!complete.is_partial());
    assert_eq!(complete.eof_offset(), 3);
    let bytes_input = BytesInput::new_complete(&b"ab"[..]);
    assert_eq!(bytes_input.peek(), &b"ab"[..]);
    assert_eq!(bytes_input.eof_offset(), 2);
    assert!(!bytes_input.is_partial());
}
