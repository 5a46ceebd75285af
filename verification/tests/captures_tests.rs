use winnow_regex::bytes::{BytesInput, BytesRegexPattern};
use winnow_regex::{GroupError, MatchError, TextInput};

#[test]
fn captures_two_groups() {
    let p = winnow_regex::captures(r"^(\d+)x(\d+)");
    let mut input = TextInput::new_complete("11x42abc");
    let caps = p.parse_next(&mut input).unwrap();
    assert_eq!(caps.index(0), "11x42");
    assert_eq!(caps.index(1), "11");
    assert_eq!(caps.index(2), "42");
    assert_eq!(input.rest, "abc");
}

#[test]
fn group_zero_equals_whole_match() {
    let p = winnow_regex::captures(r"^(\d+)x(\d+)");
    let mut input = TextInput::new_complete("11x42abc");
    let caps = p.parse_next(&mut input).unwrap();
    assert_eq!(caps.index(0), caps.as_str());
    assert_eq!(caps.group(0), Some((0, 5)));
    let b = winnow_regex::bytes::captures(r"^(\d)(\d)");
    let mut bytes_input = BytesInput::new_complete(&b"42abc"[..]);
    let bytes_caps = b.parse_next(&mut bytes_input).unwrap();
    assert_eq!(bytes_caps.index(0), bytes_caps.as_bytes());
    assert_eq!(bytes_caps.index(0), &b"42"[..]);
}

#[test]
fn group_bounds_and_count() {
    let p = winnow_regex::captures(r"^(\d+)x(\d+)");
    let mut input = TextInput::new_complete("11x42abc");
    let caps = p.parse_next(&mut input).unwrap();
    assert_eq!(caps.group_count(), 3);
    assert_eq!(caps.group(0), Some((0, 5)));
    assert_eq!(caps.group(1), Some((0, 2)));
    assert_eq!(caps.group(2), Some((3, 5)));
    assert_eq!(caps.group(3), None);
}

#[test]
fn nonparticipating_group_is_distinct_from_out_of_range() {
    let p = winnow_regex::captures(r"^(a)|(b)");
    let mut input = TextInput::new_complete("a rest");
    let caps = p.parse_next(&mut input).unwrap();
    assert_eq!(caps.group_count(), 3);
    assert_eq!(caps.try_group(1), Ok((0, 1)));
    assert_eq!(caps.try_group(2), Err(GroupError::DidNotParticipate));
    assert_eq!(caps.try_group(3), Err(GroupError::OutOfRange));
    assert_eq!(caps.try_group(99), Err(GroupError::OutOfRange));
    assert_eq!(caps.group(2), None);
    assert_eq!(caps.group(3), None);
}

#[test]
fn captures_partial_rules_match_slice_parser() {
    let p = winnow_regex::captures(r"^\d+");
    let mut incomplete = TextInput::new_partial("123");
    assert!(matches!(p.parse_next(&mut incomplete), Err(MatchError::Incomplete)));
    assert_eq!(incomplete.rest, "123");
    let mut early = TextInput::new_partial("123abc");
    let caps = p.parse_next(&mut early).unwrap();
    assert_eq!(caps.as_str(), "123");
    assert_eq!(early.rest, "abc");
    let mut missing = TextInput::new_complete("abc");
    assert!(matches!(p.parse_next(&mut missing), Err(MatchError::NoMatch)));
    assert_eq!(missing.rest, "abc");
}

#[test]
fn bytes_captures_groups() {
    let p = winnow_regex::bytes::captures(r"^(\d+),(\d+)");
    let mut input = BytesInput::new_complete(&b"42,99 done"[..]);
    let caps = p.parse_next(&mut input).unwrap();
    assert_eq!(caps.index(1), &b"42"[..]);
    assert_eq!(caps.index(2), &b"99"[..]);
    assert_eq!(input.rest, &b" done"[..]);
}

#[test]
fn unicode_captures_slice_on_char_boundaries() {
    let p = winnow_regex::captures(r"^([ぁ-ん]+)(\d+)");
    let mut input = TextInput::new_complete("あいう123!");
    let caps = p.parse_next(&mut input).unwrap();
    assert_eq!(caps.as_str(), "あいう123");
    assert_eq!(caps.index(1), "あいう");
    assert_eq!(caps.index(2), "123");
    assert_eq!(input.rest, "!");
}

#[test]
fn captures_parser_from_precompiled() {
    let re = regex::Regex::new(r"^(\w)").unwrap();
    let p = winnow_regex::CapturesParser::new(re);
    let mut input = TextInput::new_complete("hi");
    let caps = p.parse_next(&mut input).unwrap();
    assert_eq!(caps.index(1), "h");
    assert_eq!(input.rest, "i");
}

#[test]
fn bytes_into_regex_from_precompiled() {
    let re = regex::bytes::Regex::new(r"^ab").unwrap();
    let built = re.clone().into_regex();
    assert_eq!(built.as_str(), re.as_str());
    let p = winnow_regex::bytes::regex(re);
    let mut input = BytesInput::new_complete(&b"abc"[..]);
    assert_eq!(p.parse_next(&mut input), Ok(&b"ab"[..]));
}
