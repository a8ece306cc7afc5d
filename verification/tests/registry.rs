use cch::errors::LaunchError;
use cch::registry::find_entry;
use cch::registry::parse_record_line;
use cch::registry::parse_u32;

#[test]
fn resolves_known_caller() {
    let r = find_entry(b"alice:100000:65536", b"alice");
    assert_eq!(r, Ok((100000, 65536)));
}

#[test]
fn unknown_caller_is_delegation_not_found() {
    let r = find_entry(b"alice:100000:65536", b"mallory");
    assert_eq!(r, Err(LaunchError::DelegationNotFound));
}

#[test]
fn first_matching_record_wins() {
    let content = b"bob:200000:65536\nalice:100000:65536\nalice:1:1";
    assert_eq!(find_entry(content, b"alice"), Ok((100000, 65536)));
    assert_eq!(find_entry(content, b"bob"), Ok((200000, 65536)));
}

#[test]
fn empty_registry_finds_nothing() {
    assert_eq!(find_entry(b"", b"alice"), Err(LaunchError::DelegationNotFound));
}

#[test]
fn malformed_matching_record_is_configuration_error() {
    assert_eq!(find_entry(b"alice:100000", b"alice"), Err(LaunchError::Configuration));
    assert_eq!(find_entry(b"alice:ten:20", b"alice"), Err(LaunchError::Configuration));
    assert_eq!(find_entry(b"alice", b"alice"), Err(LaunchError::Configuration));
}

#[test]
fn extra_fields_are_ignored() {
    assert_eq!(find_entry(b"alice:7:9:junk", b"alice"), Ok((7, 9)));
}

#[test]
fn record_line_shape() {
    assert_eq!(parse_record_line(b"alice:100000:65536"), Some((100000, 65536)));
    assert_eq!(parse_record_line(b"alice:1:"), None);
    assert_eq!(parse_record_line(b"alice::2"), None);
    assert_eq!(parse_record_line(b"alice"), None);
}

#[test]
fn decimal_fields() {
    assert_eq!(parse_u32(b"0"), Some(0));
    assert_eq!(parse_u32(b"4294967295"), Some(u32::MAX));
    assert_eq!(parse_u32(b"4294967296"), None);
    assert_eq!(parse_u32(b""), None);
    assert_eq!(parse_u32(b"12a"), None);
    assert_eq!(parse_u32(b"-5"), None);
}
