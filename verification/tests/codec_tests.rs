use eel_file::codec::accept_line;
use eel_file::codec::encode_metadata;
use eel_file::codec::is_terminator;
use eel_file::codec::parse_metadata;
use eel_file::codec::reject_line;
use eel_file::codec::response_is_reject;
use eel_file::codec::str_eq;
use eel_file::codec::terminator_line;

#[test]
fn markers_have_fixed_text() {
    assert_eq!(terminator_line(), "ITS OVER");
    assert_eq!(accept_line(), "HAND IT OVER");
    assert_eq!(reject_line(), "NO, SIRE.");
}

#[test]
fn terminator_recognition_is_exact() {
    assert!(is_terminator("ITS OVER"));
    assert!(!is_terminator("ITS OVER "));
    assert!(!is_terminator("its over"));
    assert!(!is_terminator(""));
}

#[test]
fn response_classification_is_exact() {
    assert!(response_is_reject("NO, SIRE."));
    assert!(!response_is_reject("NO, SIRE"));
    assert!(!response_is_reject("HAND IT OVER"));
    assert!(!response_is_reject(""));
}

#[test]
fn str_eq_compares_characters() {
    assert!(str_eq("abc", "abc"));
    assert!(!str_eq("abc", "abd"));
    assert!(!str_eq("abc", "ab"));
    assert!(str_eq("", ""));
}

#[test]
fn encode_produces_length_prefixed_line() {
    assert_eq!(encode_metadata("a.bin", 1024), "5 a.bin 1024");
    assert_eq!(encode_metadata("", 0), "0  0");
    assert_eq!(encode_metadata("x", 18446744073709551615), "1 x 18446744073709551615");
}

#[test]
fn parse_inverts_encode() {
    let line = encode_metadata("a.bin", 1024);
    let parsed = parse_metadata(&line);
    assert_eq!(parsed, Some(("a.bin".to_string(), 1024)));
}

#[test]
fn parse_inverts_encode_with_spaces_in_name() {
    let line = encode_metadata("my file name", 77);
    assert_eq!(line, "12 my file name 77");
    assert_eq!(parse_metadata(&line), Some(("my file name".to_string(), 77)));
}

#[test]
fn parse_inverts_encode_empty_name() {
    let line = encode_metadata("", 5);
    assert_eq!(parse_metadata(&line), Some((String::new(), 5)));
}

#[test]
fn parse_accepts_exact_line() {
    assert_eq!(parse_metadata("5 a.bin 1024"), Some(("a.bin".to_string(), 1024)));
    assert_eq!(parse_metadata("1 x 0"), Some(("x".to_string(), 0)));
}

#[test]
fn parse_rejects_malformed_lines() {
    assert_eq!(parse_metadata(""), None);
    assert_eq!(parse_metadata("nonsense"), None);
    assert_eq!(parse_metadata("5 a.bin"), None);
    assert_eq!(parse_metadata("5 a.bin "), None);
    assert_eq!(parse_metadata("5a.bin 1024"), None);
    assert_eq!(parse_metadata(" 5 a.bin 1024"), None);
    assert_eq!(parse_metadata("5 a.bin 1024 "), None);
    assert_eq!(parse_metadata("6 a.bin 1024"), None);
    assert_eq!(parse_metadata("5 a.bin 10x4"), None);
}

#[test]
fn parse_rejects_leading_zeroes() {
    assert_eq!(parse_metadata("05 a.bin 12"), None);
    assert_eq!(parse_metadata("5 a.bin 012"), None);
    assert_eq!(parse_metadata("0  0"), Some((String::new(), 0)));
}

#[test]
fn parse_rejects_size_overflow() {
    // one past u64::MAX
    assert_eq!(parse_metadata("1 x 18446744073709551616"), None);
    assert_eq!(parse_metadata("1 x 18446744073709551615"), Some(("x".to_string(), u64::MAX)));
}
