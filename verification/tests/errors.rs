use pygmentize::decode::{decode, decode_lossy};
use pygmentize::error::decimal_string;
use pygmentize::{ExitStatus, OsError, OsErrorKind, PygmentizeError, Utf8Failure};

fn os_error(kind: OsErrorKind, message: &str) -> OsError {
    OsError { kind, message: message.to_string() }
}

#[test]
fn decimal_of_single_digits() {
    let digits = ["0", "1", "2", "3", "4", "5", "6", "7", "8", "9"];
    for (n, text) in digits.iter().enumerate() {
        assert_eq!(decimal_string(n), *text);
    }
}

#[test]
fn decimal_of_larger_numbers() {
    assert_eq!(decimal_string(10), "10");
    assert_eq!(decimal_string(99), "99");
    assert_eq!(decimal_string(100), "100");
    assert_eq!(decimal_string(1_203_450), "1203450");
    assert_eq!(decimal_string(usize::MAX), usize::MAX.to_string());
}

#[test]
fn process_error_passes_the_system_message_on() {
    let err = PygmentizeError::Process(os_error(OsErrorKind::Other, "Permission denied (os error 13)"));
    assert_eq!(err.message(), "Permission denied (os error 13)");
}

#[test]
fn io_error_passes_the_system_message_on() {
    let err = PygmentizeError::Io(os_error(OsErrorKind::Other, "Broken pipe (os error 32)"));
    assert_eq!(err.message(), "Broken pipe (os error 32)");
}

#[test]
fn not_found_has_its_own_message() {
    let err = PygmentizeError::NotFound(os_error(OsErrorKind::NotFound, "No such file or directory (os error 2)"));
    assert_eq!(err.message(), "pygmentize was not found or not installed");
}

#[test]
fn tool_failure_names_status_and_stderr() {
    let status = ExitStatus { code: Some(1), description: "exit status: 1".to_string() };
    let err = PygmentizeError::tool_failure(status.clone(), "Error: no lexer for alias 'nope' found\n".to_string());
    assert_eq!(
        err,
        PygmentizeError::Pygmentize(status, "Error: no lexer for alias 'nope' found\n".to_string())
    );
    assert_eq!(
        err.message(),
        "pygmentize exited with exit status: 1: Error: no lexer for alias 'nope' found\n"
    );
}

#[test]
fn tool_failure_with_nothing_on_stderr() {
    let status = ExitStatus { code: None, description: "signal: 15 (SIGTERM)".to_string() };
    let err = PygmentizeError::Pygmentize(status, String::new());
    assert_eq!(err.message(), "pygmentize exited with signal: 15 (SIGTERM): ");
}

#[test]
fn invalid_sequence_message() {
    let failure = Utf8Failure { bytes: vec![0x61, 0xff], valid_up_to: 1, error_len: Some(1) };
    assert_eq!(failure.message(), "invalid utf-8 sequence of 1 bytes from index 1");
    let err = PygmentizeError::InvalidUtf8(failure);
    assert_eq!(err.message(), "invalid utf-8 sequence of 1 bytes from index 1");
}

#[test]
fn incomplete_sequence_message() {
    let failure = Utf8Failure { bytes: vec![0xe2, 0x82], valid_up_to: 0, error_len: None };
    assert_eq!(failure.message(), "incomplete utf-8 byte sequence from index 0");
}

#[test]
fn message_of_a_failure_far_into_the_output() {
    let mut bytes = vec![0x20; 123_456];
    bytes.extend_from_slice(&[0xe2, 0x28, 0xa1]);
    let failure = decode(bytes.clone()).unwrap_err();
    assert_eq!(failure.bytes, bytes);
    assert_eq!(failure.valid_up_to, 123_456);
    assert_eq!(failure.error_len, Some(1));
    assert_eq!(failure.message(), "invalid utf-8 sequence of 1 bytes from index 123456");
}

#[test]
fn messages_agree_with_the_standard_library() {
    let inputs: Vec<Vec<u8>> = vec![
        vec![0xff],
        vec![0x61, 0x62, 0xc3],
        vec![0x61, 0xe2, 0x82, 0x28],
        vec![0xf0, 0x9f, 0x98],
        vec![0xf0, 0x9f, 0x98, 0x41],
        vec![0xed, 0xa0, 0x80],
        vec![0xc0, 0x80],
        vec![0xf4, 0x90, 0x80, 0x80],
    ];
    for bytes in inputs {
        let expected = String::from_utf8(bytes.clone()).unwrap_err();
        let failure = decode(bytes.clone()).unwrap_err();
        assert_eq!(failure.bytes, bytes);
        assert_eq!(failure.valid_up_to, expected.utf8_error().valid_up_to());
        assert_eq!(failure.error_len, expected.utf8_error().error_len());
        assert_eq!(failure.message(), expected.to_string());
    }
}

#[test]
fn decode_valid_text() {
    assert_eq!(decode(Vec::new()), Ok(String::new()));
    assert_eq!(decode(b"plain".to_vec()), Ok("plain".to_string()));
    assert_eq!(
        decode(vec![0xce, 0xbb, 0x20, 0xe2, 0x86, 0x92, 0x20, 0xf0, 0x9f, 0xa6, 0x80]),
        Ok("\u{3bb} \u{2192} \u{1F980}".to_string())
    );
}

#[test]
fn decode_rejects_invalid_bytes() {
    assert_eq!(
        decode(vec![0x61, 0x80, 0x62]),
        Err(Utf8Failure { bytes: vec![0x61, 0x80, 0x62], valid_up_to: 1, error_len: Some(1) })
    );
    assert_eq!(
        decode(vec![0xf0, 0x9f]),
        Err(Utf8Failure { bytes: vec![0xf0, 0x9f], valid_up_to: 0, error_len: None })
    );
}

#[test]
fn lossy_decoding_keeps_valid_text() {
    assert_eq!(decode_lossy(Vec::new()), "");
    assert_eq!(decode_lossy("Tr\u{e4}ne \u{2014} ok".as_bytes().to_vec()), "Tr\u{e4}ne \u{2014} ok");
}

#[test]
fn lossy_decoding_replaces_invalid_sequences() {
    assert_eq!(decode_lossy(vec![0x61, 0xff, 0x62]), "a\u{fffd}b");
    assert_eq!(decode_lossy(vec![0xe2, 0x82]), "\u{fffd}");
    assert_eq!(decode_lossy(vec![0x61, 0xf0, 0x9f, 0x98, 0x41]), "a\u{fffd}A");
    assert_eq!(decode_lossy(vec![0xff, 0xfe]), "\u{fffd}\u{fffd}");
}
