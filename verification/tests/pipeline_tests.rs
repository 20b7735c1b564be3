use trdelnik::Error;
use trdelnik::build_outcome;
use trdelnik::decode_text;
use trdelnik::expansion_outcome;

#[test]
fn build_exit_zero_succeeds() {
    assert_eq!(build_outcome(Some(0)), Ok(()));
}

#[test]
fn build_exit_one_fails() {
    assert_eq!(build_outcome(Some(1)), Err(Error::BuildProgramsFailed));
}

#[test]
fn build_killed_by_signal_fails() {
    assert_eq!(build_outcome(None), Err(Error::BuildProgramsFailed));
}

#[test]
fn expansion_success_yields_expanded_source() {
    let stdout = b"mod expanded {}".to_vec();
    let r = expansion_outcome(Some(0), stdout, Vec::new());
    assert_eq!(r, Ok("mod expanded {}".to_string()));
}

#[test]
fn expansion_failure_preserves_compiler_diagnostics() {
    let stderr = b"error[E0000]: bad".to_vec();
    let r = expansion_outcome(Some(1), Vec::new(), stderr);
    assert_eq!(r, Err(Error::ReadProgramCodeFailed("error[E0000]: bad".to_string())));
}

#[test]
fn expansion_invalid_stdout_encoding_is_utf8_error() {
    let stdout = vec![0xff, 0xfe, 0x20];
    let r = expansion_outcome(Some(0), stdout, Vec::new());
    assert_eq!(r, Err(Error::Utf8Error));
}

#[test]
fn expansion_invalid_stderr_encoding_is_utf8_error() {
    let stderr = vec![0xff];
    let r = expansion_outcome(Some(1), Vec::new(), stderr);
    assert_eq!(r, Err(Error::Utf8Error));
}

#[test]
fn decode_text_round_trips_valid_bytes() {
    let r = decode_text(b"fn main() {}".to_vec());
    assert_eq!(r, Ok("fn main() {}".to_string()));
}

#[test]
fn decode_text_rejects_invalid_bytes() {
    let r = decode_text(vec![0xc3, 0x28]);
    assert_eq!(r, Err(Error::Utf8Error));
}
