use std::io;

use veltrix::error::{Result, VeltrixError};

fn returns_result() -> Result<String> {
    Ok("success".to_string())
}

#[test]
fn io_error_converts_to_veltrix_error() {
    let io_err = io::Error::new(io::ErrorKind::NotFound, "test error");
    let veltrix_err: VeltrixError = io_err.into();

    assert!(veltrix_err.to_string().contains("test error"));
}

#[test]
fn env_missing_message() {
    let err = VeltrixError::env_missing("HOME");
    assert_eq!(err.to_string(), "missing environment variable `HOME`");
}

#[test]
fn env_invalid_message() {
    let err = VeltrixError::env_invalid("HOME", "must be absolute");
    assert_eq!(
        err.to_string(),
        "invalid environment variable `HOME`: must be absolute"
    );
}

#[test]
fn config_invalid_message() {
    let err = VeltrixError::config_invalid("missing required field");
    assert_eq!(err.to_string(), "invalid config: missing required field");
}

#[test]
fn invalid_path_message() {
    let err = VeltrixError::invalid_path("relative/path", "must be absolute");
    assert!(err.to_string().contains("relative/path"));
    assert!(err.to_string().contains("must be absolute"));
}

#[test]
fn result_type_is_correct() {
    assert!(returns_result().is_ok());
}
