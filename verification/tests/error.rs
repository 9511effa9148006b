use tcp2quic::error::{to_invalid_input_error, ErrorKind, TunnelError};

#[test]
fn invalid_input_keeps_the_text() {
    let e = to_invalid_input_error("bad value");
    assert_eq!(e.kind, ErrorKind::InvalidInput);
    assert_eq!(e.message, "bad value");
    assert_eq!(e.to_string(), "bad value");
}

#[test]
fn invalid_input_displays_any_value() {
    assert_eq!(
        to_invalid_input_error(42),
        TunnelError { kind: ErrorKind::InvalidInput, message: "42".to_string() }
    );
    let outside = quinn::VarInt::from_u64(u64::MAX).unwrap_err();
    let shown = outside.to_string();
    assert_eq!(to_invalid_input_error(outside), TunnelError::new(ErrorKind::InvalidInput, shown));
}

#[test]
fn other_keeps_the_text() {
    assert_eq!(
        TunnelError::other("unknown or invalid key format"),
        TunnelError {
            kind: ErrorKind::Other,
            message: "unknown or invalid key format".to_string()
        }
    );
}

#[test]
fn with_kind_changes_the_category_only() {
    let e = TunnelError::new(ErrorKind::TimedOut, "late".to_string());
    assert_eq!(
        e.with_kind(ErrorKind::ConnectionAborted),
        TunnelError { kind: ErrorKind::ConnectionAborted, message: "late".to_string() }
    );
}
