use use_cli::exit_code::{
    config_error, failure, permission_denied, success, unavailable, usage_error, ExitCode,
    ExitCodeError,
};

#[test]
fn exposes_common_exit_codes() {
    assert!(success().is_success());
    assert!(!failure().is_success());
    assert_eq!(usage_error().as_i32(), 64);
    assert_eq!(config_error().as_u8(), 78);
}

#[test]
fn converts_between_integer_forms() -> Result<(), ExitCodeError> {
    let code = ExitCode::try_from_i32(77)?;

    assert_eq!(code.as_u8(), 77);
    assert_eq!(i32::from(code), 77);
    assert_eq!(u8::from(code), 77);
    assert_eq!(
        ExitCode::try_from_i32(256),
        Err(ExitCodeError::OutOfRange(256))
    );
    Ok(())
}

#[test]
fn exit_code_round_trips_and_bounds() {
    for b in [0u8, 1, 69, 255] {
        let c = ExitCode::from_u8(b);
        assert_eq!(ExitCode::try_from_i32(c.as_i32()), Ok(c));
        assert_eq!(c.is_success(), b == 0);
    }
    assert_eq!(ExitCode::try_from_i32(-1), Err(ExitCodeError::OutOfRange(-1)));
    assert_eq!(ExitCode::try_from(255), Ok(ExitCode::from_u8(255)));
    assert_eq!(unavailable().as_u8(), 69);
    assert_eq!(permission_denied().as_u8(), 77);
    assert_eq!(ExitCode::default(), success());
}
