use use_cli::env_var::{
    is_valid_env_var_name, read_optional_env_var, EnvVarName, EnvVarNameError, EnvVarReadError,
    EnvVarValue, TypedEnvVar, TypedEnvVarError,
};

#[test]
fn validates_env_var_names() {
    assert!(is_valid_env_var_name("RUST_LOG"));
    assert!(is_valid_env_var_name("_RUSTUSE"));
    assert_eq!(EnvVarName::new(""), Err(EnvVarNameError::Empty));
    assert_eq!(
        EnvVarName::new("1RUST"),
        Err(EnvVarNameError::StartsWithDigit)
    );
    assert_eq!(
        EnvVarName::new("RUST-LOG"),
        Err(EnvVarNameError::InvalidCharacter)
    );
}

#[test]
fn stores_owned_values_and_typed_names() -> Result<(), EnvVarNameError> {
    let name = EnvVarName::new("RUSTUSE_EXAMPLE")?;
    let typed = TypedEnvVar::<u16>::new(name.clone());
    let value = EnvVarValue::new("42");

    assert_eq!(typed.name(), &name);
    assert_eq!(value.as_str(), "42");
    Ok(())
}

#[test]
fn optional_read_reports_missing_as_none() -> Result<(), EnvVarNameError> {
    let name = EnvVarName::new("RUSTUSE_USE_CLI_TEST_SHOULD_NOT_EXIST_9B6AE5E0")?;
    // The environment holds no such variable, so reading it reports it missing.
    let read = Err(EnvVarReadError::NotPresent { name: name.as_str().to_owned() });

    assert_eq!(read_optional_env_var(read), Ok(None));
    Ok(())
}

#[test]
fn optional_read_passes_on_values_and_unicode_errors() {
    let value = EnvVarValue::from("debug");
    assert_eq!(read_optional_env_var(Ok(value.clone())), Ok(Some(value)));
    let error = EnvVarReadError::NotUnicode { name: "X".to_owned() };
    assert_eq!(read_optional_env_var(Err(error.clone())), Err(error));
}

#[test]
fn typed_read_parses_or_reports() {
    let typed = TypedEnvVar::<u16>::new(EnvVarName::new("PORT").unwrap());
    let parsed = typed.read_with(Ok(EnvVarValue::new("8080")), |s: &str| s.parse::<u16>());
    assert_eq!(parsed, Ok(8080));
    let bad = typed.read_with(Ok(EnvVarValue::new("http")), |s: &str| s.parse::<u16>());
    assert!(matches!(bad, Err(TypedEnvVarError::Parse(_))));
    let missing = EnvVarReadError::NotPresent { name: "PORT".to_owned() };
    let mut called = false;
    let r = typed.read_with(Err(missing.clone()), |s: &str| {
        called = true;
        s.parse::<u16>()
    });
    assert_eq!(r, Err(TypedEnvVarError::Read(missing)));
    assert!(!called);
}

#[test]
fn env_var_name_rules() {
    assert_eq!(EnvVarName::new("9"), Err(EnvVarNameError::StartsWithDigit));
    assert_eq!(EnvVarName::new("\u{e9}T"), Err(EnvVarNameError::InvalidCharacter));
    assert!(is_valid_env_var_name("A1_b"));
    assert_eq!(EnvVarName::new("A1_b").unwrap().as_str(), "A1_b");
    assert_eq!(EnvVarValue::from(String::from("v")).into_string(), "v".to_string());
}
