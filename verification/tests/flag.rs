use use_cli::flag::{
    is_valid_long_flag_name, is_valid_short_flag, BooleanFlag, Flag, FlagNameError, LongFlag,
    ShortFlag,
};

#[test]
fn validates_short_and_long_names() {
    assert!(is_valid_short_flag('v'));
    assert!(!is_valid_short_flag('-'));
    assert!(is_valid_long_flag_name("dry-run"));
    assert!(!is_valid_long_flag_name("-dry"));
    assert!(!is_valid_long_flag_name("dry_"));
}

#[test]
fn creates_flag_tokens() -> Result<(), FlagNameError> {
    assert_eq!(ShortFlag::new('v')?.to_token(), "-v");
    assert_eq!(LongFlag::new("verbose")?.to_token(), "--verbose");
    assert_eq!(Flag::try_from_token("--dry-run")?.to_token(), "--dry-run");
    assert_eq!(Flag::try_from_token("-q")?.to_token(), "-q");
    assert_eq!(
        Flag::try_from_token("---"),
        Err(FlagNameError::InvalidLongFlagName)
    );
    Ok(())
}

#[test]
fn stores_boolean_flag_state() -> Result<(), FlagNameError> {
    let flag = BooleanFlag::enabled(Flag::try_from_token("--verbose")?);

    assert!(flag.is_enabled());
    assert_eq!(flag.flag().to_token(), "--verbose");
    Ok(())
}

#[test]
fn reports_each_flag_error() {
    assert_eq!(Flag::try_from_token("--"), Err(FlagNameError::Empty));
    assert_eq!(Flag::try_from_token("-"), Err(FlagNameError::InvalidToken));
    assert_eq!(Flag::try_from_token("-vq"), Err(FlagNameError::InvalidToken));
    assert_eq!(Flag::try_from_token("v"), Err(FlagNameError::InvalidToken));
    assert_eq!(Flag::try_from_token("-_"), Err(FlagNameError::InvalidShortFlag));
    assert_eq!(Flag::try_from_token("--a_b"), Err(FlagNameError::InvalidLongFlagName));
    assert_eq!(LongFlag::new(""), Err(FlagNameError::Empty));
    assert_eq!(ShortFlag::new('\u{e9}'), Err(FlagNameError::InvalidShortFlag));
}

#[test]
fn tokens_round_trip() {
    for token in ["-v", "-7", "--x", "--dry-run", "--a-b-c"] {
        let flag = Flag::try_from_token(token).unwrap();
        assert_eq!(flag.to_token(), token);
        assert_eq!(Flag::try_from_token(&flag.to_token()), Ok(flag));
    }
    let short = ShortFlag::new('q').unwrap();
    assert_eq!(short.name(), 'q');
    assert_eq!(Flag::try_from_token(&short.to_token()), Ok(Flag::Short(short)));
    let long = LongFlag::new("quiet").unwrap();
    assert_eq!(long.as_str(), "quiet");
    assert_eq!(Flag::try_from_token(&long.to_token()), Ok(Flag::Long(long)));
}

#[test]
fn boolean_flag_constructors() {
    let f = Flag::try_from_token("-v").unwrap();
    assert!(!BooleanFlag::disabled(f.clone()).is_enabled());
    assert!(BooleanFlag::new(f.clone(), true).is_enabled());
    assert_eq!(BooleanFlag::disabled(f.clone()).flag(), &f);
}
