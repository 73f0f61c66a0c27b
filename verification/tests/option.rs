use use_cli::flag::is_valid_long_flag_name;
use use_cli::option::{
    is_valid_option_name, split_equals_token, CliOption, CliOptionError, CliOptionName,
    OptionNameError, OptionValue,
};

#[test]
fn validates_option_names() {
    assert!(is_valid_option_name("color"));
    assert!(is_valid_option_name("dry-run"));
    assert!(!is_valid_option_name(""));
    assert!(!is_valid_option_name("dry_run"));
    assert!(!is_valid_option_name("dry-"));
}

#[test]
fn builds_options_from_pair_and_equals_token() -> Result<(), CliOptionError> {
    let pair = CliOption::from_name_value("format", "json")?;
    let equals = CliOption::from_equals_token("--color=auto")?;

    assert_eq!(pair.to_equals_token(), "--format=json");
    assert_eq!(equals.name().as_str(), "color");
    assert_eq!(equals.value().as_str(), "auto");
    Ok(())
}

#[test]
fn rejects_invalid_option_tokens() {
    assert_eq!(
        CliOption::from_equals_token("color=auto"),
        Err(CliOptionError::MissingLongPrefix)
    );
    assert_eq!(
        CliOption::from_equals_token("--color"),
        Err(CliOptionError::MissingEquals)
    );
    assert_eq!(
        CliOption::from_equals_token("--dry_=true"),
        Err(CliOptionError::InvalidName(
            OptionNameError::InvalidCharacter
        ))
    );
}

#[test]
fn splits_at_the_first_equals_sign() {
    let o = split_equals_token("--define=a=b").unwrap();
    assert_eq!(o.name().as_str(), "define");
    assert_eq!(o.value().as_str(), "a=b");
    let empty = split_equals_token("--x=").unwrap();
    assert_eq!(empty.value().as_str(), "");
    assert_eq!(
        split_equals_token("--=v"),
        Err(CliOptionError::InvalidName(OptionNameError::Empty))
    );
    assert_eq!(
        split_equals_token("---x=v"),
        Err(CliOptionError::InvalidName(OptionNameError::EdgeHyphen))
    );
    assert_eq!(split_equals_token("-x=v"), Err(CliOptionError::MissingLongPrefix));
}

#[test]
fn equals_token_round_trips() {
    for (name, value) in [("color", "auto"), ("a-b", "x=y"), ("n", ""), ("k", "--z=w")] {
        let o = CliOption::from_name_value(name, value).unwrap();
        let token = o.to_equals_token();
        assert_eq!(token, format!("--{name}={value}"));
        assert_eq!(split_equals_token(&token), Ok(o));
    }
}

#[test]
fn option_parts_and_errors() {
    assert_eq!(CliOptionName::new("-x"), Err(OptionNameError::EdgeHyphen));
    assert_eq!(CliOptionName::new("a.b"), Err(OptionNameError::InvalidCharacter));
    assert_eq!(
        CliOption::from_name_value("", "v"),
        Err(CliOptionError::InvalidName(OptionNameError::Empty))
    );
    assert_eq!(
        CliOptionError::from(OptionNameError::EdgeHyphen),
        CliOptionError::InvalidName(OptionNameError::EdgeHyphen)
    );
    let o = CliOption::new(CliOptionName::new("k").unwrap(), OptionValue::from("v"));
    assert_eq!(o.to_equals_token(), "--k=v");
    assert_eq!(OptionValue::new("v").into_string(), "v".to_string());
    assert_eq!(OptionValue::from(String::from("w")).as_str(), "w");
}

#[test]
fn option_names_follow_long_flag_rules() {
    for name in ["color", "dry-run", "", "-x", "x-", "a_b", "a--b", "\u{e9}"] {
        assert_eq!(is_valid_option_name(name), is_valid_long_flag_name(name), "name {name:?}");
    }
    assert_eq!(CliOptionName::new("k-1").unwrap().as_ref(), "k-1");
}
