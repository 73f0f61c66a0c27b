use use_cli::prompt::{
    is_no, is_yes, parse_confirmation, ConfirmationParseError, PromptText, PromptTextError,
    YesNoAnswer,
};

#[test]
fn validates_prompt_text() -> Result<(), PromptTextError> {
    let prompt = PromptText::new("Continue?")?;

    assert_eq!(prompt.as_str(), "Continue?");
    assert_eq!(PromptText::new("  "), Err(PromptTextError::Empty));
    Ok(())
}

#[test]
fn parses_confirmation_answers() -> Result<(), ConfirmationParseError> {
    assert_eq!(parse_confirmation("yes")?, YesNoAnswer::Yes);
    assert_eq!(parse_confirmation(" N ")?, YesNoAnswer::No);
    assert!(is_yes("y"));
    assert!(is_no("no"));
    assert_eq!(
        parse_confirmation("maybe"),
        Err(ConfirmationParseError::Unrecognized)
    );
    Ok(())
}

#[test]
fn confirmation_ignores_case_and_surrounding_whitespace() {
    assert_eq!(parse_confirmation("\tYeS\n"), Ok(YesNoAnswer::Yes));
    assert_eq!(parse_confirmation("\u{3000}nO\u{a0}"), Ok(YesNoAnswer::No));
    assert_eq!(parse_confirmation(" \r\n "), Err(ConfirmationParseError::Empty));
    assert_eq!(parse_confirmation(""), Err(ConfirmationParseError::Empty));
    assert_eq!(parse_confirmation("y es"), Err(ConfirmationParseError::Unrecognized));
    for input in ["y", "no", "maybe", "", " YES "] {
        assert!(!(is_yes(input) && is_no(input)));
    }
}

#[test]
fn prompt_text_and_answers() {
    assert_eq!(PromptText::new(""), Err(PromptTextError::Empty));
    assert_eq!(PromptText::new("\u{2028}"), Err(PromptTextError::Empty));
    assert_eq!(PromptText::new(" Go ").unwrap().into_string(), " Go ".to_string());
    assert!(YesNoAnswer::Yes.is_yes());
    assert!(!YesNoAnswer::Yes.is_no());
    assert!(YesNoAnswer::No.is_no());
}
