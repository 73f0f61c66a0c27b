use use_cli::command_name::CommandNameError;
use use_cli::env_var::{EnvVarNameError, EnvVarReadError};
use use_cli::exit_code::{config_error, ExitCode, ExitCodeError};
use use_cli::flag::FlagNameError;
use use_cli::option::{CliOptionError, OptionNameError};
use use_cli::prompt::{ConfirmationParseError, PromptTextError};
use use_cli::terminal::TerminalDimensionError;

#[test]
fn error_messages_match_their_variants() {
    assert_eq!(CommandNameError::Empty.to_string(), "command name cannot be empty");
    assert_eq!(
        CommandNameError::ContainsSeparator.to_string(),
        "command name cannot contain path separators"
    );
    assert_eq!(
        EnvVarNameError::StartsWithDigit.to_string(),
        "environment variable name cannot start with a digit"
    );
    assert_eq!(
        EnvVarReadError::NotPresent { name: "HOME".to_owned() }.to_string(),
        "environment variable HOME is not set"
    );
    assert_eq!(
        EnvVarReadError::NotUnicode { name: "X".to_owned() }.to_string(),
        "environment variable X is not valid Unicode"
    );
    assert_eq!(FlagNameError::InvalidToken.to_string(), "flag token must look like -x or --name");
    assert_eq!(
        CliOptionError::InvalidName(OptionNameError::EdgeHyphen).to_string(),
        "option name cannot start or end with '-'"
    );
    assert_eq!(CliOptionError::MissingEquals.to_string(), "option token must contain '='");
    assert_eq!(PromptTextError::Empty.to_string(), "prompt text cannot be empty");
    assert_eq!(
        ConfirmationParseError::Unrecognized.to_string(),
        "confirmation answer must be yes or no"
    );
    assert_eq!(
        TerminalDimensionError::ZeroHeight.to_string(),
        "terminal height must be greater than zero"
    );
}

#[test]
fn exit_codes_print_in_decimal() {
    assert_eq!(config_error().to_string(), "78");
    assert_eq!(ExitCode::from_u8(0).to_string(), "0");
    assert_eq!(ExitCode::from_u8(255).to_string(), "255");
    assert_eq!(
        ExitCodeError::OutOfRange(256).to_string(),
        "exit code 256 is outside 0..=255"
    );
    assert_eq!(
        ExitCodeError::OutOfRange(-1).to_string(),
        "exit code -1 is outside 0..=255"
    );
    assert_eq!(
        ExitCodeError::OutOfRange(i32::MIN).to_string(),
        format!("exit code {} is outside 0..=255", i32::MIN)
    );
}
