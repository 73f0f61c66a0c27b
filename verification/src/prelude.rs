//! Commonly used CLI primitive types from the focused modules.
pub use crate::arg::{Arg, RawArgs};
pub use crate::command_name::{CommandName, ExecutableName};
pub use crate::env_var::{EnvVarName, EnvVarValue};
pub use crate::exit_code::{config_error, failure, success, usage_error, ExitCode};
pub use crate::flag::{BooleanFlag, Flag, LongFlag, ShortFlag};
pub use crate::option::{CliOption, CliOptionName, OptionValue};
pub use crate::prompt::{PromptText, YesNoAnswer};
pub use crate::stderr::StderrDestination;
pub use crate::stdin::StdinSource;
pub use crate::stdout::{NewlineBehavior, StdoutDestination};
pub use crate::terminal::{ColorSupport, Interactivity, TerminalHeight, TerminalSize, TerminalWidth};
