//! Composable command-line-adjacent primitives with verified contracts.
//!
//! Each module holds one small primitive vocabulary: argument tokens, flags,
//! key/value options, environment variable names, exit codes, prompt answers,
//! command names, stream markers, and terminal capabilities. None of them is a
//! parser or a framework; the I/O around them (reading the environment, the
//! standard streams, terminal detection) is left to the caller.
pub mod arg;
pub mod command_name;
pub mod env_var;
pub mod exit_code;
pub mod flag;
pub mod option;
pub mod prelude;
pub mod prompt;
pub mod stderr;
pub mod stdin;
pub mod stdout;
pub mod terminal;
pub mod text;
