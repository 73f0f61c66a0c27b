use use_cli::{arg, command_name, exit_code, flag, option, terminal};

#[test]
fn facade_exposes_cli_primitives() -> Result<(), Box<dyn std::error::Error>> {
    let command = command_name::CommandName::new("rustuse").map_err(|e| format!("{e:?}"))?;
    let verbose = flag::BooleanFlag::enabled(
        flag::Flag::try_from_token("--verbose").map_err(|e| format!("{e:?}"))?,
    );
    let output =
        option::CliOption::from_name_value("format", "json").map_err(|e| format!("{e:?}"))?;
    let input = arg::Arg::from("README.md");
    let size = terminal::TerminalSize::try_new(80, 24).map_err(|e| format!("{e:?}"))?;

    assert_eq!(command.as_str(), "rustuse");
    assert!(verbose.is_enabled());
    assert_eq!(output.to_equals_token(), "--format=json");
    assert!(input.is_positional());
    assert_eq!(exit_code::success().as_i32(), 0);
    assert_eq!(size.width().columns(), 80);
    Ok(())
}
