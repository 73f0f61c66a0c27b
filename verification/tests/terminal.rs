use use_cli::terminal::{
    ColorSupport, Interactivity, TerminalDimensionError, TerminalHeight, TerminalSize,
    TerminalWidth,
};

#[test]
fn validates_terminal_dimensions() -> Result<(), TerminalDimensionError> {
    let size = TerminalSize::try_new(80, 24)?;

    assert_eq!(size.width().columns(), 80);
    assert_eq!(size.height().rows(), 24);
    assert_eq!(
        TerminalWidth::new(0),
        Err(TerminalDimensionError::ZeroWidth)
    );
    assert_eq!(
        TerminalHeight::new(0),
        Err(TerminalDimensionError::ZeroHeight)
    );
    Ok(())
}

#[test]
fn infers_color_support_from_env_values() {
    assert_eq!(
        ColorSupport::from_env_values(Some("1"), Some("xterm-256color"), Some("truecolor")),
        ColorSupport::NoColor
    );
    assert_eq!(
        ColorSupport::from_env_values(None, Some("xterm-256color"), None),
        ColorSupport::Ansi256
    );
    assert_eq!(
        ColorSupport::from_env_values(None, Some("xterm"), Some("truecolor")),
        ColorSupport::TrueColor
    );
    assert_eq!(
        ColorSupport::from_env_values(None, Some("dumb"), None),
        ColorSupport::NoColor
    );
}

#[test]
fn converts_interactivity_from_bool() {
    assert!(Interactivity::from_bool(true).is_interactive());
    assert!(!Interactivity::from_bool(false).is_interactive());
}

#[test]
fn color_support_edges() {
    assert_eq!(ColorSupport::from_env_values(Some(""), None, None), ColorSupport::NoColor);
    assert_eq!(ColorSupport::from_env_values(None, None, Some("24BIT")), ColorSupport::TrueColor);
    assert_eq!(ColorSupport::from_env_values(None, Some("DUMB"), None), ColorSupport::NoColor);
    assert_eq!(ColorSupport::from_env_values(None, Some(""), None), ColorSupport::NoColor);
    assert_eq!(ColorSupport::from_env_values(None, None, None), ColorSupport::NoColor);
    assert_eq!(ColorSupport::from_env_values(None, Some("xterm"), Some("yes")), ColorSupport::Basic);
    assert_eq!(
        ColorSupport::from_env_values(None, Some("screen-256COLOR"), None),
        ColorSupport::Basic
    );
    assert_eq!(
        ColorSupport::from_env_values(None, Some("256color"), None),
        ColorSupport::Ansi256
    );
}

#[test]
fn terminal_size_errors_and_parts() {
    assert_eq!(TerminalSize::try_new(0, 0), Err(TerminalDimensionError::ZeroWidth));
    assert_eq!(TerminalSize::try_new(1, 0), Err(TerminalDimensionError::ZeroHeight));
    let size = TerminalSize::new(TerminalWidth::new(3).unwrap(), TerminalHeight::new(4).unwrap());
    assert_eq!(size.width().columns(), 3);
    assert_eq!(size.height().rows(), 4);
    assert!(!Interactivity::NonInteractive.is_interactive());
}
