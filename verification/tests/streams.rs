use use_cli::stderr::StderrDestination;
use use_cli::stdin::StdinSource;
use use_cli::stdout::{apply_newline_behavior, NewlineBehavior, StdoutDestination};

#[test]
fn lib_marker_is_copyable() {
    let destination = StderrDestination::new();
    let copied = destination;
    assert_eq!(destination, copied);

    let source = StdinSource::new();
    let copied = source;
    assert_eq!(source, copied);

    let destination = StdoutDestination::new();
    let copied = destination;
    assert_eq!(destination, copied);
}

#[test]
fn applies_newline_behavior() {
    assert_eq!(
        apply_newline_behavior("ready", NewlineBehavior::Preserve),
        "ready"
    );
    assert_eq!(
        apply_newline_behavior("ready", NewlineBehavior::EnsureTrailingNewline),
        "ready\n"
    );
    assert_eq!(
        apply_newline_behavior("ready\r\n", NewlineBehavior::StripTrailingNewline),
        "ready"
    );
}

#[test]
fn newline_behaviors_on_edges() {
    assert_eq!(apply_newline_behavior("", NewlineBehavior::EnsureTrailingNewline), "\n");
    assert_eq!(apply_newline_behavior("a\n", NewlineBehavior::EnsureTrailingNewline), "a\n");
    assert_eq!(apply_newline_behavior("a\r", NewlineBehavior::EnsureTrailingNewline), "a\r\n");
    assert_eq!(apply_newline_behavior("\n\r\n", NewlineBehavior::StripTrailingNewline), "");
    assert_eq!(apply_newline_behavior("a\nb\n\n", NewlineBehavior::StripTrailingNewline), "a\nb");
    assert_eq!(apply_newline_behavior("\u{e9}\n", NewlineBehavior::Preserve), "\u{e9}\n");
    for s in ["", "x", "x\n", "x\r\n\r"] {
        let once = apply_newline_behavior(s, NewlineBehavior::StripTrailingNewline);
        assert_eq!(apply_newline_behavior(&once, NewlineBehavior::StripTrailingNewline), once);
        let ensured = apply_newline_behavior(s, NewlineBehavior::EnsureTrailingNewline);
        assert!(ensured.ends_with('\n'));
        assert_eq!(apply_newline_behavior(&ensured, NewlineBehavior::EnsureTrailingNewline), ensured);
        assert_eq!(
            apply_newline_behavior(&once, NewlineBehavior::EnsureTrailingNewline),
            format!("{once}\n")
        );
    }
}
