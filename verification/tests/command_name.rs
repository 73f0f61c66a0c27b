use use_cli::command_name::{
    executable_name_from_file_name, executable_name_from_path, is_valid_command_name, CommandName,
    CommandNameError, ExecutableName,
};

#[test]
fn validates_command_names() {
    assert!(is_valid_command_name("rustuse"));
    assert!(is_valid_command_name("rustuse.exe"));
    assert!(!is_valid_command_name(""));
    assert!(!is_valid_command_name("bin/rustuse"));
    assert_eq!(
        CommandName::new("bin/rustuse"),
        Err(CommandNameError::ContainsSeparator)
    );
}

#[test]
fn stores_command_and_executable_names() -> Result<(), CommandNameError> {
    let command = CommandName::new("rustuse")?;
    let executable = ExecutableName::new("rustuse.exe")?;

    assert_eq!(command.as_str(), "rustuse");
    assert_eq!(executable.display_name(), "rustuse.exe");
    Ok(())
}

#[test]
fn extracts_executable_name_from_path() -> Result<(), CommandNameError> {
    let executable = executable_name_from_path("target/debug/rustuse")?;

    assert_eq!(executable.display_name(), "rustuse");
    Ok(())
}

#[test]
fn reports_each_command_name_error() {
    assert_eq!(CommandName::new(""), Err(CommandNameError::Empty));
    assert_eq!(CommandName::new("a\\b"), Err(CommandNameError::ContainsSeparator));
    assert_eq!(CommandName::new("a\tb"), Err(CommandNameError::InvalidCharacter));
    assert_eq!(CommandName::new("a\u{85}b"), Err(CommandNameError::InvalidCharacter));
    // A separator is reported before a control character.
    assert_eq!(CommandName::new("\u{1}/"), Err(CommandNameError::ContainsSeparator));
    assert!(is_valid_command_name("r\u{fc}stuse"));
}

#[test]
fn path_without_file_name_is_empty_error() {
    assert_eq!(executable_name_from_path("/"), Err(CommandNameError::Empty));
    assert_eq!(executable_name_from_path("a/.."), Err(CommandNameError::Empty));
    assert_eq!(executable_name_from_file_name(None), Err(CommandNameError::Empty));
    assert_eq!(
        executable_name_from_file_name(Some("a\u{7f}")),
        Err(CommandNameError::InvalidCharacter)
    );
    let name = executable_name_from_file_name(Some("tool")).unwrap();
    assert_eq!(name.display_name(), "tool");
    assert_eq!(ExecutableName::from_path("x/y/tool").unwrap().command_name().as_str(), "tool");
    assert_eq!(name.into_command_name().into_string(), "tool".to_string());
}

#[test]
fn portable_paths_use_their_last_normal_component() {
    let cases: [(&str, Result<&str, CommandNameError>); 14] = [
        ("rustuse", Ok("rustuse")),
        ("target/debug/rustuse", Ok("rustuse")),
        ("/usr/bin/", Ok("bin")),
        ("foo.txt/.", Ok("foo.txt")),
        ("foo.txt/.//", Ok("foo.txt")),
        ("a//b", Ok("b")),
        ("./tool", Ok("tool")),
        ("foo.txt/..", Err(CommandNameError::Empty)),
        ("..", Err(CommandNameError::Empty)),
        (".", Err(CommandNameError::Empty)),
        ("/", Err(CommandNameError::Empty)),
        ("", Err(CommandNameError::Empty)),
        ("/.", Err(CommandNameError::Empty)),
        ("bin/a\tb", Err(CommandNameError::InvalidCharacter)),
    ];
    for (path, expected) in cases {
        let got = executable_name_from_path(path).map(|e| e.display_name().to_owned());
        assert_eq!(got, expected.map(str::to_owned), "path {path:?}");
        let std_name = std::path::Path::new(path).file_name().and_then(|n| n.to_str());
        if let Ok(name) = expected {
            assert_eq!(std_name, Some(name), "path {path:?}");
        }
    }
}
