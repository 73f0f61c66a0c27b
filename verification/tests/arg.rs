use use_cli::arg::{is_flag_like, is_option_separator, is_positional, Arg, RawArgs};

#[test]
fn classifies_argument_tokens() {
    assert!(is_positional("file.txt"));
    assert!(is_positional("-"));
    assert!(is_option_separator("--"));
    assert!(is_flag_like("-v"));
    assert!(is_flag_like("--verbose"));
    assert!(!is_flag_like("--"));
}

#[test]
fn stores_owned_arguments() {
    let mut args = RawArgs::empty();
    args.push(Arg::from("tool"));
    args.push(Arg::from("README.md"));

    let tokens: Vec<_> = args.iter().map(Arg::as_str).collect();

    assert_eq!(args.len(), 2);
    assert_eq!(tokens, vec!["tool", "README.md"]);
    assert!(args.into_vec()[1].is_positional());
}

#[test]
fn every_token_has_exactly_one_class() {
    for token in ["", "-", "--", "---", "-v", "--x=1", "file", "a-b", "-\u{e9}"] {
        let classes = [is_option_separator(token), is_flag_like(token), is_positional(token)];
        assert_eq!(classes.iter().filter(|c| **c).count(), 1, "token {token:?}");
    }
}

#[test]
fn arg_methods_agree_with_token_functions() {
    for token in ["--", "-v", "file.txt", "-"] {
        let arg = Arg::new(token);
        assert_eq!(arg.is_option_separator(), is_option_separator(token));
        assert_eq!(arg.is_flag_like(), is_flag_like(token));
        assert_eq!(arg.is_positional(), is_positional(token));
        assert_eq!(arg.as_str(), token);
        assert_eq!(arg.into_string(), token.to_string());
    }
    assert_eq!(Arg::from(String::from("x")).as_str(), "x");
}

#[test]
fn raw_args_keeps_order_and_length() {
    let args = RawArgs::new(vec![Arg::new("a"), Arg::new("--"), Arg::new("b")]);
    assert_eq!(args.len(), 3);
    assert!(!args.is_empty());
    assert!(RawArgs::empty().is_empty());
    let v = args.into_vec();
    assert_eq!(v[0].as_str(), "a");
    assert!(v[1].is_option_separator());
    assert_eq!(v[2].as_str(), "b");
}

#[test]
fn raw_args_iterate_in_order() {
    let args = RawArgs::new(vec![Arg::new("x"), Arg::new("-y")]);
    let borrowed: Vec<&str> = (&args).into_iter().map(|a| a.as_ref()).collect();
    assert_eq!(borrowed, vec!["x", "-y"]);
    let owned: Vec<String> = args.into_iter().map(Arg::into_string).collect();
    assert_eq!(owned, vec!["x".to_string(), "-y".to_string()]);
}

#[test]
fn raw_args_from_strings_and_clones() {
    let args = RawArgs::from_strings(vec!["tool".to_string(), "README.md".to_string()]);
    let copy = args.clone();
    assert_eq!(copy, args);
    assert_eq!(args.len(), 2);
    let v = args.into_vec();
    assert_eq!(v[0].as_str(), "tool");
    assert!(v[1].is_positional());
    assert_eq!(Arg::new("x").clone().as_str(), "x");
}
