use release_rename::{missing_arg_err, Cli, CliParseError};

fn args(list: &[&str]) -> Vec<String> {
    list.iter().map(|s| s.to_string()).collect()
}

fn is_missing_name(r: &Result<Cli, CliParseError>) -> bool {
    matches!(r, Err(CliParseError::MissingRequiredArg { arg }) if arg == "name")
}

fn is_missing_value(r: &Result<Cli, CliParseError>) -> bool {
    matches!(r, Err(CliParseError::MissingArgumentValue { arg, expected }) if arg == "name" && expected == "TEXT")
}

#[test]
fn name_and_build_parse() {
    let cli = Cli::parse(&args(&["tool", "--name", "Foo", "--build"])).unwrap();
    assert_eq!(cli.name, "Foo");
    assert!(cli.build);
}

#[test]
fn build_before_name_parses() {
    let cli = Cli::parse(&args(&["tool", "--build", "--name", "Foo"])).unwrap();
    assert_eq!(cli.name, "Foo");
    assert!(cli.build);
}

#[test]
fn name_alone_leaves_build_off() {
    let cli = Cli::parse(&args(&["tool", "--name", "bar"])).unwrap();
    assert_eq!(cli.name, "bar");
    assert!(!cli.build);
}

#[test]
fn empty_list_lacks_name() {
    assert!(is_missing_name(&Cli::parse(&Vec::new())));
}

#[test]
fn program_name_only_lacks_name() {
    assert!(is_missing_name(&Cli::parse(&args(&["tool"]))));
}

#[test]
fn build_without_name_lacks_name() {
    assert!(is_missing_name(&Cli::parse(&args(&["tool", "--build"]))));
    assert!(is_missing_name(&Cli::parse(&args(&["tool", "stray", "--build", "-v"]))));
}

#[test]
fn empty_name_value_lacks_name() {
    assert!(is_missing_name(&Cli::parse(&args(&["tool", "--name", ""]))));
}

#[test]
fn trailing_name_lacks_value() {
    assert!(is_missing_value(&Cli::parse(&args(&["tool", "--name"]))));
    assert!(is_missing_value(&Cli::parse(&args(&["tool", "--name", "a", "--name"]))));
}

#[test]
fn dashed_name_value_is_missing() {
    let r = Cli::parse(&args(&["tool", "--name", "-x"]));
    assert!(is_missing_value(&r));
    assert!(is_missing_value(&Cli::parse(&args(&["tool", "--name", "--build"]))));
}

#[test]
fn build_given_value_is_refused() {
    let r = Cli::parse(&args(&["tool", "--build", "yes", "--name", "Foo"]));
    assert!(matches!(r, Err(CliParseError::BoolArg { arg }) if arg == "build"));
}

#[test]
fn unknown_tokens_ignored() {
    let cli = Cli::parse(&args(&["tool", "-v", "--name", "Foo", "extra", "--other"])).unwrap();
    assert_eq!(cli.name, "Foo");
    assert!(!cli.build);
}

#[test]
fn last_name_wins() {
    let cli = Cli::parse(&args(&["tool", "--name", "a", "--name", "b"])).unwrap();
    assert_eq!(cli.name, "b");
}

#[test]
fn missing_arg_err_fields() {
    match missing_arg_err("name", "TEXT") {
        CliParseError::MissingArgumentValue { arg, expected } => {
            assert_eq!(arg, "name");
            assert_eq!(expected, "TEXT");
        }
        _ => panic!("wrong variant"),
    }
}
