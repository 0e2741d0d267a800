use graduate_cli::invocation::is_restack_invocation;

fn words(arguments: &[&str]) -> Vec<String> {
    arguments.iter().map(|argument| (*argument).to_owned()).collect()
}

#[test]
fn restack_is_found_after_options_and_the_config_value() {
    assert!(is_restack_invocation(&words(&["restack", "--environment", "qa"])));
    assert!(is_restack_invocation(&words(&["--config", "restack.toml", "restack"])));
    assert!(is_restack_invocation(&words(&["--config=x.toml", "--verbose", "restack"])));
}

#[test]
fn other_commands_and_bare_options_are_not_restack() {
    assert!(!is_restack_invocation(&words(&[])));
    assert!(!is_restack_invocation(&words(&["auth", "restack"])));
    assert!(!is_restack_invocation(&words(&["--config", "restack"])));
    assert!(!is_restack_invocation(&words(&["--config"])));
    assert!(!is_restack_invocation(&words(&["--help"])));
}
