use graduate_cli::config::{
    check_version, Config, ConnectionConfig, JiraConnection, LegacyConfig, LoginDefaults,
};
use graduate_cli::error::CliError;

fn some(value: &str) -> Option<String> {
    Some(value.to_owned())
}

#[test]
fn a_new_configuration_has_no_jira_defaults() {
    let config = Config::default();
    assert_eq!(config.version, 1);
    assert_eq!(config.jira_login_defaults(), LoginDefaults::default());
    assert_eq!(config.jira_credential_fields(), None);
}

#[test]
fn legacy_fields_become_the_default_jira_connection() {
    let legacy = LegacyConfig {
        account_id: some("acct"),
        display_name: some("Pat"),
        atlassian_user_email: some("pat@example.com"),
        atlassian_token: some("secret"),
        hostname: some("example.atlassian.net"),
    };
    let config = Config::from_legacy(legacy);
    assert_eq!(config.version, 1);
    assert_eq!(config.default_connection.as_deref(), Some("jira"));
    assert_eq!(config.connections.len(), 1);
    assert_eq!(
        config.connections[0],
        (
            "jira".to_owned(),
            ConnectionConfig::Jira(JiraConnection {
                site: some("example.atlassian.net"),
                email: some("pat@example.com"),
                token: some("secret"),
                account_id: some("acct"),
                display_name: some("Pat"),
            })
        )
    );
    assert_eq!(
        config.jira_credential_fields(),
        Some(("example.atlassian.net".to_owned(), "pat@example.com".to_owned(), "secret".to_owned()))
    );
    let empty = Config::from_legacy(LegacyConfig::default());
    assert!(empty.default_connection.is_none());
    assert!(empty.connections.is_empty());
}

#[test]
fn partial_legacy_fields_give_defaults_but_no_credentials() {
    let config = Config::from_legacy(LegacyConfig { hostname: some("example.atlassian.net"), ..LegacyConfig::default() });
    assert_eq!(
        config.jira_login_defaults(),
        LoginDefaults { hostname: some("example.atlassian.net"), atlassian_user_email: None, atlassian_token: None }
    );
    assert_eq!(config.jira_credential_fields(), None);
}

#[test]
fn saving_a_connection_replaces_the_stored_jira_fields() {
    let mut config = Config::from_legacy(LegacyConfig { hostname: some("old.atlassian.net"), ..LegacyConfig::default() });
    config.set_jira_connection(
        "new.atlassian.net".to_owned(),
        "pat@example.com".to_owned(),
        "token".to_owned(),
        "acct".to_owned(),
        "Pat".to_owned(),
    );
    assert_eq!(config.connections.len(), 1);
    assert_eq!(config.default_connection.as_deref(), Some("jira"));
    assert_eq!(
        config.jira_login_defaults(),
        LoginDefaults {
            hostname: some("new.atlassian.net"),
            atlassian_user_email: some("pat@example.com"),
            atlassian_token: some("token"),
        }
    );
}

#[test]
fn only_configuration_version_one_is_accepted() {
    assert!(check_version(Config::default(), "/home/pat/.config/graduate/config.json").is_ok());
    let future = Config { version: 2, ..Config::default() };
    match check_version(future, "/home/pat/.config/graduate/config.json") {
        Err(CliError::Config(message)) => assert_eq!(
            message,
            "unsupported configuration version 2 in /home/pat/.config/graduate/config.json; expected 1"
        ),
        _ => panic!("expected a configuration error"),
    }
}

fn jira(site: &str) -> ConnectionConfig {
    ConnectionConfig::Jira(JiraConnection {
        site: some(site),
        email: None,
        token: None,
        account_id: None,
        display_name: None,
    })
}

#[test]
fn a_new_jira_connection_takes_its_place_in_name_order() {
    let mut config = Config {
        connections: vec![("alpha".to_owned(), jira("a.atlassian.net")), ("zeta".to_owned(), jira("z.atlassian.net"))],
        ..Config::default()
    };
    assert!(config.names_ascending());
    config.set_jira_connection(
        "new.atlassian.net".to_owned(),
        "pat@example.com".to_owned(),
        "token".to_owned(),
        "acct".to_owned(),
        "Pat".to_owned(),
    );
    let names: Vec<&str> = config.connections.iter().map(|(name, _)| name.as_str()).collect();
    assert_eq!(names, vec!["alpha", "jira", "zeta"]);
    assert!(config.names_ascending());
    assert_eq!(config.connections[0].1, jira("a.atlassian.net"));
    assert_eq!(config.jira_login_defaults().hostname.as_deref(), Some("new.atlassian.net"));
    let unsorted = Config {
        connections: vec![("zeta".to_owned(), jira("z")), ("alpha".to_owned(), jira("a"))],
        ..Config::default()
    };
    assert!(!unsorted.names_ascending());
    let repeated = Config {
        connections: vec![("jira".to_owned(), jira("a")), ("jira".to_owned(), jira("b"))],
        ..Config::default()
    };
    assert!(!repeated.names_ascending());
}
