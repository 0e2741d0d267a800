use graduate_cli::error::CliError;
use graduate_cli::jira::{api_url, append_bounded, issue_path, MAX_RESPONSE_BYTES};
use graduate_cli::terminal_text::escape;

#[test]
fn bounded_response_body_rejects_data_before_extending_past_the_limit() {
    let mut body = vec![b'a'; MAX_RESPONSE_BYTES];

    let error = append_bounded(&mut body, b"b").err();

    assert!(matches!(error, Some(CliError::JiraResponse(_))));
    assert_eq!(body.len(), MAX_RESPONSE_BYTES);
}

#[test]
fn bounded_response_body_accepts_data_up_to_the_limit() {
    let mut body = vec![b'a'; MAX_RESPONSE_BYTES - 2];
    assert!(append_bounded(&mut body, b"bc").is_ok());
    assert_eq!(body.len(), MAX_RESPONSE_BYTES);
    assert_eq!(&body[MAX_RESPONSE_BYTES - 2..], b"bc");
}

#[test]
fn controls_and_directional_formatting_become_visible() {
    assert_eq!(escape("first\nsecond\u{202e}hidden"), "first\\nsecond\\u{202e}hidden");
}

#[test]
fn plain_text_is_left_alone_and_tabs_are_escaped() {
    assert_eq!(escape("plain text"), "plain text");
    assert_eq!(escape("a\tb\rc\u{7}"), "a\\tb\\rc\\u{7}");
}

#[test]
fn gitoxide_failures_are_reported_as_git_errors() {
    match graduate_cli::refs::gitoxide_error("reference not found") {
        CliError::Git(message) => assert_eq!(message, "reference not found"),
        _ => panic!("expected a Git error"),
    }
}

#[test]
fn jira_api_addresses_resolve_under_the_rest_api_of_the_site() {
    assert_eq!(
        api_url("example.atlassian.net", "myself").ok().as_deref(),
        Some("https://example.atlassian.net/rest/api/3/myself")
    );
    assert_eq!(issue_path("ABC-12"), "issue/ABC-12");
    assert_eq!(
        api_url("example.atlassian.net", &issue_path("ABC-12")).ok().as_deref(),
        Some("https://example.atlassian.net/rest/api/3/issue/ABC-12")
    );
    match api_url("bad site", "myself") {
        Err(CliError::InvalidInput(message)) => assert!(message.starts_with("invalid Jira site bad site: ")),
        _ => panic!("expected an invalid site"),
    }
}

#[test]
fn escaping_a_concatenation_concatenates_the_escapes() {
    let (a, b) = ("line\n\u{200b}", "\ttab\u{7}");
    assert_eq!(escape(&format!("{a}{b}")), format!("{}{}", escape(a), escape(b)));
}

#[test]
fn dates_depend_on_the_day_and_never_go_back() {
    let unix_date = graduate_cli::refs::unix_date;
    assert_eq!(unix_date(86_399), unix_date(0));
    assert_eq!(unix_date(-1), "1969-12-31");
    assert_eq!(unix_date(-86_400), unix_date(-1));
    let samples = [-62_167_219_200_i64, -86_401, -1, 0, 951_782_399, 951_782_400, 951_868_800, 1_767_312_000, 253_402_300_799];
    for pair in samples.windows(2) {
        assert!(unix_date(pair[0]) <= unix_date(pair[1]));
    }
    assert_eq!(unix_date(951_782_400), "2000-02-29");
    assert_eq!(unix_date(-62_167_219_200), "0000-01-01");
    assert_eq!(unix_date(253_402_300_799), "9999-12-31");
}
