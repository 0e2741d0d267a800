use graduate_cli::error::{CliError, DetailValue};
use graduate_cli::preflight::RestackAuthor;
use graduate_cli::remote_checks::{check_identity, expected_remote_refs, validate_remote_refs};
use graduate_cli::restack::BranchIdentity;

fn pairs(values: &[(&str, &str)]) -> Vec<(String, String)> {
    values.iter().map(|(a, b)| ((*a).to_owned(), (*b).to_owned())).collect()
}

fn branch(name: &str, tip: &str) -> BranchIdentity {
    BranchIdentity { name: name.to_owned(), tip: tip.to_owned() }
}

fn machine(result: Result<(), CliError>) -> (String, String, Vec<(String, String)>) {
    match result {
        Err(CliError::Machine(error)) => (
            error.code.clone(),
            error.message.clone(),
            error
                .details
                .iter()
                .map(|(key, value)| match value {
                    DetailValue::Text(text) => (key.clone(), text.clone()),
                    _ => (key.clone(), String::new()),
                })
                .collect(),
        ),
        _ => panic!("expected a machine error"),
    }
}

#[test]
fn expected_refs_are_keyed_by_ref_in_ref_order() {
    let expected = expected_remote_refs(
        "qa",
        "env-tip",
        "main",
        "main-tip",
        &vec![branch("feature/b", "b"), branch("feature/a", "a")],
    );
    assert_eq!(
        expected,
        pairs(&[
            ("refs/heads/feature/a", "a"),
            ("refs/heads/feature/b", "b"),
            ("refs/heads/main", "main-tip"),
            ("refs/heads/qa", "env-tip"),
        ])
    );
}

#[test]
fn a_ref_recorded_twice_keeps_its_last_tip() {
    let expected = expected_remote_refs("qa", "env-tip", "main", "main-tip", &vec![branch("qa", "later")]);
    assert_eq!(expected, pairs(&[("refs/heads/main", "main-tip"), ("refs/heads/qa", "later")]));
}

#[test]
fn unchanged_refs_pass_and_the_first_stale_ref_is_named() {
    let expected = pairs(&[("refs/heads/a", "1"), ("refs/heads/b", "2"), ("refs/heads/c", "3")]);
    assert!(validate_remote_refs(Some(pairs(&[("refs/heads/c", "3"), ("refs/heads/a", "1"), ("refs/heads/b", "2"), ("refs/heads/x", "9")])), &expected, "fetch").is_ok());
    assert_eq!(
        machine(validate_remote_refs(Some(pairs(&[("refs/heads/a", "1"), ("refs/heads/b", "7")])), &expected, "push")),
        (
            "stale_plan".to_owned(),
            "a reviewed remote input moved before publication".to_owned(),
            pairs(&[("endpoint", "push"), ("reason", "movedRef"), ("ref", "refs/heads/b")]),
        )
    );
    assert_eq!(
        machine(validate_remote_refs(Some(pairs(&[("refs/heads/b", "2")])), &expected, "fetch")),
        (
            "stale_plan".to_owned(),
            "a reviewed remote input was deleted before publication".to_owned(),
            pairs(&[("endpoint", "fetch"), ("reason", "deletedRef"), ("ref", "refs/heads/a")]),
        )
    );
    assert_eq!(
        machine(validate_remote_refs(None, &expected, "fetch")),
        (
            "remote_revalidation_failed".to_owned(),
            "could not re-read the remote refs before publication".to_owned(),
            pairs(&[("endpoint", "fetch")]),
        )
    );
}

#[test]
fn publication_needs_the_reviewed_identity() {
    let pat = RestackAuthor { name: "Pat".to_owned(), email: "pat@example.com".to_owned() };
    assert!(check_identity(&pat, &pat.clone()).is_ok());
    let other = RestackAuthor { name: "Pat".to_owned(), email: "pat@other.example".to_owned() };
    assert_eq!(
        machine(check_identity(&other, &pat)),
        (
            "stale_plan".to_owned(),
            "the configured Git identity changed before publication".to_owned(),
            pairs(&[("reason", "identity")]),
        )
    );
}
