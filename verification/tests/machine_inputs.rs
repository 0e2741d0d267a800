use graduate_cli::error::{CliError, DetailValue, MachineError, MachineKind};
use graduate_cli::restack::{
    parse_params, session_error, validate_apply_params, validate_inputs, MachineParams,
    ParamsInput, RestackArgs,
};
use graduate_cli::session::SessionError;

fn args() -> RestackArgs {
    RestackArgs {
        environment: "qa".to_owned(),
        main: None,
        remote: None,
        params: Some("{}".to_owned()),
        dry_run: false,
        apply: false,
        resume: None,
        abort: false,
    }
}

fn machine(result: Result<impl Sized, CliError>) -> MachineError {
    match result {
        Err(CliError::Machine(error)) => error,
        _ => panic!("expected a machine error"),
    }
}

fn text_detail(error: &MachineError, index: usize) -> (String, String) {
    match &error.details[index] {
        (name, DetailValue::Text(value)) => (name.clone(), value.clone()),
        _ => panic!("expected a text detail"),
    }
}

#[test]
fn abort_without_resume_is_a_usage_error() {
    let error = machine(validate_inputs(&RestackArgs { abort: true, ..args() }));
    assert_eq!(error.kind, MachineKind::Usage);
    assert_eq!(error.code, "invalid_usage");
    assert_eq!(error.message, "--abort requires --resume");
    assert!(error.details.is_empty());
    assert!(validate_inputs(&RestackArgs { abort: true, resume: Some("v1.x".to_owned()), ..args() }).is_ok());
}

#[test]
fn invalid_ref_names_are_reported_by_field_in_order() {
    assert!(validate_inputs(&args()).is_ok());
    let bad_environment = machine(validate_inputs(&RestackArgs {
        environment: "bad..name".to_owned(),
        remote: Some("bad remote".to_owned()),
        ..args()
    }));
    assert_eq!(bad_environment.code, "invalid_ref");
    assert_eq!(text_detail(&bad_environment, 0), ("field".to_owned(), "environment".to_owned()));
    let bad_remote = machine(validate_inputs(&RestackArgs { remote: Some("bad remote".to_owned()), ..args() }));
    assert_eq!(text_detail(&bad_remote, 0), ("field".to_owned(), "remote".to_owned()));
    let bad_main = machine(validate_inputs(&RestackArgs { main: Some("-main".to_owned()), ..args() }));
    assert_eq!(text_detail(&bad_main, 0), ("field".to_owned(), "main".to_owned()));
}

#[test]
fn params_are_required_except_for_dry_runs() {
    let empty = parse_params(ParamsInput::Absent, true).ok().map(|params| params.remove_branches.len());
    assert_eq!(empty, Some(0));
    let required = machine(parse_params(ParamsInput::Absent, false));
    assert_eq!(required.code, "params_required");
    assert_eq!(required.message, "a machine restack preview requires --params");
    let malformed = machine(parse_params(ParamsInput::Malformed, false));
    assert_eq!(malformed.code, "invalid_params");
    assert_eq!(malformed.message, "--params must match the schema-v3 restack machine parameters");
}

#[test]
fn the_first_invalid_removed_branch_is_reported_by_index() {
    let params = MachineParams {
        remove_branches: vec!["feature/a".to_owned(), "bad..b".to_owned(), "bad..c".to_owned()],
        plan_digest: None,
    };
    let error = machine(parse_params(ParamsInput::Parsed(params), false));
    assert_eq!(error.code, "invalid_params");
    assert_eq!(error.message, "removeBranches contains an invalid Git branch name");
    assert!(matches!(&error.details[0], (name, DetailValue::Number(1)) if name == "index"));
    let valid = MachineParams { remove_branches: vec!["feature/a".to_owned()], plan_digest: None };
    let parsed = parse_params(ParamsInput::Parsed(valid), false).ok().map(|params| params.remove_branches);
    assert_eq!(parsed, Some(vec!["feature/a".to_owned()]));
}

#[test]
fn plan_digests_go_only_with_apply_and_must_be_lowercase_sha256() {
    let digest = "a".repeat(64);
    let with_digest = MachineParams { remove_branches: Vec::new(), plan_digest: Some(digest.clone()) };
    let without = MachineParams { remove_branches: Vec::new(), plan_digest: None };
    assert!(validate_apply_params(false, &without).is_ok());
    assert!(validate_apply_params(true, &with_digest).is_ok());
    let stray = machine(validate_apply_params(false, &with_digest));
    assert_eq!(stray.code, "invalid_params");
    assert_eq!(stray.message, "planDigest is accepted only with --apply");
    assert_eq!(text_detail(&stray, 0), ("field".to_owned(), "planDigest".to_owned()));
    let missing = machine(validate_apply_params(true, &without));
    assert_eq!(missing.code, "plan_digest_required");
    let upper = MachineParams { remove_branches: Vec::new(), plan_digest: Some("A".repeat(64)) };
    assert_eq!(machine(validate_apply_params(true, &upper)).code, "plan_digest_required");
    let short = MachineParams { remove_branches: Vec::new(), plan_digest: Some("a".repeat(63)) };
    assert_eq!(
        machine(validate_apply_params(true, &short)).message,
        "--apply requires the lowercase SHA-256 planDigest from a preview"
    );
}

#[test]
fn session_failures_map_to_machine_codes() {
    let cases = [
        (SessionError::InvalidToken, "invalid_session", "the restack continuation token is not valid"),
        (SessionError::Missing, "invalid_session", "the restack session does not exist"),
        (SessionError::Locked, "session_locked", "the restack session is already in use"),
        (SessionError::Tampered, "invalid_session", "the restack session failed integrity validation"),
        (SessionError::Expired, "expired_session", "the restack session has expired"),
        (SessionError::Unavailable, "session_unavailable", "the restack session store is unavailable"),
    ];
    for (error, code, message) in cases {
        let reported = machine(Err::<(), CliError>(session_error(error)));
        assert_eq!(reported.kind, MachineKind::Failure);
        assert_eq!(reported.code, code);
        assert_eq!(reported.message, message);
    }
    let tampered = machine(Err::<(), CliError>(session_error(SessionError::Tampered)));
    assert_eq!(text_detail(&tampered, 0), ("reason".to_owned(), "tampered".to_owned()));
    let mismatch = machine(Err::<(), CliError>(session_error(SessionError::SchemaMismatch { found: 1, expected: 2 })));
    assert_eq!(mismatch.code, "session_schema_mismatch");
    assert!(matches!(&mismatch.details[0], (name, DetailValue::Number(2)) if name == "expected"));
    assert!(matches!(&mismatch.details[1], (name, DetailValue::Number(1)) if name == "found"));
}
