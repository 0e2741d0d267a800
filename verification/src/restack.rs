//! Decisions of the restack command: invocation checks, machine parameters, and the
//! checks that guard a resumed, sealed or aborted session.

use vstd::prelude::*;
use vstd::string::StringSliceAdditionalSpecFns;
use vstd::utf8::encode_utf8;

use crate::error::{
    interactive_error, machine_failure, machine_spec, machine_usage, text_detail, CliError,
    DetailValue, MachineKind,
};
use crate::hex::is_lower_hex;
use crate::refs::{is_valid_ref_component, validate_ref_component};
use crate::session::{SessionError, SessionStatus};
use crate::terminal_text::{is_control, is_control_spec};
use crate::text::literal;
use crate::text_compare::{chars_of, is_blank, same_text, trims_to_empty};

verus! {

/// The arguments of `gd restack`.
#[derive(Clone, Debug)]
pub struct RestackArgs {
    pub environment: String,
    pub main: Option<String>,
    pub remote: Option<String>,
    pub params: Option<String>,
    pub dry_run: bool,
    pub apply: bool,
    pub resume: Option<String>,
    pub abort: bool,
}

/// A reviewed feature branch and the tip it was reviewed at.
#[derive(Clone, Debug, PartialEq, Eq)]
pub struct BranchIdentity {
    pub name: String,
    pub tip: String,
}

/// The machine parameters of a restack preview or apply.
#[derive(Clone, Debug)]
pub struct MachineParams {
    pub remove_branches: Vec<String>,
    pub plan_digest: Option<String>,
}

/// `--params` as the command line delivered it.
#[derive(Clone, Debug)]
pub enum ParamsInput {
    Absent,
    /// The text did not match the parameter schema.
    Malformed,
    Parsed(MachineParams),
}

/// A restack without parameters, continuation or dry run is a terminal review.
pub fn wants_interactive(args: &RestackArgs) -> (result: bool)
    ensures
        result == (args.params is None && args.resume is None && !args.dry_run),
{
    args.params.is_none() && args.resume.is_none() && !args.dry_run
}

/// A bare `--resume` from a terminal continues in the review screen; `--apply`,
/// `--abort` or a missing terminal keep the machine protocol.
pub fn interactive_resume_requested(args: &RestackArgs, terminal: bool) -> (result: bool)
    ensures
        result == (args.resume is Some && !args.apply && !args.abort && terminal),
{
    args.resume.is_some() && !args.apply && !args.abort && terminal
}

/// The single-field details `{"field": label}`.
fn field_detail(label: &str) -> (details: Vec<(String, DetailValue)>)
    ensures
        details@.len() == 1,
        details@[0].0@ == "field"@,
        details@[0].1 matches DetailValue::Text(text) && text@ == label@,
{
    proof {
        reveal_strlit("field");
    }
    text_detail("field", label)
}

/// The remote that an invocation names, `origin` by default.
pub open spec fn remote_of(args: RestackArgs) -> Seq<char> {
    match args.remote {
        Some(remote) => remote@,
        None => "origin"@,
    }
}

/// The invalid-ref usage error for the field named `field`.
pub open spec fn is_invalid_ref_error(error: CliError, field: Seq<char>) -> bool {
    error matches CliError::Machine(m) && m.kind == MachineKind::Usage && m.code@ == "invalid_ref"@
        && m.details@.len() == 1 && m.details@[0].0@ == "field"@ && (m.details@[0].1 matches DetailValue::Text(t)
        && t@ == field)
}

/// Checks the flags and every ref name of an invocation before any Git work.
pub fn validate_inputs(args: &RestackArgs) -> (result: Result<(), CliError>)
    ensures
        args.abort && args.resume is None ==> (result matches Err(e) && machine_spec(
            MachineKind::Usage,
            "invalid_usage"@,
            "--abort requires --resume"@,
            seq![],
            e,
        )),
        !(args.abort && args.resume is None) ==> {
            let environment_valid = is_valid_ref_component(args.environment@);
            let remote_valid = is_valid_ref_component(remote_of(*args));
            let main_valid = match args.main {
                Some(m) => is_valid_ref_component(m@),
                None => true,
            };
            &&& (result is Ok <==> environment_valid && remote_valid && main_valid)
            &&& !environment_valid ==> (result matches Err(e) && is_invalid_ref_error(
                e,
                "environment"@,
            ))
            &&& environment_valid && !remote_valid ==> (result matches Err(e)
                && is_invalid_ref_error(e, "remote"@))
            &&& environment_valid && remote_valid && !main_valid ==> (result matches Err(e)
                && is_invalid_ref_error(e, "main"@))
        },
{
    proof {
        reveal_strlit("field");
        reveal_strlit("invalid_ref");
    }
    if args.abort && args.resume.is_none() {
        let error = machine_usage("invalid_usage", "--abort requires --resume", Vec::new());
        proof {
            assert(seq![] =~= Seq::<(String, DetailValue)>::empty());
        }
        return Err(error);
    }
    if validate_ref_component("environment", args.environment.as_str()).is_err() {
        return Err(
            machine_usage(
                "invalid_ref",
                "a restack ref name is not valid",
                field_detail("environment"),
            ),
        );
    }
    let remote_ok = match &args.remote {
        Some(remote) => validate_ref_component("remote", remote.as_str()).is_ok(),
        None => {
            proof {
                reveal_strlit("origin");
            }
            validate_ref_component("remote", "origin").is_ok()
        },
    };
    if !remote_ok {
        return Err(
            machine_usage("invalid_ref", "a restack ref name is not valid", field_detail("remote")),
        );
    }
    if let Some(main) = &args.main {
        if validate_ref_component("main", main.as_str()).is_err() {
            return Err(
                machine_usage("invalid_ref", "a restack ref name is not valid", field_detail("main")),
            );
        }
    }
    Ok(())
}

/// A machine error with this kind, code and message, whatever its details.
pub open spec fn is_machine(error: CliError, kind: MachineKind, code: Seq<char>, message: Seq<char>) -> bool {
    error matches CliError::Machine(m) && m.kind == kind && m.code@ == code && m.message@ == message
}

/// The details of `error` are the one text field `key: value`.
pub open spec fn has_text_detail(error: CliError, key: Seq<char>, value: Seq<char>) -> bool {
    error matches CliError::Machine(m) && m.details@.len() == 1 && m.details@[0].0@ == key && (
    m.details@[0].1 matches DetailValue::Text(t) && t@ == value)
}

/// A plan digest is a lowercase SHA-256 in hex.
pub fn valid_plan_digest(digest: &str) -> (result: bool)
    ensures
        result == is_lower_hex(digest.spec_bytes(), 64),
{
    let bytes = digest.as_bytes();
    if bytes.len() != 64 {
        return false;
    }
    let mut i: usize = 0;
    while i < bytes.len()
        invariant
            bytes@ == digest.spec_bytes(),
            bytes.len() == 64,
            i <= bytes.len(),
            forall|j: int| 0 <= j < i ==> crate::hex::is_lower_hex_byte(#[trigger] bytes@[j]),
        decreases bytes.len() - i,
    {
        let byte = bytes[i];
        let hex_digit = (48 <= byte && byte <= 57) || (65 <= byte && byte <= 70) || (97 <= byte
            && byte <= 102);
        let uppercase = 65 <= byte && byte <= 90;
        if !(hex_digit && !uppercase) {
            return false;
        }
        i = i + 1;
    }
    true
}

/// A Git identity value: not blank and free of control characters.
pub open spec fn is_identity_value(value: Seq<char>) -> bool {
    !is_blank(value) && forall|i: int| 0 <= i < value.len() ==> !is_control_spec(#[trigger] value[i])
}

/// Whether `value` can stand as a configured author name or email.
pub fn valid_identity_value(value: &str) -> (result: bool)
    ensures
        result == is_identity_value(value@),
{
    if trims_to_empty(value) {
        return false;
    }
    let chars = chars_of(value);
    let mut i: usize = 0;
    while i < chars.len()
        invariant
            chars@ == value@,
            i <= chars.len(),
            forall|j: int| 0 <= j < i ==> !is_control_spec(#[trigger] chars@[j]),
        decreases chars.len() - i,
    {
        if is_control(chars[i]) {
            return false;
        }
        i = i + 1;
    }
    true
}

/// The usage error for parameters that do not match the schema.
fn invalid_params_schema() -> (error: CliError)
    ensures
        is_machine(error, MachineKind::Usage, "invalid_params"@, "--params must match the schema-v3 restack machine parameters"@),
{
    let mut details = Vec::new();
    details.push(
        (
            literal("expected"),
            DetailValue::Json(
                literal("{\"planDigest\":\"apply only\",\"removeBranches\":[\"feature/BRANCH\"]}"),
            ),
        ),
    );
    machine_usage(
        "invalid_params",
        "--params must match the schema-v3 restack machine parameters",
        details,
    )
}

/// The details name the index of the first branch that is not a valid ref name.
pub open spec fn reports_first_invalid_branch(error: CliError, branches: Seq<String>) -> bool {
    match error {
        CliError::Machine(m) => {
            &&& m.details@.len() == 1
            &&& m.details@[0].0@ == "index"@
            &&& match m.details@[0].1 {
                DetailValue::Number(i) => {
                    &&& i < branches.len()
                    &&& !is_valid_ref_component(branches[i as int]@)
                    &&& forall|j: int| 0 <= j < i ==> is_valid_ref_component(#[trigger] branches[j]@)
                },
                _ => false,
            }
        },
        _ => false,
    }
}

/// Resolves the machine parameters: a dry run needs none, every listed branch must be a
/// valid ref name.
pub fn parse_params(params: ParamsInput, dry_run: bool) -> (result: Result<MachineParams, CliError>)
    ensures
        match params {
            ParamsInput::Absent => if dry_run {
                result matches Ok(p) && p.remove_branches@.len() == 0 && p.plan_digest is None
            } else {
                result matches Err(e) && is_machine(
                    e,
                    MachineKind::Usage,
                    "params_required"@,
                    "a machine restack preview requires --params"@,
                )
            },
            ParamsInput::Malformed => result matches Err(e) && is_machine(
                e,
                MachineKind::Usage,
                "invalid_params"@,
                "--params must match the schema-v3 restack machine parameters"@,
            ),
            ParamsInput::Parsed(p) => {
                let all_valid = forall|i: int|
                    0 <= i < p.remove_branches@.len() ==> is_valid_ref_component(
                        #[trigger] p.remove_branches@[i]@,
                    );
                &&& all_valid ==> (result matches Ok(q) && q.remove_branches@ == p.remove_branches@
                    && q.plan_digest == p.plan_digest)
                &&& !all_valid ==> (result matches Err(e) && is_machine(
                    e,
                    MachineKind::Usage,
                    "invalid_params"@,
                    "removeBranches contains an invalid Git branch name"@,
                ) && reports_first_invalid_branch(e, p.remove_branches@))
            },
        },
{
    proof {
        reveal_strlit("index");
    }
    match params {
        ParamsInput::Absent => {
            if dry_run {
                return Ok(MachineParams { remove_branches: Vec::new(), plan_digest: None });
            }
            let mut details = Vec::new();
            details.push(
                (literal("expected"), DetailValue::Json(literal("{\"removeBranches\":[]}"))),
            );
            Err(machine_usage("params_required", "a machine restack preview requires --params", details))
        },
        ParamsInput::Malformed => Err(invalid_params_schema()),
        ParamsInput::Parsed(parsed) => {
            let mut index: usize = 0;
            while index < parsed.remove_branches.len()
                invariant
                    params == ParamsInput::Parsed(parsed),
                    index <= parsed.remove_branches@.len(),
                    forall|j: int| 0 <= j < index ==> is_valid_ref_component(
                        #[trigger] parsed.remove_branches@[j]@,
                    ),
                decreases parsed.remove_branches.len() - index,
            {
                if validate_ref_component("removeBranches entry", parsed.remove_branches[index].as_str()).is_err() {
                    let mut details = Vec::new();
                    details.push((literal("index"), DetailValue::Number(index as u64)));
                    let error = machine_usage(
                        "invalid_params",
                        "removeBranches contains an invalid Git branch name",
                        details,
                    );
                    proof {
                        assert(details@[0].0@ == "index"@);
                        assert(details@[0].1 == DetailValue::Number(index as u64));
                        assert(!is_valid_ref_component(parsed.remove_branches@[index as int]@));
                        assert(is_machine(error, MachineKind::Usage, "invalid_params"@, "removeBranches contains an invalid Git branch name"@));
                        assert(reports_first_invalid_branch(error, parsed.remove_branches@));
                    }
                    return Err(error);
                }
                index = index + 1;
            }
            Ok(parsed)
        },
    }
}

/// `--apply` takes the lowercase plan digest of a preview; a digest without `--apply`
/// is refused.
pub fn validate_apply_params(apply: bool, params: &MachineParams) -> (result: Result<(), CliError>)
    ensures
        match (apply, params.plan_digest) {
            (false, None) => result is Ok,
            (false, Some(_)) => result matches Err(e) && is_machine(
                e,
                MachineKind::Usage,
                "invalid_params"@,
                "planDigest is accepted only with --apply"@,
            ) && has_text_detail(e, "field"@, "planDigest"@),
            (true, Some(digest)) => if is_lower_hex(encode_utf8(digest@), 64) {
                result is Ok
            } else {
                result matches Err(e) && is_machine(
                    e,
                    MachineKind::Usage,
                    "plan_digest_required"@,
                    "--apply requires the lowercase SHA-256 planDigest from a preview"@,
                ) && has_text_detail(e, "field"@, "planDigest"@)
            },
            (true, None) => result matches Err(e) && is_machine(
                e,
                MachineKind::Usage,
                "plan_digest_required"@,
                "--apply requires the lowercase SHA-256 planDigest from a preview"@,
            ) && has_text_detail(e, "field"@, "planDigest"@),
        },
{
    proof {
        reveal_strlit("field");
        reveal_strlit("planDigest");
    }
    match (apply, &params.plan_digest) {
        (false, None) => Ok(()),
        (false, Some(_)) => Err(
            machine_usage(
                "invalid_params",
                "planDigest is accepted only with --apply",
                text_detail("field", "planDigest"),
            ),
        ),
        (true, Some(digest)) => {
            if valid_plan_digest(digest.as_str()) {
                Ok(())
            } else {
                Err(
                    machine_usage(
                        "plan_digest_required",
                        "--apply requires the lowercase SHA-256 planDigest from a preview",
                        text_detail("field", "planDigest"),
                    ),
                )
            }
        },
        (true, None) => Err(
            machine_usage(
                "plan_digest_required",
                "--apply requires the lowercase SHA-256 planDigest from a preview",
                text_detail("field", "planDigest"),
            ),
        ),
    }
}

/// The error for a session that does not match this invocation, naming `reason`.
pub fn stale_session_error(reason: &str) -> (error: CliError)
    ensures
        is_machine(error, MachineKind::Failure, "stale_session"@, "the restack session does not match this invocation"@),
        has_text_detail(error, "reason"@, reason@),
{
    proof {
        reveal_strlit("reason");
    }
    machine_failure(
        "stale_session",
        "the restack session does not match this invocation",
        text_detail("reason", reason),
    )
}

/// The error for a work area that is not in the expected resumable state.
pub fn session_state_error(reason: &str) -> (error: CliError)
    ensures
        is_machine(error, MachineKind::Failure, "invalid_session_state"@, "the restack work area is not in the expected resumable state"@),
        has_text_detail(error, "reason"@, reason@),
{
    proof {
        reveal_strlit("reason");
    }
    machine_failure(
        "invalid_session_state",
        "the restack work area is not in the expected resumable state",
        text_detail("reason", reason),
    )
}

/// The machine error code that reports a session failure.
pub open spec fn session_error_code(error: SessionError) -> Seq<char> {
    match error {
        SessionError::InvalidToken => "invalid_session"@,
        SessionError::Missing => "invalid_session"@,
        SessionError::Locked => "session_locked"@,
        SessionError::Tampered => "invalid_session"@,
        SessionError::Expired => "expired_session"@,
        SessionError::SchemaMismatch { .. } => "session_schema_mismatch"@,
        SessionError::Unavailable => "session_unavailable"@,
    }
}

/// The message reported for a session failure.
pub open spec fn session_error_message(error: SessionError) -> Seq<char> {
    match error {
        SessionError::InvalidToken => "the restack continuation token is not valid"@,
        SessionError::Missing => "the restack session does not exist"@,
        SessionError::Locked => "the restack session is already in use"@,
        SessionError::Tampered => "the restack session failed integrity validation"@,
        SessionError::Expired => "the restack session has expired"@,
        SessionError::SchemaMismatch { .. } =>
            "the restack session was saved by a different Graduate release; start a new restack"@,
        SessionError::Unavailable => "the restack session store is unavailable"@,
    }
}

/// Reports a session failure as a machine failure.
pub fn session_error(error: SessionError) -> (result: CliError)
    ensures
        result matches CliError::Machine(m) && m.kind == MachineKind::Failure && m.code@
            == session_error_code(error) && m.message@ == session_error_message(error),
        error == SessionError::InvalidToken ==> has_text_detail(result, "reason"@, "token"@),
        error == SessionError::Missing ==> has_text_detail(result, "reason"@, "missing"@),
        error == SessionError::Tampered ==> has_text_detail(result, "reason"@, "tampered"@),
        (error is Locked || error is Expired || error is Unavailable) ==> (result matches CliError::Machine(m)
            && m.details@.len() == 0),
        error matches SessionError::SchemaMismatch { found, expected } ==> (result matches CliError::Machine(m)
            && m.details@.len() == 2 && m.details@[0].0@ == "expected"@ && m.details@[0].1
            == DetailValue::Number(expected as u64) && m.details@[1].0@ == "found"@ && m.details@[1].1
            == DetailValue::Number(found)),
{
    proof {
        reveal_strlit("reason");
        reveal_strlit("token");
        reveal_strlit("missing");
        reveal_strlit("tampered");
        reveal_strlit("invalid_session");
        reveal_strlit("session_locked");
        reveal_strlit("expired_session");
        reveal_strlit("session_schema_mismatch");
        reveal_strlit("session_unavailable");
        reveal_strlit("expected");
        reveal_strlit("found");
    }
    match error {
        SessionError::InvalidToken => machine_failure(
            "invalid_session",
            "the restack continuation token is not valid",
            text_detail("reason", "token"),
        ),
        SessionError::Missing => machine_failure(
            "invalid_session",
            "the restack session does not exist",
            text_detail("reason", "missing"),
        ),
        SessionError::Locked => machine_failure(
            "session_locked",
            "the restack session is already in use",
            Vec::new(),
        ),
        SessionError::Tampered => machine_failure(
            "invalid_session",
            "the restack session failed integrity validation",
            text_detail("reason", "tampered"),
        ),
        SessionError::Expired => machine_failure(
            "expired_session",
            "the restack session has expired",
            Vec::new(),
        ),
        SessionError::SchemaMismatch { found, expected } => {
            let mut details = Vec::new();
            details.push((literal("expected"), DetailValue::Number(expected as u64)));
            details.push((literal("found"), DetailValue::Number(found)));
            machine_failure(
                "session_schema_mismatch",
                "the restack session was saved by a different Graduate release; start a new restack",
                details,
            )
        },
        SessionError::Unavailable => machine_failure(
            "session_unavailable",
            "the restack session store is unavailable",
            Vec::new(),
        ),
    }
}

/// What a resumed session records about the invocation that created it.
#[derive(Clone, Debug)]
pub struct SessionOrigin {
    pub repository_id: String,
    pub environment: String,
    pub remote: String,
    pub main: String,
}

/// The first way in which a session does not belong to this invocation, if any.
pub open spec fn origin_mismatch(
    args: RestackArgs,
    repository_id: Seq<char>,
    origin: SessionOrigin,
) -> Option<Seq<char>> {
    if origin.repository_id@ != repository_id {
        Some("repository"@)
    } else if origin.environment@ != args.environment@ {
        Some("environment"@)
    } else if args.remote matches Some(r) && r@ != origin.remote@ {
        Some("remote"@)
    } else if args.main matches Some(m) && m@ != origin.main@ {
        Some("main"@)
    } else {
        None
    }
}

/// A session resumes only from the repository, environment, remote and main branch that
/// created it.
pub fn check_session_origin(args: &RestackArgs, repository_id: &str, origin: &SessionOrigin) -> (result: Result<(), CliError>)
    ensures
        match origin_mismatch(*args, repository_id@, *origin) {
            None => result is Ok,
            Some(reason) => result matches Err(e) && is_machine(
                e,
                MachineKind::Failure,
                "stale_session"@,
                "the restack session does not match this invocation"@,
            ) && has_text_detail(e, "reason"@, reason),
        },
{
    proof {
        reveal_strlit("repository");
        reveal_strlit("environment");
        reveal_strlit("remote");
        reveal_strlit("main");
    }
    if !same_text(origin.repository_id.as_str(), repository_id) {
        return Err(stale_session_error("repository"));
    }
    if !same_text(origin.environment.as_str(), args.environment.as_str()) {
        return Err(stale_session_error("environment"));
    }
    if let Some(remote) = &args.remote {
        if !same_text(remote.as_str(), origin.remote.as_str()) {
            return Err(stale_session_error("remote"));
        }
    }
    if let Some(main) = &args.main {
        if !same_text(main.as_str(), origin.main.as_str()) {
            return Err(stale_session_error("main"));
        }
    }
    Ok(())
}

/// The progress of a session through the reviewed selection.
#[derive(Clone, Debug)]
pub struct SessionProgress {
    pub status: SessionStatus,
    /// The features kept, in merge order.
    pub retained: Vec<BranchIdentity>,
    /// How many retained features have been merged.
    pub merge_count: usize,
    /// The index of the feature whose merge is pending.
    pub next_feature: usize,
    pub expected_feature_tip: Option<String>,
    pub expected_head: String,
    pub final_tree: Option<String>,
    pub preview_commit: Option<String>,
    pub plan_digest: Option<String>,
}

/// How a resumed preview goes on.
#[derive(Clone, Debug, PartialEq, Eq)]
pub enum ResumeStep {
    /// The session is sealed; show its plan again.
    ReopenSealed,
    /// Complete the staged merge of the retained feature at this index.
    CompleteFeature(usize),
}

/// A conflicted session resumes at its pending feature, provided that feature's reviewed
/// tip is the one recorded and every earlier feature has been merged.
pub open spec fn is_resumable_position(progress: SessionProgress) -> bool {
    &&& progress.next_feature < progress.retained@.len()
    &&& progress.expected_feature_tip matches Some(tip) && tip@ == progress.retained@[progress.next_feature as int].tip@
    &&& progress.merge_count == progress.next_feature
}

/// Decides how a resumed preview continues.
pub fn continue_session_step(progress: &SessionProgress) -> (result: Result<ResumeStep, CliError>)
    ensures
        progress.status == SessionStatus::Sealed ==> result == Ok::<ResumeStep, CliError>(ResumeStep::ReopenSealed),
        progress.status != SessionStatus::Sealed && progress.status != SessionStatus::Conflicted
            ==> (result matches Err(e) && is_machine(
            e,
            MachineKind::Failure,
            "stale_session"@,
            "the restack session does not match this invocation"@,
        ) && has_text_detail(e, "reason"@, "sessionStatus"@)),
        progress.status == SessionStatus::Conflicted ==> if is_resumable_position(*progress) {
            result == Ok::<ResumeStep, CliError>(ResumeStep::CompleteFeature(progress.next_feature))
        } else {
            result matches Err(e) && is_machine(
                e,
                MachineKind::Failure,
                "stale_session"@,
                "the restack session does not match this invocation"@,
            ) && has_text_detail(e, "reason"@, "featurePosition"@)
        },
{
    proof {
        reveal_strlit("sessionStatus");
        reveal_strlit("featurePosition");
    }
    if progress.status == SessionStatus::Sealed {
        return Ok(ResumeStep::ReopenSealed);
    }
    if progress.status != SessionStatus::Conflicted {
        return Err(stale_session_error("sessionStatus"));
    }
    if progress.next_feature >= progress.retained.len() {
        return Err(stale_session_error("featurePosition"));
    }
    let feature = &progress.retained[progress.next_feature];
    let tip_matches = match &progress.expected_feature_tip {
        Some(tip) => same_text(tip.as_str(), feature.tip.as_str()),
        None => false,
    };
    if !tip_matches || progress.merge_count != progress.next_feature {
        return Err(stale_session_error("featurePosition"));
    }
    Ok(ResumeStep::CompleteFeature(progress.next_feature))
}

/// What a sealed session has recorded about its plan.
#[derive(Clone, Debug, PartialEq, Eq)]
pub struct SealedRecord {
    pub final_tree: String,
    pub preview_commit: String,
    pub plan_digest: String,
}

/// A sealed session has merged every retained feature, has no pending feature, and
/// records the tree, commit and digest of its plan, its head being the previewed commit.
pub open spec fn is_complete_seal(progress: SessionProgress) -> bool {
    &&& progress.next_feature == progress.retained@.len()
    &&& progress.merge_count == progress.retained@.len()
    &&& progress.expected_feature_tip is None
    &&& progress.final_tree is Some
    &&& progress.plan_digest is Some
    &&& progress.preview_commit matches Some(commit) && commit@ == progress.expected_head@
}

/// The recorded plan of a sealed session, or the error that its state is not resumable.
pub fn sealed_record(progress: &SessionProgress) -> (result: Result<SealedRecord, CliError>)
    ensures
        is_complete_seal(*progress) ==> (result matches Ok(r) && Some(r.final_tree)
            == progress.final_tree && Some(r.preview_commit) == progress.preview_commit && Some(
            r.plan_digest,
        ) == progress.plan_digest),
        !is_complete_seal(*progress) ==> (result matches Err(e) && is_machine(
            e,
            MachineKind::Failure,
            "invalid_session_state"@,
            "the restack work area is not in the expected resumable state"@,
        ) && has_text_detail(e, "reason"@, "sealedPlan"@)),
{
    proof {
        reveal_strlit("sealedPlan");
    }
    let complete = progress.next_feature == progress.retained.len() && progress.merge_count
        == progress.retained.len() && progress.expected_feature_tip.is_none();
    let final_tree = match &progress.final_tree {
        Some(tree) => tree.clone(),
        None => return Err(session_state_error("sealedPlan")),
    };
    let preview_commit = match &progress.preview_commit {
        Some(commit) => commit.clone(),
        None => return Err(session_state_error("sealedPlan")),
    };
    let plan_digest = match &progress.plan_digest {
        Some(digest) => digest.clone(),
        None => return Err(session_state_error("sealedPlan")),
    };
    if !complete || !same_text(progress.expected_head.as_str(), preview_commit.as_str()) {
        return Err(session_state_error("sealedPlan"));
    }
    Ok(SealedRecord { final_tree, preview_commit, plan_digest })
}

/// The progress after the reconstruction stopped at a conflict: `merge_count` features
/// merged, the feature at `feature_index` pending with the recorded tip, the work area's
/// head at `expected_head`.
pub open spec fn conflicted_progress(
    progress: SessionProgress,
    merge_count: usize,
    feature_index: usize,
    expected_head: String,
    feature_tip: String,
) -> SessionProgress {
    SessionProgress {
        status: SessionStatus::Conflicted,
        merge_count,
        next_feature: feature_index,
        expected_head,
        expected_feature_tip: Some(feature_tip),
        ..progress
    }
}

/// Records that the reconstruction stopped at a conflict.
pub fn record_conflict(
    progress: &mut SessionProgress,
    merge_count: usize,
    feature_index: usize,
    expected_head: String,
    feature_tip: String,
)
    ensures
        *final(progress) == conflicted_progress(
            *old(progress),
            merge_count,
            feature_index,
            expected_head,
            feature_tip,
        ),
{
    progress.status = SessionStatus::Conflicted;
    progress.merge_count = merge_count;
    progress.next_feature = feature_index;
    progress.expected_head = expected_head;
    progress.expected_feature_tip = Some(feature_tip);
}

/// The progress once every retained feature merged into the previewed commit: the plan's
/// `merge_count` merges, no pending feature, and the plan's tree, commit and digest.
pub open spec fn sealed_progress(
    progress: SessionProgress,
    merge_count: usize,
    preview_commit: String,
    final_tree: String,
    plan_digest: String,
) -> SessionProgress {
    SessionProgress {
        status: SessionStatus::Sealed,
        merge_count,
        next_feature: progress.retained.len(),
        expected_head: preview_commit,
        expected_feature_tip: None,
        final_tree: Some(final_tree),
        preview_commit: Some(preview_commit),
        plan_digest: Some(plan_digest),
        ..progress
    }
}

/// Seals the session around the plan that its completed reconstruction produced.
pub fn seal_progress(
    progress: &mut SessionProgress,
    merge_count: usize,
    preview_commit: String,
    final_tree: String,
    plan_digest: String,
)
    ensures
        *final(progress) == sealed_progress(
            *old(progress),
            merge_count,
            preview_commit,
            final_tree,
            plan_digest,
        ),
{
    progress.status = SessionStatus::Sealed;
    progress.merge_count = merge_count;
    progress.next_feature = progress.retained.len();
    progress.expected_head = preview_commit.clone();
    progress.expected_feature_tip = None;
    progress.final_tree = Some(final_tree);
    progress.preview_commit = Some(preview_commit);
    progress.plan_digest = Some(plan_digest);
}

/// A session stopped at the conflict of a retained feature, with every earlier feature
/// merged and that feature's reviewed tip recorded, resumes at that feature.
pub proof fn lemma_recorded_conflict_resumes(
    progress: SessionProgress,
    feature_index: usize,
    expected_head: String,
    feature_tip: String,
)
    requires
        feature_index < progress.retained@.len(),
        feature_tip@ == progress.retained@[feature_index as int].tip@,
    ensures
        ({
            let after = conflicted_progress(progress, feature_index, feature_index, expected_head, feature_tip);
            after.status == SessionStatus::Conflicted && is_resumable_position(after)
        }),
{
}

/// A session sealed with one merge per retained feature can be reopened: its record is
/// complete and gives back the plan's tree, commit and digest.
pub proof fn lemma_sealed_session_reopens(
    progress: SessionProgress,
    preview_commit: String,
    final_tree: String,
    plan_digest: String,
)
    ensures
        ({
            let after = sealed_progress(
                progress,
                progress.retained.len(),
                preview_commit,
                final_tree,
                plan_digest,
            );
            &&& after.status == SessionStatus::Sealed
            &&& is_complete_seal(after)
            &&& after.final_tree == Some(final_tree)
            &&& after.preview_commit == Some(preview_commit)
            &&& after.plan_digest == Some(plan_digest)
        }),
{
}

/// What to conclude after a push that reported failure, from the environment ref the
/// remote now shows.
#[derive(Clone, Copy, Debug, PartialEq, Eq, Structural)]
pub enum PublicationOutcome {
    /// The ref is unchanged: the push was rejected and the session stays sealed.
    Rejected,
    /// The ref already holds the previewed commit: the publication completed.
    Published,
    /// Neither can be proved.
    Unknown,
}

/// Classifies the remote environment ref after a push that reported failure.
pub fn failed_push_outcome(observed: Option<&str>, environment_tip: &str, preview_commit: &str) -> (outcome: PublicationOutcome)
    ensures
        outcome == match observed {
            Some(oid) => if oid@ == environment_tip@ {
                PublicationOutcome::Rejected
            } else if oid@ == preview_commit@ {
                PublicationOutcome::Published
            } else {
                PublicationOutcome::Unknown
            },
            None => PublicationOutcome::Unknown,
        },
{
    match observed {
        Some(oid) => {
            if same_text(oid, environment_tip) {
                PublicationOutcome::Rejected
            } else if same_text(oid, preview_commit) {
                PublicationOutcome::Published
            } else {
                PublicationOutcome::Unknown
            }
        },
        None => PublicationOutcome::Unknown,
    }
}

/// Only a consumed session cannot be aborted.
pub fn abort_session(status: SessionStatus) -> (result: Result<SessionStatus, CliError>)
    ensures
        status == SessionStatus::Consumed ==> (result matches Err(e) && is_machine(
            e,
            MachineKind::Failure,
            "stale_session"@,
            "the restack session does not match this invocation"@,
        ) && has_text_detail(e, "reason"@, "sessionStatus"@)),
        status != SessionStatus::Consumed ==> result == Ok::<SessionStatus, CliError>(SessionStatus::Consumed),
{
    proof {
        reveal_strlit("sessionStatus");
    }
    if status == SessionStatus::Consumed {
        return Err(stale_session_error("sessionStatus"));
    }
    Ok(SessionStatus::Consumed)
}

/// A session resumes only where it was made: it passes exactly when its repository and
/// environment are the invocation's and so are its remote and main branch where the
/// invocation names them. The first difference is the reason given: the repository, then
/// the environment, then the remote, then the main branch.
pub proof fn lemma_session_origin_must_match(args: RestackArgs, repository_id: Seq<char>, origin: SessionOrigin)
    ensures
        origin_mismatch(args, repository_id, origin) is None <==> (origin.repository_id@ == repository_id
            && origin.environment@ == args.environment@ && (args.remote matches Some(r) ==> r@ == origin.remote@)
            && (args.main matches Some(m) ==> m@ == origin.main@)),
        origin.repository_id@ != repository_id ==> origin_mismatch(args, repository_id, origin) == Some(
            "repository"@,
        ),
        origin.repository_id@ == repository_id && origin.environment@ != args.environment@ ==> origin_mismatch(
            args,
            repository_id,
            origin,
        ) == Some("environment"@),
        origin.repository_id@ == repository_id && origin.environment@ == args.environment@ && (args.remote matches Some(
            r,
        ) && r@ != origin.remote@) ==> origin_mismatch(args, repository_id, origin) == Some("remote"@),
        origin.repository_id@ == repository_id && origin.environment@ == args.environment@ && (args.remote matches Some(
            r,
        ) ==> r@ == origin.remote@) && (args.main matches Some(m) && m@ != origin.main@) ==> origin_mismatch(
            args,
            repository_id,
            origin,
        ) == Some("main"@),
{
}

} // verus!
