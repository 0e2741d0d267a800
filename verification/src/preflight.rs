//! What the source repository's Git answers mean before a restack: its object store, its
//! configured identity, and whether a plan is the one that was reviewed.

use vstd::prelude::*;
use vstd::utf8::{decode_utf8, valid_utf8};

use crate::error::{machine_failure, CliError, DetailValue, MachineKind};
use crate::git_output::{
    is_reconstruction_error, is_validation_error, trim_end_line_breaks, trim_line_ends, utf8_text,
    GitOutput,
};
use crate::restack::{has_text_detail, is_identity_value, is_machine, valid_identity_value};
use crate::restack_errors::{details_of, reconstruction_error, validation_error};
use crate::text::literal;

verus! {

/// The author that the restack commits carry.
#[derive(Clone, Debug)]
pub struct RestackAuthor {
    pub name: String,
    pub email: String,
}

fn detail(key: &str, value: &str) -> (details: Vec<(String, DetailValue)>)
    ensures
        details@.len() == 1,
        details@[0].0@ == key@,
        details@[0].1 matches DetailValue::Text(t) && t@ == value@,
{
    let mut details: Vec<(String, DetailValue)> = Vec::new();
    details.push((literal(key), DetailValue::Text(literal(value))));
    details
}

/// Whether a byte is a carriage return or line feed.
pub open spec fn is_line_break(byte: u8) -> bool {
    byte == 13u8 || byte == 10u8
}

/// The bytes without the line breaks that end them.
pub open spec fn trim_line_break_bytes(bytes: Seq<u8>) -> Seq<u8>
    decreases bytes.len(),
{
    if bytes.len() > 0 && is_line_break(bytes.last()) {
        trim_line_break_bytes(bytes.drop_last())
    } else {
        bytes
    }
}

/// The error of an object store that cannot be located.
pub open spec fn is_object_store_unavailable(error: CliError) -> bool {
    is_machine(
        error,
        MachineKind::Failure,
        "object_store_unavailable"@,
        "could not locate the source repository object store"@,
    ) && details_of(error).len() == 0
}

/// The object directory of the source repository, from `git rev-parse --git-path
/// objects`: one path on one line.
pub fn source_object_directory(output: GitOutput) -> (result: Result<Vec<u8>, CliError>)
    ensures
        match output {
            GitOutput::NotRun => result matches Err(e) && is_machine(
                e,
                MachineKind::Failure,
                "git_unavailable"@,
                "could not run Git for restack preflight"@,
            ) && has_text_detail(e, "stage"@, "objectStore"@),
            GitOutput::Failed => result matches Err(e) && is_object_store_unavailable(e),
            GitOutput::Succeeded(bytes) => {
                let path = trim_line_break_bytes(bytes@);
                if path.len() == 0 || exists|i: int| 0 <= i < path.len() && is_line_break(#[trigger] path[i]) {
                    result matches Err(e) && is_object_store_unavailable(e)
                } else {
                    result matches Ok(p) && p@ == path
                }
            },
        },
{
    let ghost original = output;
    let bytes = match output {
        GitOutput::NotRun => {
            return Err(
                machine_failure(
                    "git_unavailable",
                    "could not run Git for restack preflight",
                    detail("stage", "objectStore"),
                ),
            );
        },
        GitOutput::Failed => {
            return Err(
                machine_failure(
                    "object_store_unavailable",
                    "could not locate the source repository object store",
                    Vec::new(),
                ),
            );
        },
        GitOutput::Succeeded(bytes) => bytes,
    };
    let mut end: usize = bytes.len();
    proof {
        assert(bytes@.take(end as int) =~= bytes@);
    }
    while end > 0 && (bytes[end - 1] == 13 || bytes[end - 1] == 10)
        invariant
            original matches GitOutput::Succeeded(b) && b@ == bytes@,
            end <= bytes.len(),
            trim_line_break_bytes(bytes@) == trim_line_break_bytes(bytes@.take(end as int)),
        decreases end,
    {
        proof {
            assert(bytes@.take(end as int).drop_last() =~= bytes@.take(end - 1));
        }
        end = end - 1;
    }
    proof {
        assert(trim_line_break_bytes(bytes@.take(end as int)) == bytes@.take(end as int));
    }
    let mut path: Vec<u8> = Vec::new();
    let mut i: usize = 0;
    while i < end
        invariant
            original matches GitOutput::Succeeded(b) && b@ == bytes@,
            original == output,
            trim_line_break_bytes(bytes@) == bytes@.take(end as int),
            end <= bytes.len(),
            i <= end,
            path@ == bytes@.take(i as int),
            forall|k: int| 0 <= k < i ==> !is_line_break(#[trigger] bytes@[k]),
        decreases end - i,
    {
        if bytes[i] == 13 || bytes[i] == 10 {
            proof {
                assert(bytes@.take(end as int)[i as int] == bytes@[i as int]);
            }
            return Err(
                machine_failure(
                    "object_store_unavailable",
                    "could not locate the source repository object store",
                    Vec::new(),
                ),
            );
        }
        path.push(bytes[i]);
        i = i + 1;
        proof {
            assert(path@ =~= bytes@.take(i as int));
        }
    }
    if path.len() == 0 {
        return Err(
            machine_failure(
                "object_store_unavailable",
                "could not locate the source repository object store",
                Vec::new(),
            ),
        );
    }
    proof {
        assert forall|k: int| 0 <= k < path@.len() implies !is_line_break(#[trigger] path@[k]) by {
            assert(path@[k] == bytes@[k]);
        }
    }
    Ok(path)
}

/// The error of an identity that is missing or unusable.
pub open spec fn is_missing_identity(error: CliError) -> bool {
    is_machine(
        error,
        MachineKind::Failure,
        "missing_identity"@,
        "Git user.name and user.email must be configured"@,
    ) && details_of(error).len() == 0
}

fn missing_identity() -> (error: CliError)
    ensures
        is_missing_identity(error),
{
    machine_failure("missing_identity", "Git user.name and user.email must be configured", Vec::new())
}

/// A configuration value of the source repository, from `git config --get`: the printed
/// text without its line ends.
pub fn source_config(output: GitOutput) -> (result: Result<String, CliError>)
    ensures
        match output {
            GitOutput::NotRun => result matches Err(e) && is_machine(
                e,
                MachineKind::Failure,
                "git_unavailable"@,
                "could not run Git for restack preflight"@,
            ) && has_text_detail(e, "stage"@, "identity"@),
            GitOutput::Failed => result matches Err(e) && is_missing_identity(e),
            GitOutput::Succeeded(bytes) => if valid_utf8(bytes@) {
                result matches Ok(value) && value@ == trim_line_ends(decode_utf8(bytes@))
            } else {
                result matches Err(e) && is_machine(
                    e,
                    MachineKind::Failure,
                    "invalid_identity"@,
                    "the configured Git identity is not valid UTF-8"@,
                ) && details_of(e).len() == 0
            },
        },
{
    match output {
        GitOutput::NotRun => Err(
            machine_failure(
                "git_unavailable",
                "could not run Git for restack preflight",
                detail("stage", "identity"),
            ),
        ),
        GitOutput::Failed => Err(missing_identity()),
        GitOutput::Succeeded(bytes) => match utf8_text(bytes) {
            None => Err(
                machine_failure(
                    "invalid_identity",
                    "the configured Git identity is not valid UTF-8",
                    Vec::new(),
                ),
            ),
            Some(text) => Ok(trim_end_line_breaks(&text)),
        },
    }
}

/// The restack author from the configured `user.name` and `user.email`: both must be
/// readable, not blank, and free of control characters.
pub fn configured_author(name: GitOutput, email: GitOutput) -> (result: Result<RestackAuthor, CliError>)
    ensures
        match (text_value(name), text_value(email)) {
            (Some(n), Some(e)) => if is_identity_value(n) && is_identity_value(e) {
                result matches Ok(author) && author.name@ == n && author.email@ == e
            } else {
                result matches Err(error) && is_missing_identity(error)
            },
            _ => result is Err,
        },
{
    let name = source_config(name)?;
    let email = source_config(email)?;
    if !valid_identity_value(&name) || !valid_identity_value(&email) {
        return Err(missing_identity());
    }
    Ok(RestackAuthor { name, email })
}

/// The configuration value a command printed, when it succeeded with UTF-8.
pub open spec fn text_value(output: GitOutput) -> Option<Seq<char>> {
    match output {
        GitOutput::Succeeded(bytes) => if valid_utf8(bytes@) {
            Some(trim_line_ends(decode_utf8(bytes@)))
        } else {
            None
        },
        _ => None,
    }
}

/// The text of a reconstruction command that must succeed.
pub fn read_success_text(output: GitOutput, stage: &str) -> (result: Result<String, CliError>)
    ensures
        match output {
            GitOutput::Succeeded(bytes) => if valid_utf8(bytes@) {
                result matches Ok(text) && text@ == trim_line_ends(decode_utf8(bytes@))
            } else {
                result matches Err(e) && is_validation_error(e, stage@)
            },
            _ => result matches Err(e) && is_reconstruction_error(e, stage@),
        },
{
    match output {
        GitOutput::Succeeded(bytes) => match utf8_text(bytes) {
            None => Err(validation_error(stage)),
            Some(text) => Ok(trim_end_line_breaks(&text)),
        },
        _ => Err(reconstruction_error(stage)),
    }
}

/// A fresh plan may be published only under the digest that was reviewed.
pub fn authorize_plan(digest: &str, requested: Option<&str>) -> (result: Result<(), CliError>)
    ensures
        result is Ok <==> (requested matches Some(r) && r@ == digest@),
        result matches Err(e) ==> is_machine(
            e,
            MachineKind::Failure,
            "stale_plan"@,
            "the freshly reconstructed plan does not match the reviewed digest"@,
        ) && has_text_detail(e, "reason"@, "planDigest"@),
{
    if let Some(requested) = requested {
        if crate::text_compare::same_text(requested, digest) {
            return Ok(());
        }
    }
    Err(
        machine_failure(
            "stale_plan",
            "the freshly reconstructed plan does not match the reviewed digest",
            detail("reason", "planDigest"),
        ),
    )
}

/// The error of a source repository that cannot be identified, with `message`.
pub open spec fn is_repository_unavailable(error: CliError, message: Seq<char>) -> bool {
    is_machine(error, MachineKind::Failure, "repository_unavailable"@, message) && details_of(error).len() == 0
}

/// The common Git directory of the source repository, from `git rev-parse
/// --path-format=absolute --git-common-dir`, before it is made canonical: the output as
/// UTF-8 without the line breaks that end it.
pub fn source_repository_path(output: GitOutput) -> (result: Result<String, CliError>)
    ensures
        match output {
            GitOutput::NotRun => result matches Err(e) && is_repository_unavailable(
                e,
                "could not identify the source repository"@,
            ),
            GitOutput::Failed => result matches Err(e) && is_machine(
                e,
                MachineKind::Failure,
                "repository_not_found"@,
                "the current directory is not inside a Git repository"@,
            ) && details_of(e).len() == 0,
            GitOutput::Succeeded(bytes) => if valid_utf8(bytes@) {
                result matches Ok(path) && path@ == trim_line_ends(
                    decode_utf8(bytes@),
                )
            } else {
                result matches Err(e) && is_repository_unavailable(e, "the source repository path is not valid UTF-8"@)
            },
        },
{
    match output {
        GitOutput::NotRun => Err(
            machine_failure("repository_unavailable", "could not identify the source repository", Vec::new()),
        ),
        GitOutput::Failed => Err(
            machine_failure(
                "repository_not_found",
                "the current directory is not inside a Git repository",
                Vec::new(),
            ),
        ),
        GitOutput::Succeeded(bytes) => match utf8_text(bytes) {
            Some(text) => Ok(trim_end_line_breaks(text.as_str())),
            None => Err(
                machine_failure(
                    "repository_unavailable",
                    "the source repository path is not valid UTF-8",
                    Vec::new(),
                ),
            ),
        },
    }
}

/// The identity of the source repository: its canonical common Git directory, which
/// must exist and be UTF-8 (`None` for a path that could not be made canonical, `Some(None)`
/// for one that is not UTF-8).
pub fn repository_identity(canonical: Option<Option<String>>) -> (result: Result<String, CliError>)
    ensures
        match canonical {
            Some(Some(path)) => result == Ok::<String, CliError>(path),
            Some(None) => result matches Err(e) && is_repository_unavailable(
                e,
                "the source repository path is not valid UTF-8"@,
            ),
            None => result matches Err(e) && is_repository_unavailable(e, "could not identify the source repository"@),
        },
{
    match canonical {
        Some(Some(path)) => Ok(path),
        Some(None) => Err(
            machine_failure("repository_unavailable", "the source repository path is not valid UTF-8", Vec::new()),
        ),
        None => Err(
            machine_failure("repository_unavailable", "could not identify the source repository", Vec::new()),
        ),
    }
}

/// The variables that would point Git at another repository than the source.
pub open spec fn location_variables() -> Seq<Seq<char>> {
    seq![
        "GIT_ALTERNATE_OBJECT_DIRECTORIES"@,
        "GIT_COMMON_DIR"@,
        "GIT_CONFIG_COUNT"@,
        "GIT_CONFIG_PARAMETERS"@,
        "GIT_DIR"@,
        "GIT_GRAFT_FILE"@,
        "GIT_INDEX_FILE"@,
        "GIT_OBJECT_DIRECTORY"@,
        "GIT_PREFIX"@,
        "GIT_QUARANTINE_PATH"@,
        "GIT_SHALLOW_FILE"@,
        "GIT_WORK_TREE"@,
    ]
}

/// The variables that would also carry identity, dates or configuration into the
/// isolated repository.
pub open spec fn isolation_variables() -> Seq<Seq<char>> {
    seq![
        "GIT_AUTHOR_DATE"@,
        "GIT_AUTHOR_EMAIL"@,
        "GIT_AUTHOR_NAME"@,
        "GIT_COMMITTER_DATE"@,
        "GIT_COMMITTER_EMAIL"@,
        "GIT_COMMITTER_NAME"@,
        "GIT_CONFIG"@,
        "GIT_CONFIG_COUNT"@,
        "GIT_CONFIG_GLOBAL"@,
        "GIT_CONFIG_NOSYSTEM"@,
        "GIT_CONFIG_PARAMETERS"@,
        "GIT_CONFIG_SYSTEM"@,
        "GIT_EXEC_PATH"@,
    ]
}

/// The environment variables removed from every Git command run in the source
/// repository.
pub fn repository_location_variables() -> (names: Vec<&'static str>)
    ensures
        names@.map_values(|n: &str| n@) == location_variables(),
{
    let names = vec![
        "GIT_ALTERNATE_OBJECT_DIRECTORIES",
        "GIT_COMMON_DIR",
        "GIT_CONFIG_COUNT",
        "GIT_CONFIG_PARAMETERS",
        "GIT_DIR",
        "GIT_GRAFT_FILE",
        "GIT_INDEX_FILE",
        "GIT_OBJECT_DIRECTORY",
        "GIT_PREFIX",
        "GIT_QUARANTINE_PATH",
        "GIT_SHALLOW_FILE",
        "GIT_WORK_TREE",
    ];
    proof {
        assert(names@.map_values(|n: &str| n@) =~= location_variables());
    }
    names
}

/// The environment variables removed from every Git command run in the isolated
/// repository: those of the source's location, then those of identity and configuration.
pub fn isolated_environment_variables() -> (names: Vec<&'static str>)
    ensures
        names@.map_values(|n: &str| n@) == location_variables() + isolation_variables(),
{
    let mut names = repository_location_variables();
    let extra = vec![
        "GIT_AUTHOR_DATE",
        "GIT_AUTHOR_EMAIL",
        "GIT_AUTHOR_NAME",
        "GIT_COMMITTER_DATE",
        "GIT_COMMITTER_EMAIL",
        "GIT_COMMITTER_NAME",
        "GIT_CONFIG",
        "GIT_CONFIG_COUNT",
        "GIT_CONFIG_GLOBAL",
        "GIT_CONFIG_NOSYSTEM",
        "GIT_CONFIG_PARAMETERS",
        "GIT_CONFIG_SYSTEM",
        "GIT_EXEC_PATH",
    ];
    let ghost start = names@;
    let mut i: usize = 0;
    while i < extra.len()
        invariant
            i <= extra@.len(),
            extra@.map_values(|n: &str| n@) == isolation_variables(),
            names@ == start + extra@.take(i as int),
        decreases extra.len() - i,
    {
        names.push(extra[i]);
        i = i + 1;
        proof {
            assert(names@ =~= start + extra@.take(i as int));
        }
    }
    proof {
        assert(extra@.map_values(|n: &str| n@) =~= isolation_variables());
        assert(extra@.take(extra@.len() as int) =~= extra@);
        assert(names@.map_values(|n: &str| n@) =~= start.map_values(|n: &str| n@) + extra@.map_values(|n: &str| n@));
    }
    names
}

} // verus!
