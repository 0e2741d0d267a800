//! The machine errors of unreadable environment histories, refused removals, plans that
//! do not match their reconstruction, and failures of the isolated work area.

use vstd::prelude::*;

use crate::error::{machine_failure, machine_usage, CliError, DetailValue, MachineKind};
use crate::restack::is_machine;
use crate::terminal_text::{escape, escaped};
use crate::text::{literal, push_str};

verus! {

/// Why an environment's history cannot be read as a sequence of feature merges.
#[derive(Clone, Debug)]
pub enum InventoryError {
    MissingCommit { commit: String },
    DirectCommit { commit: String },
    FastForwardHistory { commit: String, branches: Vec<String> },
    OctopusMerge { merge_commit: String, parents: u64 },
    DeletedFeatureRef { merge_commit: String, feature_parent: String },
    AmbiguousFeatureRefs { merge_commit: String, feature_parent: String, branches: Vec<String> },
}

/// Why a feature cannot be removed from a restack.
#[derive(Clone, Debug)]
pub enum SelectionError {
    Duplicate { branch: String },
    Graduated { branch: String },
    IndirectOnly { branch: String },
    Unknown { branch: String },
    RetainedDependency { branch: String, dependents: Vec<String> },
}

/// How a reconstruction differs from the plan it was made for.
#[derive(Clone, Debug)]
pub enum PlanError {
    MergeCount { expected: u64, actual: u64 },
    MergeIdentity { index: u64, expected: String },
    OrphanedCommits { expected: u64, actual: u64, mismatch: String },
}

/// A details entry `key: value` with a text value.
pub open spec fn is_text_entry(entry: (String, DetailValue), key: Seq<char>, value: Seq<char>) -> bool {
    entry.0@ == key && (entry.1 matches DetailValue::Text(t) && t@ == value)
}

/// A details entry `key: n` with a number value.
pub open spec fn is_number_entry(entry: (String, DetailValue), key: Seq<char>, n: u64) -> bool {
    entry.0@ == key && entry.1 == DetailValue::Number(n)
}

/// A details entry `key: [values]` with a list of texts.
pub open spec fn is_texts_entry(entry: (String, DetailValue), key: Seq<char>, values: Seq<String>) -> bool {
    entry.0@ == key && (entry.1 matches DetailValue::Texts(v) && v@ == values)
}

/// The details of a machine error; empty for any other error.
pub open spec fn details_of(error: CliError) -> Seq<(String, DetailValue)> {
    match error {
        CliError::Machine(m) => m.details@,
        _ => Seq::empty(),
    }
}

fn text_entry(key: &str, value: &str) -> (entry: (String, DetailValue))
    ensures
        is_text_entry(entry, key@, value@),
{
    (literal(key), DetailValue::Text(literal(value)))
}

fn number_entry(key: &str, n: u64) -> (entry: (String, DetailValue))
    ensures
        is_number_entry(entry, key@, n),
{
    (literal(key), DetailValue::Number(n))
}

fn texts_entry(key: &str, values: Vec<String>) -> (entry: (String, DetailValue))
    ensures
        is_texts_entry(entry, key@, values@),
{
    (literal(key), DetailValue::Texts(values))
}

/// The message of an unreadable history.
pub open spec fn unsupported_history_message() -> Seq<char> {
    "the environment history cannot be reconstructed without guessing"@
}

/// The details of an unreadable history, in ascending key order.
pub open spec fn inventory_details(error: InventoryError, details: Seq<(String, DetailValue)>) -> bool {
    match error {
        InventoryError::MissingCommit { commit } => details.len() == 2 && is_text_entry(
            details[0],
            "commit"@,
            commit@,
        ) && is_text_entry(details[1], "kind"@, "missingCommit"@),
        InventoryError::DirectCommit { commit } => details.len() == 2 && is_text_entry(
            details[0],
            "commit"@,
            commit@,
        ) && is_text_entry(details[1], "kind"@, "directCommit"@),
        InventoryError::FastForwardHistory { commit, branches } => details.len() == 3
            && is_texts_entry(details[0], "branches"@, branches@) && is_text_entry(
            details[1],
            "commit"@,
            commit@,
        ) && is_text_entry(details[2], "kind"@, "fastForwardHistory"@),
        InventoryError::OctopusMerge { merge_commit, parents } => details.len() == 3
            && is_text_entry(details[0], "kind"@, "octopusMerge"@) && is_text_entry(
            details[1],
            "mergeCommit"@,
            merge_commit@,
        ) && is_number_entry(details[2], "parents"@, parents),
        InventoryError::DeletedFeatureRef { merge_commit, feature_parent } => details.len() == 3
            && is_text_entry(details[0], "featureParent"@, feature_parent@) && is_text_entry(
            details[1],
            "kind"@,
            "deletedFeatureRef"@,
        ) && is_text_entry(details[2], "mergeCommit"@, merge_commit@),
        InventoryError::AmbiguousFeatureRefs { merge_commit, feature_parent, branches } =>
            details.len() == 4 && is_texts_entry(details[0], "branches"@, branches@)
            && is_text_entry(details[1], "featureParent"@, feature_parent@) && is_text_entry(
            details[2],
            "kind"@,
            "ambiguousFeatureRefs"@,
        ) && is_text_entry(details[3], "mergeCommit"@, merge_commit@),
    }
}

/// The machine error of a history that cannot be read without guessing.
pub fn inventory_error(error: InventoryError) -> (result: CliError)
    ensures
        is_machine(result, MachineKind::Failure, "unsupported_history"@, unsupported_history_message()),
        inventory_details(error, details_of(result)),
{
    let mut details: Vec<(String, DetailValue)> = Vec::new();
    match error {
        InventoryError::MissingCommit { commit } => {
            details.push(text_entry("commit", &commit));
            details.push(text_entry("kind", "missingCommit"));
        },
        InventoryError::DirectCommit { commit } => {
            details.push(text_entry("commit", &commit));
            details.push(text_entry("kind", "directCommit"));
        },
        InventoryError::FastForwardHistory { commit, branches } => {
            details.push(texts_entry("branches", branches));
            details.push(text_entry("commit", &commit));
            details.push(text_entry("kind", "fastForwardHistory"));
        },
        InventoryError::OctopusMerge { merge_commit, parents } => {
            details.push(text_entry("kind", "octopusMerge"));
            details.push(text_entry("mergeCommit", &merge_commit));
            details.push(number_entry("parents", parents));
        },
        InventoryError::DeletedFeatureRef { merge_commit, feature_parent } => {
            details.push(text_entry("featureParent", &feature_parent));
            details.push(text_entry("kind", "deletedFeatureRef"));
            details.push(text_entry("mergeCommit", &merge_commit));
        },
        InventoryError::AmbiguousFeatureRefs { merge_commit, feature_parent, branches } => {
            details.push(texts_entry("branches", branches));
            details.push(text_entry("featureParent", &feature_parent));
            details.push(text_entry("kind", "ambiguousFeatureRefs"));
            details.push(text_entry("mergeCommit", &merge_commit));
        },
    }
    machine_failure(
        "unsupported_history",
        "the environment history cannot be reconstructed without guessing",
        details,
    )
}

/// The kind name of a refused removal.
pub open spec fn selection_kind(error: SelectionError) -> Seq<char> {
    match error {
        SelectionError::Duplicate { .. } => "duplicate"@,
        SelectionError::Graduated { .. } => "graduated"@,
        SelectionError::IndirectOnly { .. } => "indirectOnly"@,
        SelectionError::Unknown { .. } => "unknown"@,
        SelectionError::RetainedDependency { .. } => "retainedDependency"@,
    }
}

/// The branch a refused removal names.
pub open spec fn selection_branch(error: SelectionError) -> Seq<char> {
    match error {
        SelectionError::Duplicate { branch } => branch@,
        SelectionError::Graduated { branch } => branch@,
        SelectionError::IndirectOnly { branch } => branch@,
        SelectionError::Unknown { branch } => branch@,
        SelectionError::RetainedDependency { branch, .. } => branch@,
    }
}

/// The usage error of a removal that cannot be made: its kind, the branch, and the
/// retained features that depend on it (none unless a dependency forbids it).
pub fn selection_error(error: SelectionError) -> (result: CliError)
    ensures
        is_machine(
            result,
            MachineKind::Usage,
            "invalid_removal"@,
            "removeBranches contains a feature that cannot be removed"@,
        ),
        details_of(result).len() == 3,
        is_text_entry(details_of(result)[0], "branch"@, selection_branch(error)),
        error matches SelectionError::RetainedDependency { dependents, .. } ==> is_texts_entry(
            details_of(result)[1],
            "dependents"@,
            dependents@,
        ),
        !(error is RetainedDependency) ==> is_texts_entry(details_of(result)[1], "dependents"@, Seq::empty()),
        is_text_entry(details_of(result)[2], "kind"@, selection_kind(error)),
{
    let (kind, branch, dependents): (&str, String, Vec<String>) = match error {
        SelectionError::Duplicate { branch } => ("duplicate", branch, Vec::new()),
        SelectionError::Graduated { branch } => ("graduated", branch, Vec::new()),
        SelectionError::IndirectOnly { branch } => ("indirectOnly", branch, Vec::new()),
        SelectionError::Unknown { branch } => ("unknown", branch, Vec::new()),
        SelectionError::RetainedDependency { branch, dependents } => (
            "retainedDependency",
            branch,
            dependents,
        ),
    };
    proof {
        reveal_strlit("duplicate");
        reveal_strlit("graduated");
        reveal_strlit("indirectOnly");
        reveal_strlit("unknown");
        reveal_strlit("retainedDependency");
    }
    let mut details: Vec<(String, DetailValue)> = Vec::new();
    details.push(text_entry("branch", &branch));
    details.push(texts_entry("dependents", dependents));
    details.push(text_entry("kind", kind));
    machine_usage(
        "invalid_removal",
        "removeBranches contains a feature that cannot be removed",
        details,
    )
}

/// The details of a plan mismatch, in ascending key order.
pub open spec fn plan_details(error: PlanError, details: Seq<(String, DetailValue)>) -> bool {
    match error {
        PlanError::MergeCount { expected, actual } => details.len() == 3 && is_number_entry(
            details[0],
            "actual"@,
            actual,
        ) && is_number_entry(details[1], "expected"@, expected) && is_text_entry(
            details[2],
            "stage"@,
            "mergeCount"@,
        ),
        PlanError::MergeIdentity { index, expected } => details.len() == 3 && is_text_entry(
            details[0],
            "expected"@,
            expected@,
        ) && is_number_entry(details[1], "index"@, index) && is_text_entry(
            details[2],
            "stage"@,
            "mergeIdentity"@,
        ),
        PlanError::OrphanedCommits { expected, actual, mismatch } => details.len() == 4
            && is_number_entry(details[0], "actual"@, actual) && is_number_entry(
            details[1],
            "expected"@,
            expected,
        ) && is_text_entry(details[2], "mismatch"@, mismatch@) && is_text_entry(
            details[3],
            "stage"@,
            "orphanedCommits"@,
        ),
    }
}

/// The machine error of a reconstruction that does not match its plan.
pub fn plan_error(error: PlanError) -> (result: CliError)
    ensures
        is_machine(
            result,
            MachineKind::Failure,
            "validation_failed"@,
            "isolated reconstruction did not match the selected plan"@,
        ),
        plan_details(error, details_of(result)),
{
    let mut details: Vec<(String, DetailValue)> = Vec::new();
    match error {
        PlanError::MergeCount { expected, actual } => {
            details.push(number_entry("actual", actual));
            details.push(number_entry("expected", expected));
            details.push(text_entry("stage", "mergeCount"));
        },
        PlanError::MergeIdentity { index, expected } => {
            details.push(text_entry("expected", &expected));
            details.push(number_entry("index", index));
            details.push(text_entry("stage", "mergeIdentity"));
        },
        PlanError::OrphanedCommits { expected, actual, mismatch } => {
            details.push(number_entry("actual", actual));
            details.push(number_entry("expected", expected));
            details.push(text_entry("mismatch", &mismatch));
            details.push(text_entry("stage", "orphanedCommits"));
        },
    }
    machine_failure(
        "validation_failed",
        "isolated reconstruction did not match the selected plan",
        details,
    )
}

/// The error of a work area that could not be created.
pub fn isolated_setup_error() -> (result: CliError)
    ensures
        is_machine(
            result,
            MachineKind::Failure,
            "isolated_setup_failed"@,
            "could not create the isolated restack work area"@,
        ),
        details_of(result).len() == 0,
{
    machine_failure(
        "isolated_setup_failed",
        "could not create the isolated restack work area",
        Vec::new(),
    )
}

/// The error of a Git step of the reconstruction that failed.
pub fn reconstruction_error(stage: &str) -> (result: CliError)
    ensures
        is_machine(
            result,
            MachineKind::Failure,
            "reconstruction_failed"@,
            "Git could not complete isolated reconstruction"@,
        ),
        details_of(result).len() == 1,
        is_text_entry(details_of(result)[0], "stage"@, stage@),
{
    let mut details: Vec<(String, DetailValue)> = Vec::new();
    details.push(text_entry("stage", stage));
    machine_failure("reconstruction_failed", "Git could not complete isolated reconstruction", details)
}

/// The error of a reconstruction result that failed validation.
pub fn validation_error(stage: &str) -> (result: CliError)
    ensures
        is_machine(
            result,
            MachineKind::Failure,
            "validation_failed"@,
            "isolated reconstruction failed validation"@,
        ),
        details_of(result).len() == 1,
        is_text_entry(details_of(result)[0], "stage"@, stage@),
{
    let mut details: Vec<(String, DetailValue)> = Vec::new();
    details.push(text_entry("stage", stage));
    machine_failure("validation_failed", "isolated reconstruction failed validation", details)
}

/// The error of a preview that stopped at a conflict: the branch, the paths left to
/// resolve, the token to resume with, the work area and when the session expires. A
/// work area whose path is not UTF-8 (`None`) makes the session unavailable instead.
pub fn conflict_error(
    branch: &str,
    unresolved_paths: Vec<String>,
    token: &str,
    work_area: Option<&str>,
    expires_at: u64,
) -> (result: CliError)
    ensures
        work_area is None ==> is_machine(
            result,
            MachineKind::Failure,
            "session_unavailable"@,
            "the restack work area path is not valid UTF-8"@,
        ) && details_of(result).len() == 0,
        work_area matches Some(area) ==> is_machine(
            result,
            MachineKind::Failure,
            "reconstruction_conflict"@,
            "the restack preview has unresolved conflicts"@,
        ) && details_of(result).len() == 5 && is_text_entry(details_of(result)[0], "branch"@, branch@)
            && is_number_entry(details_of(result)[1], "expiresAt"@, expires_at) && is_text_entry(
            details_of(result)[2],
            "resumeToken"@,
            token@,
        ) && is_texts_entry(details_of(result)[3], "unresolvedPaths"@, unresolved_paths@)
            && is_text_entry(details_of(result)[4], "workArea"@, area@),
{
    match work_area {
        None => machine_failure(
            "session_unavailable",
            "the restack work area path is not valid UTF-8",
            Vec::new(),
        ),
        Some(area) => {
            let mut details: Vec<(String, DetailValue)> = Vec::new();
            details.push(text_entry("branch", branch));
            details.push(number_entry("expiresAt", expires_at));
            details.push(text_entry("resumeToken", token));
            details.push(texts_entry("unresolvedPaths", unresolved_paths));
            details.push(text_entry("workArea", area));
            machine_failure(
                "reconstruction_conflict",
                "the restack preview has unresolved conflicts",
                details,
            )
        },
    }
}

/// `values` escaped one by one and joined by `", "`.
pub open spec fn escaped_list(values: Seq<String>) -> Seq<char>
    decreases values.len(),
{
    if values.len() == 0 {
        Seq::empty()
    } else if values.len() == 1 {
        escaped(values[0]@)
    } else {
        escaped_list(values.drop_last()) + ", "@ + escaped(values.last()@)
    }
}

/// What the review screen says of a removal it refused.
pub open spec fn selection_error_text(error: SelectionError) -> Seq<char> {
    match error {
        SelectionError::RetainedDependency { branch, dependents } => "Cannot remove "@ + escaped(
            branch@,
        ) + " while retained by "@ + escaped_list(dependents@) + "."@,
        _ => "Cannot remove "@ + escaped(selection_branch(error)) + " from this inventory."@,
    }
}

/// Appends `values`, each escaped, joined by `", "`.
pub(crate) fn push_escaped_list(text: &mut String, values: &Vec<String>)
    ensures
        final(text)@ == old(text)@ + escaped_list(values@),
{
    let ghost start = text@;
    let mut i: usize = 0;
    while i < values.len()
        invariant
            i <= values.len(),
            text@ == start + escaped_list(values@.take(i as int)),
        decreases values.len() - i,
    {
        proof {
            assert(values@.take(i + 1).drop_last() =~= values@.take(i as int));
        }
        if i > 0 {
            push_str(text, ", ");
        }
        push_str(text, &escape(&values[i]));
        i = i + 1;
        proof {
            if i == 1 {
                assert(escaped_list(values@.take(0)) =~= Seq::<char>::empty());
            }
            assert(text@ =~= start + escaped_list(values@.take(i as int)));
        }
    }
    proof {
        assert(values@.take(values@.len() as int) =~= values@);
    }
}

/// The review screen's message for a refused removal, with every branch name escaped.
pub fn selection_error_message(error: &SelectionError) -> (message: String)
    ensures
        message@ == selection_error_text(*error),
{
    let mut message = literal("Cannot remove ");
    match error {
        SelectionError::RetainedDependency { branch, dependents } => {
            push_str(&mut message, &escape(branch));
            push_str(&mut message, " while retained by ");
            push_escaped_list(&mut message, dependents);
            push_str(&mut message, ".");
        },
        SelectionError::Duplicate { branch }
        | SelectionError::Graduated { branch }
        | SelectionError::IndirectOnly { branch }
        | SelectionError::Unknown { branch } => {
            push_str(&mut message, &escape(branch));
            push_str(&mut message, " from this inventory.");
        },
    }
    message
}

} // verus!
