//! The decisions around a resumed preview and the publication of a sealed session.

use vstd::prelude::*;

use crate::error::{machine_failure, CliError, DetailValue, MachineKind};
use crate::reconstruction::{Reconstruction, ReconstructionConflict};
use crate::restack::{
    conflicted_progress, failed_push_outcome, has_text_detail, is_machine, is_resumable_position, record_conflict,
    seal_progress, sealed_progress, stale_session_error, PublicationOutcome, SessionProgress,
};
use crate::restack_errors::{conflict_error, details_of, is_text_entry, is_number_entry, is_texts_entry};
use crate::session::SessionStatus;
use crate::text::literal;
use crate::text_compare::same_text;

verus! {

/// The digests of the fetch and push endpoints of a remote.
#[derive(Clone, Debug)]
pub struct RemoteEndpoints {
    pub fetch_sha256: String,
    pub push_sha256: String,
}

/// How a resumed preview ended.
#[derive(Clone, Debug)]
pub enum ResumedPreview {
    /// A later feature conflicted; the session stays resumable under the same token.
    /// `work_area` is `None` when its path is not UTF-8.
    Conflict { branch: String, unresolved_paths: Vec<String>, work_area: Option<String>, expires_at: u64 },
    /// Every feature merged and the session is sealed around its plan.
    Sealed,
}

/// The error of a resumed preview that paused again on `branch`: it carries the token to
/// resume with, or says that the work area's path is not UTF-8.
pub open spec fn is_resumed_conflict_error(
    e: CliError,
    branch: Seq<char>,
    unresolved_paths: Seq<String>,
    work_area: Option<String>,
    expires_at: u64,
    token: Seq<char>,
) -> bool {
    match work_area {
        None => is_machine(
            e,
            MachineKind::Failure,
            "session_unavailable"@,
            "the restack work area path is not valid UTF-8"@,
        ),
        Some(area) => is_machine(
            e,
            MachineKind::Failure,
            "reconstruction_conflict"@,
            "the restack preview has unresolved conflicts"@,
        ) && details_of(e).len() == 5 && is_text_entry(details_of(e)[0], "branch"@, branch)
            && is_number_entry(details_of(e)[1], "expiresAt"@, expires_at) && is_text_entry(
            details_of(e)[2],
            "resumeToken"@,
            token,
        ) && is_texts_entry(details_of(e)[3], "unresolvedPaths"@, unresolved_paths) && is_text_entry(
            details_of(e)[4],
            "workArea"@,
            area@,
        ),
    }
}

/// A resumed preview reports a new conflict as an error carrying the token to resume
/// with; a sealed session has its plan written (`Ok`).
pub fn resume_preview(outcome: ResumedPreview, token: &str) -> (result: Result<(), CliError>)
    ensures
        outcome is Sealed ==> result is Ok,
        outcome matches ResumedPreview::Conflict { branch, unresolved_paths, work_area, expires_at }
            ==> (result matches Err(e) && is_resumed_conflict_error(
            e,
            branch@,
            unresolved_paths@,
            work_area,
            expires_at,
            token@,
        )),
{
    match outcome {
        ResumedPreview::Conflict { branch, unresolved_paths, work_area, expires_at } => {
            let area = match &work_area {
                Some(area) => Some(area.as_str()),
                None => None,
            };
            Err(conflict_error(&branch, unresolved_paths, token, area, expires_at))
        },
        ResumedPreview::Sealed => Ok(()),
    }
}

/// Only a sealed session can be published.
pub fn check_publishable(status: SessionStatus) -> (result: Result<(), CliError>)
    ensures
        status == SessionStatus::Sealed <==> result is Ok,
        result matches Err(e) ==> is_machine(
            e,
            MachineKind::Failure,
            "stale_session"@,
            "the restack session does not match this invocation"@,
        ) && has_text_detail(e, "reason"@, "sessionStatus"@),
{
    proof {
        reveal_strlit("sessionStatus");
    }
    if status != SessionStatus::Sealed {
        return Err(stale_session_error("sessionStatus"));
    }
    Ok(())
}

/// The error of a remote that does not resolve to one safe endpoint.
pub fn remote_unavailable_error(remote: &str) -> (error: CliError)
    ensures
        is_machine(
            error,
            MachineKind::Failure,
            "remote_unavailable"@,
            "could not resolve one safe endpoint for the selected remote"@,
        ),
        has_text_detail(error, "remote"@, remote@),
{
    let mut details: Vec<(String, DetailValue)> = Vec::new();
    details.push((literal("remote"), DetailValue::Text(literal(remote))));
    machine_failure(
        "remote_unavailable",
        "could not resolve one safe endpoint for the selected remote",
        details,
    )
}

/// Publication goes only to the endpoints that were reviewed.
pub fn check_remote_endpoints(reviewed: &RemoteEndpoints, resolved: &RemoteEndpoints) -> (result:
    Result<(), CliError>)
    ensures
        result is Ok <==> (reviewed.fetch_sha256@ == resolved.fetch_sha256@ && reviewed.push_sha256@
            == resolved.push_sha256@),
        result matches Err(e) ==> is_machine(
            e,
            MachineKind::Failure,
            "stale_plan"@,
            "the reviewed remote endpoint changed before publication"@,
        ) && has_text_detail(e, "reason"@, "remoteEndpoint"@),
{
    if same_text(&reviewed.fetch_sha256, &resolved.fetch_sha256) && same_text(
        &reviewed.push_sha256,
        &resolved.push_sha256,
    ) {
        return Ok(());
    }
    let mut details: Vec<(String, DetailValue)> = Vec::new();
    details.push((literal("reason"), DetailValue::Text(literal("remoteEndpoint"))));
    proof {
        reveal_strlit("reason");
        reveal_strlit("remoteEndpoint");
    }
    Err(
        machine_failure(
            "stale_plan",
            "the reviewed remote endpoint changed before publication",
            details,
        ),
    )
}

/// What happens to the session after a push that reported failure.
#[derive(Clone, Copy, Debug, PartialEq, Eq, Structural)]
pub enum SessionAction {
    /// The push was rejected: the session is sealed again for a validated retry.
    RestoreSealed,
    /// The remote already shows the previewed commit: the session is consumed.
    Consume,
    /// Nothing can be proved: the session is left as it is.
    Keep,
}

fn environment_detail(environment: &str) -> (details: Vec<(String, DetailValue)>)
    ensures
        details@.len() == 1,
        is_text_entry(details@[0], "environment"@, environment@),
{
    let mut details: Vec<(String, DetailValue)> = Vec::new();
    details.push((literal("environment"), DetailValue::Text(literal(environment))));
    details
}

/// After a push that reported failure, the remote environment ref decides: unchanged
/// means rejected (the session is sealed again and the rejection reported), the previewed
/// commit means published (the session is consumed), anything else is reported as unknown.
pub fn failed_push_decision(
    observed: Option<&str>,
    environment_tip: &str,
    preview_commit: &str,
    environment: &str,
) -> (decision: (SessionAction, Result<(), CliError>))
    ensures
        ({
            let outcome = match observed {
                Some(oid) => if oid@ == environment_tip@ {
                    PublicationOutcome::Rejected
                } else if oid@ == preview_commit@ {
                    PublicationOutcome::Published
                } else {
                    PublicationOutcome::Unknown
                },
                None => PublicationOutcome::Unknown,
            };
            match outcome {
                PublicationOutcome::Rejected => decision.0 == SessionAction::RestoreSealed && (
                decision.1 matches Err(e) && is_machine(
                    e,
                    MachineKind::Failure,
                    "push_rejected"@,
                    "the remote rejected the exact leased environment update"@,
                ) && details_of(e).len() == 1 && is_text_entry(details_of(e)[0], "environment"@, environment@)),
                PublicationOutcome::Published => decision.0 == SessionAction::Consume && decision.1 is Ok,
                PublicationOutcome::Unknown => decision.0 == SessionAction::Keep && (decision.1 matches Err(e)
                    && is_machine(
                    e,
                    MachineKind::Failure,
                    "push_outcome_unknown"@,
                    "could not prove whether the leased environment update completed"@,
                ) && details_of(e).len() == 1 && is_text_entry(details_of(e)[0], "environment"@, environment@)),
            }
        }),
{
    match failed_push_outcome(observed, environment_tip, preview_commit) {
        PublicationOutcome::Rejected => (
            SessionAction::RestoreSealed,
            Err(
                machine_failure(
                    "push_rejected",
                    "the remote rejected the exact leased environment update",
                    environment_detail(environment),
                ),
            ),
        ),
        PublicationOutcome::Published => (SessionAction::Consume, Ok(())),
        PublicationOutcome::Unknown => (
            SessionAction::Keep,
            Err(
                machine_failure(
                    "push_outcome_unknown",
                    "could not prove whether the leased environment update completed",
                    environment_detail(environment),
                ),
            ),
        ),
    }
}


/// What the rebuild of a resumed session ended with.
#[derive(Clone, Debug)]
pub enum RebuildOutcome {
    /// A later retained branch conflicted.
    Conflict(ReconstructionConflict),
    /// Every retained branch merged; the plan built from the rebuild has this digest.
    Complete { reconstruction: Reconstruction, plan_digest: String },
}

/// Ends a resumed preview with what its rebuild gave. A new conflict records the session
/// as conflicted at that branch, with the merges before it and the head they left, and
/// is reported with the same token; a completed rebuild seals the session around its
/// plan: the rebuild's merges, tree and new tip, and the plan's digest.
pub fn finish_resumed_preview(
    progress: &mut SessionProgress,
    outcome: RebuildOutcome,
    token: &str,
    work_area: Option<String>,
    expires_at: u64,
) -> (result: Result<(), CliError>)
    ensures
        match outcome {
            RebuildOutcome::Conflict(c) => {
                &&& *final(progress) == conflicted_progress(
                    *old(progress),
                    c.merges@.len() as usize,
                    c.feature_index,
                    c.expected_head,
                    c.feature.tip,
                )
                &&& result matches Err(e) && is_resumed_conflict_error(
                    e,
                    c.feature.name@,
                    c.unresolved_paths@,
                    work_area,
                    expires_at,
                    token@,
                )
            },
            RebuildOutcome::Complete { reconstruction, plan_digest } => {
                &&& *final(progress) == sealed_progress(
                    *old(progress),
                    reconstruction.merges@.len() as usize,
                    reconstruction.preview_commit,
                    reconstruction.final_tree,
                    plan_digest,
                )
                &&& result is Ok
            },
        },
{
    match outcome {
        RebuildOutcome::Conflict(conflict) => {
            let ReconstructionConflict { merges, feature_index, expected_head, feature, unresolved_paths } =
                conflict;
            record_conflict(progress, merges.len(), feature_index, expected_head, feature.tip);
            resume_preview(
                ResumedPreview::Conflict { branch: feature.name, unresolved_paths, work_area, expires_at },
                token,
            )
        },
        RebuildOutcome::Complete { reconstruction, plan_digest } => {
            let Reconstruction { merges, final_tree, preview_commit } = reconstruction;
            seal_progress(progress, merges.len(), preview_commit, final_tree, plan_digest);
            resume_preview(ResumedPreview::Sealed, token)
        },
    }
}

/// A resumed session whose rebuild stops again at a later retained branch stays
/// resumable there under the same progress record.
pub proof fn lemma_resumed_conflict_stays_resumable(progress: SessionProgress, conflict: ReconstructionConflict)
    requires
        conflict.feature_index == conflict.merges@.len(),
        conflict.feature_index < progress.retained@.len(),
        conflict.feature.tip@ == progress.retained@[conflict.feature_index as int].tip@,
    ensures
        ({
            let after = conflicted_progress(
                progress,
                conflict.merges@.len() as usize,
                conflict.feature_index,
                conflict.expected_head,
                conflict.feature.tip,
            );
            after.status == SessionStatus::Conflicted && is_resumable_position(after)
        }),
{
}

} // verus!
