//! The loop that rebuilds an environment in its work area, as decisions between the Git
//! steps: which retained branch to merge next, what a merge attempt leaves to do, how a
//! committed merge is recorded, and whether the rebuilt head is the expected one.

use vstd::prelude::*;

use crate::error::CliError;
use crate::git_output::{is_reconstruction_error, is_validation_error, resolved_paths, rerere_outcome, string_views};
use crate::merge_steps::{check_final_tree, check_unchanged_base};
use crate::plan_summary::MergeResolution;
use crate::restack::BranchIdentity;
use crate::restack_errors::reconstruction_error;
use crate::text::literal;

verus! {

/// A merge committed during a rebuild.
#[derive(Clone, Debug)]
pub struct MergeOutcome {
    pub branch: String,
    pub tip: String,
    pub commit: String,
    pub tree: String,
    pub resolution: MergeResolution,
}

/// What the rebuild does next.
#[derive(Clone, Copy, Debug, PartialEq, Eq, Structural)]
pub enum ReconstructAction {
    /// Merge the retained branch at this position into the result so far.
    Merge { index: usize },
    /// Every retained branch has been merged.
    Complete,
}

/// The next action of a rebuild that has committed `merged` merges.
pub open spec fn reconstruct_action(retained: Seq<BranchIdentity>, merged: nat) -> ReconstructAction {
    if merged < retained.len() {
        ReconstructAction::Merge { index: merged as usize }
    } else {
        ReconstructAction::Complete
    }
}

/// The merges were made of the retained branches at their reviewed tips, one each, in
/// the retained order.
pub open spec fn follows_retained(merges: Seq<MergeOutcome>, retained: Seq<BranchIdentity>) -> bool {
    &&& merges.len() <= retained.len()
    &&& forall|i: int|
        0 <= i < merges.len() ==> #[trigger] merges[i].branch@ == retained[i].name@ && merges[i].tip@
            == retained[i].tip@
}

/// Merges the next retained branch, or completes when each has been merged.
pub fn next_reconstruct_action(retained: &Vec<BranchIdentity>, merges: &Vec<MergeOutcome>) -> (action:
    ReconstructAction)
    ensures
        action == reconstruct_action(retained@, merges@.len()),
        action is Complete && follows_retained(merges@, retained@) ==> merges@.len() == retained@.len(),
{
    if merges.len() < retained.len() {
        ReconstructAction::Merge { index: merges.len() }
    } else {
        ReconstructAction::Complete
    }
}

/// What a merge attempt of the current branch reported.
#[derive(Clone, Debug)]
pub enum MergeEvent {
    /// Git merged without conflict.
    Merged,
    /// The merge stopped; these paths were reported as conflicted.
    Conflicted { conflicted: Vec<String> },
    /// Recorded resolutions were replayed over `conflicted`; `remaining` still conflict.
    Replayed { conflicted: Vec<String>, remaining: Vec<String> },
}

/// What a merge attempt leaves to do.
#[derive(Clone, Debug)]
pub enum MergeStep {
    /// Replay the recorded resolutions over the conflicts.
    ReplayResolutions,
    /// Stage `stage`, then commit the merge, resolved as `resolution`.
    Commit { resolution: MergeResolution, stage: Vec<String> },
    /// Stop the rebuild: these paths still conflict and need a person.
    Pause { unresolved: Vec<String> },
}

/// Decides what follows a merge attempt: a clean merge is committed; a failed merge
/// with conflicts replays recorded resolutions, and one without fails the rebuild; after
/// the replay the merge is committed when every conflict was resolved, staging the
/// resolved paths, and the rebuild pauses on the paths that remain otherwise.
pub fn merge_step(event: &MergeEvent) -> (result: Result<MergeStep, CliError>)
    ensures
        match *event {
            MergeEvent::Merged => result matches Ok(MergeStep::Commit { resolution, stage })
                && resolution == MergeResolution::Clean && stage@.len() == 0,
            MergeEvent::Conflicted { conflicted } => if conflicted@.len() == 0 {
                result matches Err(e) && is_reconstruction_error(e, "merge"@)
            } else {
                result matches Ok(MergeStep::ReplayResolutions)
            },
            MergeEvent::Replayed { conflicted, remaining } => if conflicted@.len() == 0 {
                result matches Err(e) && is_reconstruction_error(e, "merge"@)
            } else if remaining@.len() == 0 {
                result matches Ok(MergeStep::Commit { resolution, stage }) && resolution
                    == MergeResolution::Reused && string_views(stage@) == resolved_paths(
                    conflicted@,
                    remaining@,
                )
            } else {
                result matches Ok(MergeStep::Pause { unresolved }) && string_views(unresolved@)
                    == string_views(remaining@)
            },
        },
{
    match event {
        MergeEvent::Merged => Ok(MergeStep::Commit { resolution: MergeResolution::Clean, stage: Vec::new() }),
        MergeEvent::Conflicted { conflicted } => {
            if conflicted.len() == 0 {
                Err(reconstruction_error("merge"))
            } else {
                Ok(MergeStep::ReplayResolutions)
            }
        },
        MergeEvent::Replayed { conflicted, remaining } => {
            let (resolved, all_resolved) = rerere_outcome(conflicted, remaining)?;
            if all_resolved {
                Ok(MergeStep::Commit { resolution: MergeResolution::Reused, stage: resolved })
            } else {
                Ok(MergeStep::Pause { unresolved: copy_texts(remaining) })
            }
        },
    }
}

fn copy_texts(texts: &Vec<String>) -> (copy: Vec<String>)
    ensures
        string_views(copy@) == string_views(texts@),
{
    let mut copy: Vec<String> = Vec::new();
    let mut i: usize = 0;
    while i < texts.len()
        invariant
            i <= texts.len(),
            string_views(copy@) =~= string_views(texts@.take(i as int)),
        decreases texts.len() - i,
    {
        let ghost before = copy@;
        copy.push(literal(&texts[i]));
        proof {
            assert(texts@.take(i + 1).drop_last() =~= texts@.take(i as int));
            assert(string_views(copy@) =~= string_views(before).push(texts@[i as int]@));
            assert(string_views(texts@.take(i + 1)) =~= string_views(texts@.take(i as int)).push(texts@[i as int]@));
        }
        i = i + 1;
    }
    proof {
        assert(texts@.take(texts@.len() as int) =~= texts@);
    }
    copy
}

/// Records the merge just committed: it is the merge of the next retained branch at its
/// reviewed tip.
pub fn record_merge(
    merges: &mut Vec<MergeOutcome>,
    retained: &Vec<BranchIdentity>,
    commit: String,
    tree: String,
    resolution: MergeResolution,
)
    requires
        old(merges)@.len() < retained@.len(),
    ensures
        final(merges)@.len() == old(merges)@.len() + 1,
        forall|i: int| 0 <= i < old(merges)@.len() ==> #[trigger] final(merges)@[i] == old(merges)@[i],
        ({
            let added = final(merges)@[old(merges)@.len() as int];
            let branch = retained@[old(merges)@.len() as int];
            &&& added.branch@ == branch.name@
            &&& added.tip@ == branch.tip@
            &&& added.commit == commit
            &&& added.tree == tree
            &&& added.resolution == resolution
        }),
        follows_retained(old(merges)@, retained@) ==> follows_retained(final(merges)@, retained@),
{
    let branch = &retained[merges.len()];
    let outcome = MergeOutcome {
        branch: literal(&branch.name),
        tip: literal(&branch.tip),
        commit,
        tree,
        resolution,
    };
    merges.push(outcome);
}

/// After the last merge, HEAD's tree is the last merge's tree; with no merge at all,
/// HEAD is still the base with the base's tree.
pub fn check_reconstruction_end(
    merges: &Vec<MergeOutcome>,
    final_tree: &str,
    base_tree: &str,
    head: &str,
    base_tip: &str,
) -> (result: Result<(), CliError>)
    ensures
        merges@.len() > 0 ==> (result is Ok <==> merges@.last().tree@ == final_tree@),
        merges@.len() == 0 ==> (result is Ok <==> base_tree@ == final_tree@ && head@ == base_tip@),
        result matches Err(e) ==> is_validation_error(e, "finalTree"@),
{
    if merges.len() > 0 {
        check_final_tree(&merges[merges.len() - 1].tree, final_tree)
    } else {
        check_unchanged_base(base_tree, final_tree, head, base_tip)
    }
}

/// A rebuild that starts from merges that follow the retained branches and records each
/// merge with `record_merge` completes with exactly one merge per retained branch, at its
/// reviewed tip, in the retained order.
pub proof fn lemma_completed_merges_follow_retained(merges: Seq<MergeOutcome>, retained: Seq<BranchIdentity>)
    requires
        follows_retained(merges, retained),
        reconstruct_action(retained, merges.len()) is Complete,
    ensures
        merges.len() == retained.len(),
        forall|i: int|
            0 <= i < retained.len() ==> #[trigger] merges[i].branch@ == retained[i].name@ && merges[i].tip@
                == retained[i].tip@,
{
    assert(merges.len() >= retained.len());
    assert forall|i: int| 0 <= i < retained.len() implies #[trigger] merges[i].branch@ == retained[i].name@
        && merges[i].tip@ == retained[i].tip@ by {
        assert(0 <= i < merges.len());
    }
}


/// The head of the work area after `merges`: the last merge's commit, or the base tip
/// when nothing has been merged.
pub open spec fn head_after(merges: Seq<MergeOutcome>, base_tip: Seq<char>) -> Seq<char> {
    if merges.len() > 0 {
        merges.last().commit@
    } else {
        base_tip
    }
}

/// A rebuild stopped at the conflict of the retained branch at `feature_index`.
#[derive(Clone, Debug)]
pub struct ReconstructionConflict {
    /// The merges committed before the conflict.
    pub merges: Vec<MergeOutcome>,
    pub feature_index: usize,
    /// The work area's head when the merge stopped.
    pub expected_head: String,
    pub feature: BranchIdentity,
    pub unresolved_paths: Vec<String>,
}

/// A completed rebuild.
#[derive(Clone, Debug)]
pub struct Reconstruction {
    pub merges: Vec<MergeOutcome>,
    pub final_tree: String,
    /// The commit that the rebuild leaves as the environment's new tip.
    pub preview_commit: String,
}

/// The conflict of a rebuild that paused on `unresolved` while merging the next retained
/// branch: it names that branch and its position, the merges before it, and the head
/// they left.
pub fn conflict_result(
    retained: &Vec<BranchIdentity>,
    merges: Vec<MergeOutcome>,
    base_tip: &str,
    unresolved: Vec<String>,
) -> (conflict: ReconstructionConflict)
    requires
        merges@.len() < retained@.len(),
        unresolved@.len() > 0,
    ensures
        conflict.feature_index == merges@.len(),
        conflict.feature_index < retained@.len(),
        conflict.merges@ == merges@,
        conflict.feature.name@ == retained@[merges@.len() as int].name@,
        conflict.feature.tip@ == retained@[merges@.len() as int].tip@,
        conflict.expected_head@ == head_after(merges@, base_tip@),
        conflict.unresolved_paths@ == unresolved@,
        conflict.unresolved_paths@.len() > 0,
{
    let index = merges.len();
    let branch = &retained[index];
    let feature = BranchIdentity { name: literal(&branch.name), tip: literal(&branch.tip) };
    let expected_head = if index > 0 {
        literal(&merges[index - 1].commit)
    } else {
        literal(base_tip)
    };
    ReconstructionConflict { merges, feature_index: index, expected_head, feature, unresolved_paths: unresolved }
}

/// The result of a rebuild whose every merge is in `merges`: the new tip is the last
/// merge's commit, or the base tip when no branch was merged.
pub fn complete_reconstruction(merges: Vec<MergeOutcome>, base_tip: &str, final_tree: String) -> (result:
    Reconstruction)
    ensures
        result.merges@ == merges@,
        result.final_tree == final_tree,
        result.preview_commit@ == head_after(merges@, base_tip@),
{
    let preview_commit = if merges.len() > 0 {
        literal(&merges[merges.len() - 1].commit)
    } else {
        literal(base_tip)
    };
    Reconstruction { merges, final_tree, preview_commit }
}

/// A rebuild whose merges were recorded with `record_merge` from merges that follow the
/// retained branches completes with one merge per branch, in order, and its new tip is
/// the commit of the last merge, or the base tip when nothing was retained.
pub proof fn lemma_completed_rebuild(
    merges: Seq<MergeOutcome>,
    retained: Seq<BranchIdentity>,
    base_tip: Seq<char>,
)
    requires
        follows_retained(merges, retained),
        reconstruct_action(retained, merges.len()) is Complete,
    ensures
        merges.len() == retained.len(),
        retained.len() > 0 ==> head_after(merges, base_tip) == merges[retained.len() - 1].commit@,
        retained.len() == 0 ==> head_after(merges, base_tip) == base_tip,
{
    lemma_completed_merges_follow_retained(merges, retained);
}

} // verus!
