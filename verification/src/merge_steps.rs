//! The decisions between the Git steps of a reconstruction: which earlier resolutions to
//! replay for training, whether a trained resolution gives the recorded tree, whether a
//! resumed manual merge is exactly the one that stopped, and whether the rebuilt tree is
//! the one the merges produced.

use vstd::prelude::*;

use crate::error::CliError;
use crate::git_output::{is_validation_error, IsolatedRepository};
use crate::restack::{has_text_detail, is_machine, session_state_error, BranchIdentity};
use crate::error::MachineKind;
use crate::restack_errors::validation_error;
use crate::text::literal;
use crate::text_compare::same_text;

verus! {

/// An earlier merge of the environment into a feature, whose resolution can be replayed.
#[derive(Clone, Debug)]
pub struct HistoricalMerge {
    pub commit: String,
    pub first_parent: String,
    pub feature_parent: String,
    pub tree: String,
}

/// A feature of the snapshot with the earlier merges of its history.
#[derive(Clone, Debug)]
pub struct TrainingFeature {
    pub name: String,
    pub historical_merges: Vec<HistoricalMerge>,
}

/// Whether some retained branch has this name.
pub open spec fn is_retained(retained: Seq<BranchIdentity>, name: Seq<char>) -> bool {
    exists|i: int| 0 <= i < retained.len() && #[trigger] retained[i].name@ == name
}

/// The positions `(feature, merge)` of the earlier merges to replay, feature by feature
/// in snapshot order, of the retained features only.
pub open spec fn training_merges(features: Seq<TrainingFeature>, retained: Seq<BranchIdentity>) -> Seq<
    (usize, usize),
>
    decreases features.len(),
{
    if features.len() == 0 {
        Seq::empty()
    } else {
        let i = features.len() - 1;
        training_merges(features.drop_last(), retained) + if is_retained(retained, features.last().name@) {
            Seq::new(features.last().historical_merges@.len(), |k: int| (i as usize, k as usize))
        } else {
            Seq::empty()
        }
    }
}

fn retained_name(retained: &Vec<BranchIdentity>, name: &str) -> (found: bool)
    ensures
        found == is_retained(retained@, name@),
{
    let mut i: usize = 0;
    while i < retained.len()
        invariant
            i <= retained.len(),
            forall|j: int| 0 <= j < i ==> #[trigger] retained@[j].name@ != name@,
        decreases retained.len() - i,
    {
        if same_text(&retained[i].name, name) {
            return true;
        }
        i = i + 1;
    }
    false
}

/// Which earlier merges have their resolutions replayed before the rebuild: those of the
/// retained features, in the order of the snapshot, each as the position of its feature
/// and its position in that feature's history.
pub fn training_plan(features: &Vec<TrainingFeature>, retained: &Vec<BranchIdentity>) -> (merges: Vec<
    (usize, usize),
>)
    ensures
        merges@ == training_merges(features@, retained@),
{
    let mut merges: Vec<(usize, usize)> = Vec::new();
    let mut i: usize = 0;
    while i < features.len()
        invariant
            i <= features.len(),
            merges@ == training_merges(features@.take(i as int), retained@),
        decreases features.len() - i,
    {
        proof {
            assert(features@.take(i + 1).drop_last() =~= features@.take(i as int));
        }
        let ghost before = merges@;
        let count = features[i].historical_merges.len();
        if retained_name(retained, &features[i].name) {
            let mut k: usize = 0;
            while k < count
                invariant
                    k <= count,
                    merges@ == before + Seq::new(k as nat, |j: int| (i, j as usize)),
                decreases count - k,
            {
                merges.push((i, k));
                k = k + 1;
                proof {
                    assert(merges@ =~= before + Seq::new(k as nat, |j: int| (i, j as usize)));
                }
            }
        }
        i = i + 1;
        proof {
            assert(merges@ =~= training_merges(features@.take(i as int), retained@));
        }
    }
    proof {
        assert(features@.take(features@.len() as int) =~= features@);
    }
    merges
}

/// A replayed resolution must give exactly the tree that the earlier merge recorded.
pub fn check_training_tree(accepted_tree: &str, recorded_tree: &str) -> (result: Result<(), CliError>)
    ensures
        accepted_tree@ == recorded_tree@ <==> result is Ok,
        result matches Err(e) ==> is_validation_error(e, "trainingTree"@),
{
    if same_text(accepted_tree, recorded_tree) {
        Ok(())
    } else {
        Err(validation_error("trainingTree"))
    }
}

/// The error of a work area that is not in the resumable state that `reason` names.
pub open spec fn is_session_state_error(error: CliError, reason: Seq<char>) -> bool {
    is_machine(
        error,
        MachineKind::Failure,
        "invalid_session_state"@,
        "the restack work area is not in the expected resumable state"@,
    ) && has_text_detail(error, "reason"@, reason)
}

/// A resumed manual merge continues the merge that stopped: HEAD and its reflog are as
/// recorded (nothing was committed meanwhile) and the merge in progress is the feature's
/// tip.
pub fn check_resumed_merge(
    head: &str,
    expected_head: &str,
    head_reflog: &str,
    expected_head_reflog: &str,
    merge_head: &str,
    feature: &BranchIdentity,
) -> (result: Result<(), CliError>)
    ensures
        result is Ok <==> (head@ == expected_head@ && head_reflog@ == expected_head_reflog@ && merge_head@
            == feature.tip@),
        head@ != expected_head@ ==> (result matches Err(e) && is_session_state_error(e, "agentCommit"@)),
        head@ == expected_head@ && head_reflog@ != expected_head_reflog@ ==> (result matches Err(e)
            && is_session_state_error(e, "agentCommit"@)),
        head@ == expected_head@ && head_reflog@ == expected_head_reflog@ && merge_head@ != feature.tip@ ==> (
        result matches Err(e) && is_session_state_error(e, "mergeParent"@)),
{
    if !same_text(head, expected_head) {
        return Err(session_state_error("agentCommit"));
    }
    if !same_text(head_reflog, expected_head_reflog) {
        return Err(session_state_error("agentCommit"));
    }
    if !same_text(merge_head, &feature.tip) {
        return Err(session_state_error("mergeParent"));
    }
    Ok(())
}

/// The resolution of a resumed merge is fully staged: no path is unmerged, nothing is
/// changed outside the index and nothing is untracked.
pub fn check_resolution_staged(unresolved: &Vec<String>, unstaged: &Vec<u8>, untracked: &Vec<u8>) -> (result:
    Result<(), CliError>)
    ensures
        result is Ok <==> (unresolved@.len() == 0 && unstaged@.len() == 0 && untracked@.len() == 0),
        result matches Err(e) ==> is_session_state_error(e, "resolutionNotStaged"@),
{
    if unresolved.len() > 0 || unstaged.len() > 0 || untracked.len() > 0 {
        Err(session_state_error("resolutionNotStaged"))
    } else {
        Ok(())
    }
}

/// Recording the resolution left no path that rerere still considers unresolved.
pub fn check_resolution_recorded(remaining: &Vec<String>) -> (result: Result<(), CliError>)
    ensures
        result is Ok <==> remaining@.len() == 0,
        result matches Err(e) ==> is_session_state_error(e, "resolutionNotStaged"@),
{
    if remaining.len() > 0 {
        Err(session_state_error("resolutionNotStaged"))
    } else {
        Ok(())
    }
}

/// After the merges, the tree of HEAD is the tree of the last merge.
pub fn check_final_tree(last_merge_tree: &str, final_tree: &str) -> (result: Result<(), CliError>)
    ensures
        result is Ok <==> last_merge_tree@ == final_tree@,
        result matches Err(e) ==> is_validation_error(e, "finalTree"@),
{
    if same_text(last_merge_tree, final_tree) {
        Ok(())
    } else {
        Err(validation_error("finalTree"))
    }
}

/// With no merge at all, HEAD is still the base with the base's tree.
pub fn check_unchanged_base(base_tree: &str, final_tree: &str, head: &str, base_tip: &str) -> (result: Result<
    (),
    CliError,
>)
    ensures
        result is Ok <==> (base_tree@ == final_tree@ && head@ == base_tip@),
        result matches Err(e) ==> is_validation_error(e, "finalTree"@),
{
    if same_text(base_tree, final_tree) && same_text(head, base_tip) {
        Ok(())
    } else {
        Err(validation_error("finalTree"))
    }
}

/// Before publication the isolated repository still holds the reviewed result: HEAD is
/// the preview commit and its tree the reviewed final tree.
pub fn check_publication_result(head: &str, tree: &str, preview_commit: &str, final_tree: &str) -> (result: Result<
    (),
    CliError,
>)
    ensures
        result is Ok <==> (head@ == preview_commit@ && tree@ == final_tree@),
        result matches Err(e) ==> is_validation_error(e, "publicationResult"@),
{
    if same_text(head, preview_commit) && same_text(tree, final_tree) {
        Ok(())
    } else {
        Err(validation_error("publicationResult"))
    }
}

/// The removals after adding the tainted features: the explicit ones first, in order,
/// then each tainted feature that is not already listed.
pub open spec fn removals_with(explicit: Seq<String>, tainted: Seq<String>) -> Seq<Seq<char>>
    decreases tainted.len(),
{
    if tainted.len() == 0 {
        explicit.map_values(|name: String| name@)
    } else {
        let earlier = removals_with(explicit, tainted.drop_last());
        if earlier.contains(tainted.last()@) {
            earlier
        } else {
            earlier.push(tainted.last()@)
        }
    }
}

/// Every tainted feature is removed by default; explicit removals are kept in order and
/// a tainted feature is never listed twice.
pub fn with_tainted_removals(explicit: &Vec<String>, tainted: &Vec<String>) -> (removals: Vec<String>)
    ensures
        removals@.map_values(|name: String| name@) == removals_with(explicit@, tainted@),
{
    let mut removals: Vec<String> = Vec::new();
    let mut i: usize = 0;
    while i < explicit.len()
        invariant
            i <= explicit@.len(),
            removals@.len() == i,
            removals@.map_values(|name: String| name@) == explicit@.take(i as int).map_values(|name: String| name@),
        decreases explicit.len() - i,
    {
        let ghost before = removals@;
        let copy = literal(explicit[i].as_str());
        assert(copy@ == explicit@[i as int]@);
        removals.push(copy);
        proof {
            assert(removals@[i as int]@ == explicit@[i as int]@);
            assert(explicit@.take(i + 1) =~= explicit@.take(i as int).push(explicit@[i as int]));
            assert(removals@ =~= before.push(copy));
            assert(removals@.map_values(|name: String| name@) =~= before.map_values(|name: String| name@).push(copy@));
            assert(explicit@.take(i + 1).map_values(|name: String| name@) =~= explicit@.take(i as int).map_values(
                |name: String| name@,
            ).push(explicit@[i as int]@));
        }
        i = i + 1;
    }
    proof {
        assert(explicit@.take(explicit@.len() as int) =~= explicit@);
        assert(tainted@.take(0) =~= Seq::<String>::empty());
    }
    let mut t: usize = 0;
    while t < tainted.len()
        invariant
            t <= tainted@.len(),
            removals@.map_values(|name: String| name@) == removals_with(explicit@, tainted@.take(t as int)),
        decreases tainted.len() - t,
    {
        proof {
            assert(tainted@.take(t + 1).drop_last() =~= tainted@.take(t as int));
        }
        let name = tainted[t].as_str();
        let mut listed = false;
        let mut k: usize = 0;
        while k < removals.len()
            invariant
                k <= removals@.len(),
                listed == exists|m: int| 0 <= m < k && #[trigger] removals@[m]@ == name@,
            decreases removals.len() - k,
        {
            if same_text(&removals[k], name) {
                listed = true;
            }
            k = k + 1;
        }
        let ghost before = removals@.map_values(|n: String| n@);
        proof {
            if listed {
                let m = choose|m: int| 0 <= m < removals@.len() && #[trigger] removals@[m]@ == name@;
                assert(before[m] == name@);
            } else {
                assert forall|m: int| 0 <= m < before.len() implies before[m] != name@ by {
                    assert(before[m] == removals@[m]@);
                }
            }
        }
        if !listed {
            removals.push(literal(name));
            proof {
                assert(removals@.map_values(|n: String| n@) =~= before.push(name@));
            }
        }
        t = t + 1;
    }
    proof {
        assert(tainted@.take(tainted@.len() as int) =~= tainted@);
    }
    removals
}

/// A sealed session's repository is untouched since sealing: its HEAD reflog has the
/// digest recorded then.
pub fn check_sealed_repository(head_reflog: &str, expected_head_reflog: &str) -> (result: Result<(), CliError>)
    ensures
        result is Ok <==> head_reflog@ == expected_head_reflog@,
        result matches Err(e) ==> is_session_state_error(e, "sealedResult"@),
{
    if same_text(head_reflog, expected_head_reflog) {
        Ok(())
    } else {
        Err(session_state_error("sealedResult"))
    }
}

/// The plan rebuilt from a sealed session has the digest saved when it was sealed.
pub fn check_sealed_digest(rebuilt_digest: &str, saved_digest: &str) -> (result: Result<(), CliError>)
    ensures
        result is Ok <==> rebuilt_digest@ == saved_digest@,
        result matches Err(e) ==> is_session_state_error(e, "sealedPlan"@),
{
    if same_text(rebuilt_digest, saved_digest) {
        Ok(())
    } else {
        Err(session_state_error("sealedPlan"))
    }
}


/// A control file of the work area as found on disk.
#[derive(Clone, Debug)]
pub enum ControlFile {
    /// Missing, a symbolic link, or not a regular file.
    NotPlain,
    /// A plain file that could not be read.
    Unreadable,
    /// A plain file and its contents.
    Contents(Vec<u8>),
}

/// The hooks directory of the work area as found on disk.
#[derive(Clone, Copy, Debug)]
pub enum HooksDirectory {
    /// Missing, a symbolic link, or not a directory.
    NotPlain,
    /// A plain directory that could not be listed.
    Unlistable,
    /// A plain directory, and whether it holds no entry.
    Listed { empty: bool },
}

/// The first problem with a configuration file, which must be plain and empty.
pub open spec fn config_problem(file: ControlFile) -> Option<Seq<char>> {
    match file {
        ControlFile::NotPlain => Some("layout"@),
        ControlFile::Unreadable => Some("configuration"@),
        ControlFile::Contents(bytes) => if bytes@.len() == 0 {
            None
        } else {
            Some("configuration"@)
        },
    }
}

/// The first problem with the alternates file, which must name exactly the source
/// repository's object directory, followed by a newline.
pub open spec fn alternates_problem(file: ControlFile, source_objects: Seq<u8>) -> Option<Seq<char>> {
    match file {
        ControlFile::NotPlain => Some("layout"@),
        ControlFile::Unreadable => Some("objectStore"@),
        ControlFile::Contents(bytes) => if bytes@ == source_objects.push(10u8) {
            None
        } else {
            Some("objectStore"@)
        },
    }
}

/// The first problem with the work area's control files, checked in this order: the work
/// area and its hooks directory are plain directories, no hook is installed, the global
/// and repository configurations are plain and empty, and the alternates file names the
/// source objects.
pub open spec fn control_files_problem(
    root_plain: bool,
    hooks: HooksDirectory,
    global_config: ControlFile,
    repository_config: ControlFile,
    alternates: ControlFile,
    source_objects: Seq<u8>,
) -> Option<Seq<char>> {
    if !root_plain {
        Some("layout"@)
    } else {
        match hooks {
            HooksDirectory::NotPlain => Some("layout"@),
            HooksDirectory::Unlistable => Some("hooks"@),
            HooksDirectory::Listed { empty } => if !empty {
                Some("hooks"@)
            } else if config_problem(global_config) is Some {
                config_problem(global_config)
            } else if config_problem(repository_config) is Some {
                config_problem(repository_config)
            } else {
                alternates_problem(alternates, source_objects)
            },
        }
    }
}

fn check_config_file(file: &ControlFile) -> (result: Result<(), CliError>)
    ensures
        match config_problem(*file) {
            Some(reason) => result matches Err(e) && is_session_state_error(e, reason),
            None => result is Ok,
        },
{
    match file {
        ControlFile::NotPlain => Err(session_state_error("layout")),
        ControlFile::Unreadable => Err(session_state_error("configuration")),
        ControlFile::Contents(bytes) => if bytes.len() == 0 {
            Ok(())
        } else {
            Err(session_state_error("configuration"))
        },
    }
}

fn same_bytes_with_newline(bytes: &Vec<u8>, prefix: &[u8]) -> (same: bool)
    ensures
        same == (bytes@ == prefix@.push(10u8)),
{
    if bytes.len() == 0 || bytes.len() - 1 != prefix.len() {
        proof {
            assert(prefix@.push(10u8).len() == prefix@.len() + 1);
        }
        return false;
    }
    let mut i: usize = 0;
    while i < prefix.len()
        invariant
            bytes@.len() == prefix@.len() + 1,
            i <= prefix@.len(),
            forall|j: int| 0 <= j < i ==> bytes@[j] == prefix@[j],
        decreases prefix.len() - i,
    {
        if bytes[i] != prefix[i] {
            proof {
                assert(prefix@.push(10u8)[i as int] == prefix@[i as int]);
            }
            return false;
        }
        i = i + 1;
    }
    if bytes[prefix.len()] != 10u8 {
        proof {
            assert(prefix@.push(10u8)[prefix@.len() as int] == 10u8);
        }
        return false;
    }
    proof {
        assert(bytes@ =~= prefix@.push(10u8));
    }
    true
}

/// Checks that the work area's control files are as the work area was created: plain
/// directories, no hooks, empty configurations, and alternates naming the source objects.
pub fn check_control_files(
    root_plain: bool,
    hooks: HooksDirectory,
    global_config: &ControlFile,
    repository_config: &ControlFile,
    alternates: &ControlFile,
    source_objects: &[u8],
) -> (result: Result<(), CliError>)
    ensures
        match control_files_problem(root_plain, hooks, *global_config, *repository_config, *alternates, source_objects@) {
            Some(reason) => result matches Err(e) && is_session_state_error(e, reason),
            None => result is Ok,
        },
{
    if !root_plain {
        return Err(session_state_error("layout"));
    }
    match hooks {
        HooksDirectory::NotPlain => {
            return Err(session_state_error("layout"));
        },
        HooksDirectory::Unlistable => {
            return Err(session_state_error("hooks"));
        },
        HooksDirectory::Listed { empty } => {
            if !empty {
                return Err(session_state_error("hooks"));
            }
        },
    }
    check_config_file(global_config)?;
    check_config_file(repository_config)?;
    match alternates {
        ControlFile::NotPlain => Err(session_state_error("layout")),
        ControlFile::Unreadable => Err(session_state_error("objectStore")),
        ControlFile::Contents(bytes) => if same_bytes_with_newline(bytes, source_objects) {
            Ok(())
        } else {
            Err(session_state_error("objectStore"))
        },
    }
}


/// What was found on disk at the control-file paths of an opened work area.
#[derive(Clone, Debug)]
pub struct ControlFilesFound {
    pub root_plain: bool,
    pub hooks: HooksDirectory,
    pub global_config: ControlFile,
    pub repository_config: ControlFile,
    pub alternates: ControlFile,
}

/// Accepts an opened work area only when its control files are as it was created with,
/// naming the first problem otherwise.
pub fn accept_work_area(
    repository: IsolatedRepository,
    found: &ControlFilesFound,
    source_objects: &[u8],
) -> (result: Result<IsolatedRepository, CliError>)
    ensures
        match control_files_problem(
            found.root_plain,
            found.hooks,
            found.global_config,
            found.repository_config,
            found.alternates,
            source_objects@,
        ) {
            Some(reason) => result matches Err(e) && is_session_state_error(e, reason),
            None => result matches Ok(accepted) && accepted == repository,
        },
{
    check_control_files(
        found.root_plain,
        found.hooks,
        &found.global_config,
        &found.repository_config,
        &found.alternates,
        source_objects,
    )?;
    Ok(repository)
}

} // verus!
