//! Facts that the machine output of a restack plan reports about its merges.

use vstd::prelude::*;

verus! {

/// How a feature's merge was resolved.
#[derive(Clone, Copy, Debug, PartialEq, Eq, Structural)]
pub enum MergeResolution {
    /// Git merged it without conflict.
    Clean,
    /// Recorded resolutions (rerere) resolved every conflict.
    Reused,
    /// The conflict was resolved by hand in a resumed session.
    Manual,
}

/// How many merges were resolved in the way `kind`.
pub open spec fn count_of(resolutions: Seq<MergeResolution>, kind: MergeResolution) -> nat
    decreases resolutions.len(),
{
    if resolutions.len() == 0 {
        0
    } else {
        count_of(resolutions.drop_last(), kind) + if resolutions.last() == kind {
            1nat
        } else {
            0nat
        }
    }
}

/// The number of clean, reused and manual merges.
pub fn resolution_counts(resolutions: &Vec<MergeResolution>) -> (counts: (usize, usize, usize))
    ensures
        counts.0 == count_of(resolutions@, MergeResolution::Clean),
        counts.1 == count_of(resolutions@, MergeResolution::Reused),
        counts.2 == count_of(resolutions@, MergeResolution::Manual),
        counts.0 + counts.1 + counts.2 == resolutions@.len(),
{
    let mut clean: usize = 0;
    let mut reused: usize = 0;
    let mut manual: usize = 0;
    let mut i: usize = 0;
    proof {
        assert(resolutions@.take(0) =~= Seq::<MergeResolution>::empty());
    }
    while i < resolutions.len()
        invariant
            i <= resolutions.len(),
            clean == count_of(resolutions@.take(i as int), MergeResolution::Clean),
            reused == count_of(resolutions@.take(i as int), MergeResolution::Reused),
            manual == count_of(resolutions@.take(i as int), MergeResolution::Manual),
            clean + reused + manual == i,
        decreases resolutions.len() - i,
    {
        proof {
            assert(resolutions@.take(i + 1).drop_last() =~= resolutions@.take(i as int));
            assert(resolutions@.take(i + 1).last() == resolutions@[i as int]);
        }
        match resolutions[i] {
            MergeResolution::Clean => clean = clean + 1,
            MergeResolution::Reused => reused = reused + 1,
            MergeResolution::Manual => manual = manual + 1,
        }
        i = i + 1;
    }
    proof {
        assert(resolutions@.take(resolutions.len() as int) =~= resolutions@);
    }
    (clean, reused, manual)
}

/// Every merge is counted once: the three counts add up to the number of merges.
pub proof fn lemma_counts_cover_every_merge(resolutions: Seq<MergeResolution>)
    ensures
        count_of(resolutions, MergeResolution::Clean) + count_of(resolutions, MergeResolution::Reused)
            + count_of(resolutions, MergeResolution::Manual) == resolutions.len(),
    decreases resolutions.len(),
{
    if resolutions.len() > 0 {
        lemma_counts_cover_every_merge(resolutions.drop_last());
    }
}

/// The outcome name of a resolution in the plan.
pub fn outcome_name(resolution: MergeResolution) -> (name: &'static str)
    ensures
        resolution == MergeResolution::Clean ==> name@ == "clean"@,
        resolution == MergeResolution::Reused ==> name@ == "rerere"@,
        resolution == MergeResolution::Manual ==> name@ == "manual"@,
{
    match resolution {
        MergeResolution::Clean => "clean",
        MergeResolution::Reused => "rerere",
        MergeResolution::Manual => "manual",
    }
}

/// The first parent of each merge: the base tip for the first, then the commit of the
/// merge before it.
pub fn merge_first_parents(base_tip: &str, commits: &Vec<String>) -> (parents: Vec<String>)
    ensures
        parents@.len() == commits@.len(),
        commits@.len() > 0 ==> parents@[0]@ == base_tip@,
        forall|i: int| 0 < i < commits@.len() ==> #[trigger] parents@[i]@ == commits@[i - 1]@,
{
    let mut parents: Vec<String> = Vec::new();
    let mut i: usize = 0;
    while i < commits.len()
        invariant
            i <= commits.len(),
            parents@.len() == i,
            i > 0 ==> parents@[0]@ == base_tip@,
            forall|k: int| 0 < k < i ==> #[trigger] parents@[k]@ == commits@[k - 1]@,
        decreases commits.len() - i,
    {
        if i == 0 {
            parents.push(base_tip.to_owned());
        } else {
            parents.push(commits[i - 1].clone());
        }
        i = i + 1;
    }
    parents
}

} // verus!
