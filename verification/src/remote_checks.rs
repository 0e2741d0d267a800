//! What publication checks against the remote just before it pushes: the refs the
//! reviewed plan read, each still at the reviewed tip on every endpoint, and the Git
//! identity unchanged.

use vstd::prelude::*;

use crate::error::{machine_failure, text_detail, CliError, DetailValue, MachineKind};
use crate::history_walk::{text_before, text_less};
use crate::preflight::RestackAuthor;
use crate::refs::{environment_ref, remote_environment_ref};
use crate::restack::{has_text_detail, is_machine, BranchIdentity};
use crate::restack_errors::{details_of, is_text_entry};
use crate::text::literal;
use crate::text_compare::same_text;

verus! {

/// The reviewed inputs in the order they are recorded: the environment, main, then the
/// retained and the removed features, each as its remote branch ref and tip.
pub open spec fn reviewed_inputs(
    environment: Seq<char>,
    environment_tip: Seq<char>,
    main: Seq<char>,
    main_tip: Seq<char>,
    features: Seq<BranchIdentity>,
) -> Seq<(Seq<char>, Seq<char>)> {
    seq![(environment_ref(environment), environment_tip), (environment_ref(main), main_tip)] + Seq::new(
        features.len(),
        |i: int| (environment_ref(features[i].name@), features[i].tip@),
    )
}

/// The tip recorded for `reference`: the last recorded one wins, as in a map.
pub open spec fn recorded_tip(inputs: Seq<(Seq<char>, Seq<char>)>, reference: Seq<char>) -> Option<Seq<char>>
    decreases inputs.len(),
{
    if inputs.len() == 0 {
        None
    } else if inputs.last().0 == reference {
        Some(inputs.last().1)
    } else {
        recorded_tip(inputs.drop_last(), reference)
    }
}

fn push_input(inputs: &mut Vec<(String, String)>, reference: String, tip: &str)
    ensures
        final(inputs)@.len() == old(inputs)@.len() + 1,
        forall|k: int| 0 <= k < old(inputs)@.len() ==> #[trigger] final(inputs)@[k] == old(inputs)@[k],
        final(inputs)@.last().0@ == reference@,
        final(inputs)@.last().1@ == tip@,
{
    inputs.push((reference, literal(tip)));
}

/// The pairs of `inputs` as character sequences.
pub open spec fn pair_views(inputs: Seq<(String, String)>) -> Seq<(Seq<char>, Seq<char>)> {
    inputs.map_values(|p: (String, String)| (p.0@, p.1@))
}

fn reviewed_input_list(
    environment: &str,
    environment_tip: &str,
    main: &str,
    main_tip: &str,
    features: &Vec<BranchIdentity>,
) -> (inputs: Vec<(String, String)>)
    ensures
        pair_views(inputs@) == reviewed_inputs(environment@, environment_tip@, main@, main_tip@, features@),
{
    let ghost inputs_spec = reviewed_inputs(environment@, environment_tip@, main@, main_tip@, features@);
    let mut inputs: Vec<(String, String)> = Vec::new();
    push_input(&mut inputs, remote_environment_ref(environment), environment_tip);
    push_input(&mut inputs, remote_environment_ref(main), main_tip);
    let mut f: usize = 0;
    while f < features.len()
        invariant
            f <= features.len(),
            inputs@.len() == f + 2,
            pair_views(inputs@) == inputs_spec.take(f + 2),
            inputs_spec == reviewed_inputs(environment@, environment_tip@, main@, main_tip@, features@),
        decreases features.len() - f,
    {
        let ghost before = inputs@;
        push_input(&mut inputs, remote_environment_ref(&features[f].name), &features[f].tip);
        f = f + 1;
        proof {
            assert(pair_views(inputs@) =~= inputs_spec.take(f + 2));
        }
    }
    proof {
        assert(inputs_spec.take(features@.len() + 2int) =~= inputs_spec);
    }
    inputs
}

/// Keys in strictly increasing order, so each occurs once.
pub open spec fn strictly_sorted(entries: Seq<(Seq<char>, Seq<char>)>) -> bool {
    forall|k: int, l: int| 0 <= k < l < entries.len() ==> text_less(#[trigger] entries[k].0, #[trigger] entries[l].0)
}

/// In a list without repeated keys, the tip recorded for an entry's key is that entry's.
proof fn lemma_unique_key(entries: Seq<(Seq<char>, Seq<char>)>, p: int)
    requires
        strictly_sorted(entries),
        0 <= p < entries.len(),
    ensures
        recorded_tip(entries, entries[p].0) == Some(entries[p].1),
{
    assert forall|y: int| p < y < entries.len() implies #[trigger] entries[y].0 != entries[p].0 by {
        crate::history_walk::lemma_text_less_total(entries[p].0, entries[y].0);
    }
    lemma_last_entry(entries, p);
}

/// A key that no entry has is recorded for none.
proof fn lemma_absent_key(entries: Seq<(Seq<char>, Seq<char>)>, reference: Seq<char>)
    requires
        forall|k: int| 0 <= k < entries.len() ==> #[trigger] entries[k].0 != reference,
    ensures
        recorded_tip(entries, reference) is None,
    decreases entries.len(),
{
    if entries.len() > 0 {
        let shorter = entries.drop_last();
        assert forall|k: int| 0 <= k < shorter.len() implies #[trigger] shorter[k].0 != reference by {
            assert(shorter[k] == entries[k]);
        }
        lemma_absent_key(shorter, reference);
        assert(entries[entries.len() - 1].0 != reference);
    }
}

/// Replacing the tip of an existing key changes only what is recorded for that key.
proof fn lemma_update_lookup(
    before: Seq<(Seq<char>, Seq<char>)>,
    p: int,
    value: Seq<char>,
    reference: Seq<char>,
)
    requires
        strictly_sorted(before),
        0 <= p < before.len(),
    ensures
        strictly_sorted(before.update(p, (before[p].0, value))),
        recorded_tip(before.update(p, (before[p].0, value)), reference) == if reference == before[p].0 {
            Some(value)
        } else {
            recorded_tip(before, reference)
        },
{
    let key = before[p].0;
    let after = before.update(p, (key, value));
    assert forall|k: int, l: int| 0 <= k < l < after.len() implies text_less(#[trigger] after[k].0, #[trigger] after[l].0) by {
        assert(after[k].0 == before[k].0 && after[l].0 == before[l].0);
    }
    if reference == key {
        lemma_unique_key(after, p);
    } else if exists|m: int| 0 <= m < before.len() && #[trigger] before[m].0 == reference {
        let m = choose|m: int| 0 <= m < before.len() && #[trigger] before[m].0 == reference;
        lemma_unique_key(before, m);
        lemma_unique_key(after, m);
    } else {
        lemma_absent_key(before, reference);
        assert forall|k: int| 0 <= k < after.len() implies #[trigger] after[k].0 != reference by {
            assert(after[k].0 == before[k].0);
        }
        lemma_absent_key(after, reference);
    }
}

/// Inserting a new key where it sorts keeps the order.
proof fn lemma_insert_sorted(before: Seq<(Seq<char>, Seq<char>)>, p: int, entry: (Seq<char>, Seq<char>))
    requires
        strictly_sorted(before),
        0 <= p <= before.len(),
        forall|q: int| 0 <= q < p ==> text_less(#[trigger] before[q].0, entry.0),
        p < before.len() ==> text_less(entry.0, before[p].0),
    ensures
        strictly_sorted(before.insert(p, entry)),
{
    let after = before.insert(p, entry);
    assert forall|k: int, l: int| 0 <= k < l < after.len() implies text_less(#[trigger] after[k].0, #[trigger] after[l].0) by {
        if l < p {
            assert(after[k] == before[k] && after[l] == before[l]);
        } else if l == p {
            assert(after[k] == before[k]);
        } else {
            assert(after[l] == before[l - 1]);
            if l - 1 > p {
                crate::history_walk::lemma_text_less_transitive(entry.0, before[p].0, before[l - 1].0);
            }
            if k < p {
                assert(after[k] == before[k]);
                crate::history_walk::lemma_text_less_transitive(before[k].0, entry.0, before[l - 1].0);
            } else if k > p {
                assert(after[k] == before[k - 1]);
            }
        }
    }
}

/// Inserting a new key changes only what is recorded for that key.
proof fn lemma_insert_lookup(
    before: Seq<(Seq<char>, Seq<char>)>,
    p: int,
    entry: (Seq<char>, Seq<char>),
    reference: Seq<char>,
)
    requires
        strictly_sorted(before),
        strictly_sorted(before.insert(p, entry)),
        0 <= p <= before.len(),
    ensures
        recorded_tip(before.insert(p, entry), reference) == if reference == entry.0 {
            Some(entry.1)
        } else {
            recorded_tip(before, reference)
        },
{
    let after = before.insert(p, entry);
    assert(after[p] == entry);
    if reference == entry.0 {
        lemma_unique_key(after, p);
    } else if exists|m: int| 0 <= m < before.len() && #[trigger] before[m].0 == reference {
        let m = choose|m: int| 0 <= m < before.len() && #[trigger] before[m].0 == reference;
        lemma_unique_key(before, m);
        if m < p {
            assert(after[m] == before[m]);
            lemma_unique_key(after, m);
        } else {
            assert(after[m + 1] == before[m]);
            lemma_unique_key(after, m + 1);
        }
    } else {
        lemma_absent_key(before, reference);
        assert forall|k: int| 0 <= k < after.len() implies #[trigger] after[k].0 != reference by {
            if k < p {
                assert(after[k] == before[k]);
            } else if k > p {
                assert(after[k] == before[k - 1]);
            }
        }
        lemma_absent_key(after, reference);
    }
}

/// Records `key` with `value` in a list kept in key order, replacing an earlier tip.
fn record_ref(entries: &mut Vec<(String, String)>, key: String, value: String)
    requires
        strictly_sorted(pair_views(old(entries)@)),
    ensures
        strictly_sorted(pair_views(final(entries)@)),
        forall|reference: Seq<char>| #[trigger] recorded_tip(pair_views(final(entries)@), reference) == if reference == key@ {
            Some(value@)
        } else {
            recorded_tip(pair_views(old(entries)@), reference)
        },
{
    let ghost before = pair_views(entries@);
    let ghost key_view = key@;
    let ghost value_view = value@;
    let mut p: usize = 0;
    while p < entries.len() && text_before(&entries[p].0, &key)
        invariant
            p <= entries@.len(),
            before == pair_views(entries@),
            key_view == key@,
            forall|q: int| 0 <= q < p ==> text_less(#[trigger] before[q].0, key_view),
        decreases entries.len() - p,
    {
        p = p + 1;
    }
    if p < entries.len() && same_text(&entries[p].0, &key) {
        entries.set(p, (key, value));
        proof {
            assert(pair_views(entries@) =~= before.update(p as int, (before[p as int].0, value_view)));
            assert forall|reference: Seq<char>| #[trigger] recorded_tip(pair_views(entries@), reference) == if reference
                == key_view {
                Some(value_view)
            } else {
                recorded_tip(before, reference)
            } by {
                lemma_update_lookup(before, p as int, value_view, reference);
            }
        }
    } else {
        proof {
            if p < before.len() {
                crate::history_walk::lemma_text_less_total(key_view, before[p as int].0);
            }
            lemma_insert_sorted(before, p as int, (key_view, value_view));
        }
        entries.insert(p, (key, value));
        proof {
            assert(pair_views(entries@) =~= before.insert(p as int, (key_view, value_view)));
            assert forall|reference: Seq<char>| #[trigger] recorded_tip(pair_views(entries@), reference) == if reference
                == key_view {
                Some(value_view)
            } else {
                recorded_tip(before, reference)
            } by {
                lemma_insert_lookup(before, p as int, (key_view, value_view), reference);
            }
        }
    }
}

/// The refs a publication revalidates and the tip each must still have, one entry per
/// ref in ref order; a ref recorded twice keeps its last tip.
pub fn expected_remote_refs(
    environment: &str,
    environment_tip: &str,
    main: &str,
    main_tip: &str,
    features: &Vec<BranchIdentity>,
) -> (expected: Vec<(String, String)>)
    ensures
        strictly_sorted(pair_views(expected@)),
        forall|reference: Seq<char>|
            #[trigger] recorded_tip(pair_views(expected@), reference) == recorded_tip(
                reviewed_inputs(environment@, environment_tip@, main@, main_tip@, features@),
                reference,
            ),
{
    let inputs = reviewed_input_list(environment, environment_tip, main, main_tip, features);
    let ghost inputs_spec = pair_views(inputs@);
    let mut expected: Vec<(String, String)> = Vec::new();
    let mut i: usize = 0;
    while i < inputs.len()
        invariant
            i <= inputs@.len(),
            inputs_spec == pair_views(inputs@),
            strictly_sorted(pair_views(expected@)),
            forall|reference: Seq<char>|
                #[trigger] recorded_tip(pair_views(expected@), reference) == recorded_tip(inputs_spec.take(i as int), reference),
        decreases inputs.len() - i,
    {
        let ghost before = pair_views(expected@);
        record_ref(&mut expected, literal(inputs[i].0.as_str()), literal(inputs[i].1.as_str()));
        proof {
            assert(inputs_spec.take(i + 1).drop_last() =~= inputs_spec.take(i as int));
            assert forall|reference: Seq<char>|
                #[trigger] recorded_tip(pair_views(expected@), reference) == recorded_tip(inputs_spec.take(i + 1), reference) by {
            }
        }
        i = i + 1;
    }
    proof {
        assert(inputs_spec.take(inputs_spec.len() as int) =~= inputs_spec);
    }
    expected
}

/// When no later entry records `inputs[x]`'s ref, its tip is the one recorded.
proof fn lemma_last_entry(inputs: Seq<(Seq<char>, Seq<char>)>, x: int)
    requires
        0 <= x < inputs.len(),
        forall|y: int| x < y < inputs.len() ==> #[trigger] inputs[y].0 != inputs[x].0,
    ensures
        recorded_tip(inputs, inputs[x].0) == Some(inputs[x].1),
    decreases inputs.len(),
{
    if x < inputs.len() - 1 {
        let shorter = inputs.drop_last();
        assert forall|y: int| x < y < shorter.len() implies #[trigger] shorter[y].0 != shorter[x].0 by {
            assert(shorter[y] == inputs[y]);
        }
        lemma_last_entry(shorter, x);
        assert(shorter[x] == inputs[x]);
    }
}

/// The tip an endpoint reports for `reference`.
pub open spec fn reported_tip(actual: Seq<(String, String)>, reference: Seq<char>) -> Option<Seq<char>> {
    recorded_tip(pair_views(actual), reference)
}

/// The details of a stale reviewed input: the endpoint, why, and the ref, in key order.
pub open spec fn stale_details(error: CliError, endpoint: Seq<char>, reason: Seq<char>, reference: Seq<char>) -> bool {
    let details = details_of(error);
    &&& details.len() == 3
    &&& is_text_entry(details[0], "endpoint"@, endpoint)
    &&& is_text_entry(details[1], "reason"@, reason)
    &&& is_text_entry(details[2], "ref"@, reference)
}

fn stale_ref_error(message: &str, endpoint: &str, reason: &str, reference: &str) -> (error: CliError)
    ensures
        is_machine(error, MachineKind::Failure, "stale_plan"@, message@),
        stale_details(error, endpoint@, reason@, reference@),
{
    let mut details: Vec<(String, DetailValue)> = Vec::new();
    details.push((literal("endpoint"), DetailValue::Text(literal(endpoint))));
    details.push((literal("reason"), DetailValue::Text(literal(reason))));
    details.push((literal("ref"), DetailValue::Text(literal(reference))));
    proof {
        reveal_strlit("endpoint");
        reveal_strlit("reason");
        reveal_strlit("ref");
    }
    machine_failure("stale_plan", message, details)
}

fn reported(actual: &Vec<(String, String)>, reference: &str) -> (tip: Option<String>)
    ensures
        match tip {
            Some(t) => reported_tip(actual@, reference@) == Some(t@),
            None => reported_tip(actual@, reference@) is None,
        },
{
    let mut k: usize = actual.len();
    proof {
        assert(pair_views(actual@).take(k as int) =~= pair_views(actual@));
    }
    while k > 0
        invariant
            k <= actual@.len(),
            reported_tip(actual@, reference@) == recorded_tip(pair_views(actual@).take(k as int), reference@),
        decreases k,
    {
        proof {
            assert(pair_views(actual@).take(k as int).drop_last() =~= pair_views(actual@).take(k - 1));
        }
        if same_text(&actual[k - 1].0, reference) {
            return Some(literal(actual[k - 1].1.as_str()));
        }
        k = k - 1;
    }
    None
}

/// The first reviewed ref, in order, that the endpoint reports at another tip or not at
/// all: the error names it, and every ref before it was reported unchanged.
pub open spec fn reports_first_stale(reports: Seq<(String, String)>, expected: Seq<(String, String)>, endpoint: Seq<char>, e: CliError) -> bool {
    exists|k: int|
        0 <= k < expected.len() && (forall|j: int|
            0 <= j < k ==> reported_tip(reports, #[trigger] expected[j].0@) == Some(expected[j].1@))
            && #[trigger] reported_tip(reports, expected[k].0@) != Some(expected[k].1@) && match reported_tip(
            reports,
            expected[k].0@,
        ) {
            Some(_) => is_machine(e, MachineKind::Failure, "stale_plan"@, "a reviewed remote input moved before publication"@)
                && stale_details(e, endpoint, "movedRef"@, expected[k].0@),
            None => is_machine(e, MachineKind::Failure, "stale_plan"@, "a reviewed remote input was deleted before publication"@)
                && stale_details(e, endpoint, "deletedRef"@, expected[k].0@),
        }
}

fn check_reports(reports: &Vec<(String, String)>, expected: &Vec<(String, String)>, endpoint: &str) -> (result: Result<(), CliError>)
    ensures
        result is Ok <==> forall|k: int|
            0 <= k < expected@.len() ==> reported_tip(reports@, #[trigger] expected@[k].0@) == Some(expected@[k].1@),
        result matches Err(e) ==> reports_first_stale(reports@, expected@, endpoint@, e),
{
    let mut k: usize = 0;
    while k < expected.len()
        invariant
            k <= expected@.len(),
            forall|j: int| 0 <= j < k ==> reported_tip(reports@, #[trigger] expected@[j].0@) == Some(expected@[j].1@),
        decreases expected.len() - k,
    {
        match reported(reports, &expected[k].0) {
            Some(tip) => {
                if !same_text(&tip, &expected[k].1) {
                    let error = stale_ref_error(
                        "a reviewed remote input moved before publication",
                        endpoint,
                        "movedRef",
                        &expected[k].0,
                    );
                    proof {
                        assert(reported_tip(reports@, expected@[k as int].0@) != Some(expected@[k as int].1@));
                    }
                    return Err(error);
                }
            },
            None => {
                let error = stale_ref_error(
                    "a reviewed remote input was deleted before publication",
                    endpoint,
                    "deletedRef",
                    &expected[k].0,
                );
                proof {
                    assert(reported_tip(reports@, expected@[k as int].0@) != Some(expected@[k as int].1@));
                }
                return Err(error);
            },
        }
        k = k + 1;
    }
    Ok(())
}

/// Checks what one endpoint reports against the reviewed refs, in their order: the first
/// ref that moved or was deleted is reported; a failed read is reported as such.
pub fn validate_remote_refs(actual: Option<Vec<(String, String)>>, expected: &Vec<(String, String)>, endpoint: &str) -> (result:
    Result<(), CliError>)
    ensures
        actual is None ==> (result matches Err(e) && is_machine(
            e,
            MachineKind::Failure,
            "remote_revalidation_failed"@,
            "could not re-read the remote refs before publication"@,
        ) && has_text_detail(e, "endpoint"@, endpoint@)),
        actual matches Some(reports) ==> (result is Ok <==> forall|k: int|
            0 <= k < expected@.len() ==> reported_tip(reports@, #[trigger] expected@[k].0@) == Some(expected@[k].1@)),
        actual matches Some(reports) ==> (result matches Err(e) ==> reports_first_stale(reports@, expected@, endpoint@, e)),
{
    proof {
        reveal_strlit("endpoint");
    }
    match actual {
        Some(reports) => check_reports(&reports, expected, endpoint),
        None => Err(
            machine_failure(
                "remote_revalidation_failed",
                "could not re-read the remote refs before publication",
                text_detail("endpoint", endpoint),
            ),
        ),
    }
}

/// Publication refuses when the configured Git identity is no longer the one the plan
/// recorded.
pub fn check_identity(configured: &RestackAuthor, planned: &RestackAuthor) -> (result: Result<(), CliError>)
    ensures
        result is Ok <==> (configured.name@ == planned.name@ && configured.email@ == planned.email@),
        result matches Err(e) ==> is_machine(
            e,
            MachineKind::Failure,
            "stale_plan"@,
            "the configured Git identity changed before publication"@,
        ) && has_text_detail(e, "reason"@, "identity"@),
{
    proof {
        reveal_strlit("reason");
    }
    if same_text(&configured.name, &planned.name) && same_text(&configured.email, &planned.email) {
        Ok(())
    } else {
        Err(
            machine_failure(
                "stale_plan",
                "the configured Git identity changed before publication",
                text_detail("reason", "identity"),
            ),
        )
    }
}

} // verus!
