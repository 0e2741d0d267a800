//! The last screen before a remote rewrite: what will be replaced, by what, and how to
//! confirm or step back.

use vstd::prelude::*;

use crate::git_output::string_views;
use crate::history_explanation::append_all;
use crate::handoff::{short_oid, short_oid_text};
use crate::plan_summary::{count_of, resolution_counts, MergeResolution};
use crate::restack::BranchIdentity;
use crate::terminal_text::{escape, escaped};
use crate::text::{decimal, decimal_string, literal, push_str};

verus! {

/// What the confirmation screen reads of a reviewed plan.
#[derive(Clone, Debug)]
pub struct ConfirmationView {
    pub remote: String,
    pub environment: String,
    pub environment_tip: String,
    pub preview_commit: String,
    /// How many features the rebuilt environment keeps.
    pub retained: usize,
    /// The features left out, in the plan's order.
    pub removed: Vec<BranchIdentity>,
    /// How each retained feature's merge was resolved.
    pub resolutions: Vec<MergeResolution>,
    /// How many commits no retained branch contains.
    pub dropped: usize,
}

/// The title of the panel that holds the confirmation.
pub const CONFIRMATION_TITLE: &'static str = " PUBLISH REMOTE REWRITE ";

/// How many omitted branches are listed before summarizing the rest.
pub const OMITTED_BRANCH_LIMIT: usize = 3;

/// The parts of the merge summary: each kind of resolution that occurred, with its count.
pub open spec fn summary_parts(clean: nat, reused: nat, manual: nat) -> Seq<Seq<char>> {
    (if clean > 0 { seq![decimal(clean) + " clean"@] } else { Seq::empty() }) + (if reused > 0 {
        seq![decimal(reused) + " history reused"@]
    } else {
        Seq::empty()
    }) + (if manual > 0 { seq![decimal(manual) + " manual"@] } else { Seq::empty() })
}

/// The parts joined by `" · "`.
pub open spec fn joined_parts(parts: Seq<Seq<char>>) -> Seq<char>
    decreases parts.len(),
{
    if parts.len() == 0 {
        Seq::empty()
    } else if parts.len() == 1 {
        parts[0]
    } else {
        joined_parts(parts.drop_last()) + " · "@ + parts.last()
    }
}

/// How the merges were resolved: `0 merges`, `<n> clean merge(s)`, or the total followed
/// by each kind.
pub open spec fn resolution_text(resolutions: Seq<MergeResolution>) -> Seq<char> {
    let clean = count_of(resolutions, MergeResolution::Clean);
    let reused = count_of(resolutions, MergeResolution::Reused);
    let manual = count_of(resolutions, MergeResolution::Manual);
    let parts = summary_parts(clean, reused, manual);
    let total = resolutions.len();
    if parts.len() == 0 {
        "0 merges"@
    } else if parts.len() == 1 {
        parts[0] + " "@ + if total == 1 { "merge"@ } else { "merges"@ }
    } else {
        decimal(total) + " merges: "@ + joined_parts(parts)
    }
}

fn count_part(count: usize, label: &str) -> (part: String)
    ensures
        part@ == decimal(count as nat) + label@,
{
    let mut part = decimal_string(count as u64);
    push_str(&mut part, label);
    part
}

/// The merge summary of the review and confirmation screens.
pub fn resolution_summary(resolutions: &Vec<MergeResolution>) -> (summary: String)
    ensures
        summary@ == resolution_text(resolutions@),
{
    let (clean, reused, manual) = resolution_counts(resolutions);
    proof {
        crate::plan_summary::lemma_counts_cover_every_merge(resolutions@);
    }
    let mut parts: Vec<String> = Vec::new();
    if clean > 0 {
        parts.push(count_part(clean, " clean"));
    }
    if reused > 0 {
        parts.push(count_part(reused, " history reused"));
    }
    if manual > 0 {
        parts.push(count_part(manual, " manual"));
    }
    proof {
        assert(string_views(parts@) =~= summary_parts(clean as nat, reused as nat, manual as nat));
    }
    let total = resolutions.len();
    if parts.len() == 0 {
        return literal("0 merges");
    }
    if parts.len() == 1 {
        let mut summary = parts[0].clone();
        push_str(&mut summary, " ");
        push_str(
            &mut summary,
            if total == 1 {
                "merge"
            } else {
                "merges"
            },
        );
        proof {
            assert(string_views(parts@)[0] == parts@[0]@);
        }
        return summary;
    }
    let mut summary = decimal_string(total as u64);
    push_str(&mut summary, " merges: ");
    let ghost start = summary@;
    let mut i: usize = 0;
    while i < parts.len()
        invariant
            i <= parts.len(),
            summary@ == start + joined_parts(string_views(parts@).take(i as int)),
        decreases parts.len() - i,
    {
        proof {
            assert(string_views(parts@).take(i + 1).drop_last() =~= string_views(parts@).take(i as int));
            assert(string_views(parts@).take(i + 1).last() == parts@[i as int]@);
            if i == 0 {
                assert(string_views(parts@).take(1) =~= seq![parts@[0]@]);
            }
        }
        if i > 0 {
            push_str(&mut summary, " · ");
        }
        push_str(&mut summary, &parts[i]);
        i = i + 1;
    }
    proof {
        assert(string_views(parts@).take(parts.len() as int) =~= string_views(parts@));
    }
    summary
}

/// The target the rewrite replaces, as `remote/environment`.
pub open spec fn target_of(view: ConfirmationView) -> Seq<char> {
    escaped(view.remote@) + "/"@ + escaped(view.environment@)
}

/// The lines that list omitted branches: at most three, then how many more.
pub open spec fn omission_lines(removed: Seq<BranchIdentity>) -> Seq<Seq<char>> {
    let shown = if removed.len() <= OMITTED_BRANCH_LIMIT {
        removed
    } else {
        removed.take(OMITTED_BRANCH_LIMIT as int)
    };
    seq![Seq::empty(), "Omitted from the reviewed result"@] + Seq::new(
        shown.len(),
        |i: int| "  –  "@ + escaped(shown[i].name@) + " @ "@ + short_oid_text(shown[i].tip@),
    ) + if removed.len() > OMITTED_BRANCH_LIMIT {
        seq![
            "  … and "@ + decimal((removed.len() - OMITTED_BRANCH_LIMIT) as nat)
                + " more; press Esc to review every omission"@,
        ]
    } else {
        Seq::empty()
    }
}

/// The lines that name the target, the two tips, the scope and the lease.
pub open spec fn head_lines(view: ConfirmationView) -> Seq<Seq<char>> {
    let target = target_of(view);
    let retained_label = if view.retained == 1 { "feature"@ } else { "features"@ };
    seq![
        "Current tip     "@ + target + " @ "@ + short_oid_text(view.environment_tip@),
        "Reviewed tip    "@ + target + " @ "@ + short_oid_text(view.preview_commit@),
        "Rewrite scope   "@ + "rebuild "@ + target + " from "@ + decimal(view.retained as nat)
            + " retained "@ + retained_label + " · "@ + decimal(view.removed@.len()) + " omitted · "@
            + resolution_text(view.resolutions@),
        Seq::empty(),
        "Remote guard    "@ + "publish stops if "@ + target + " changed since review (exact lease)"@,
    ]
}

/// The warning about dropped commits, when there are any.
pub open spec fn drop_lines(view: ConfirmationView) -> Seq<Seq<char>> {
    if view.dropped > 0 {
        seq![
            Seq::empty(),
            "Drops "@ + decimal(view.dropped as nat) + " "@ + if view.dropped == 1 {
                "commit"@
            } else {
                "commits"@
            } + " that no retained branch contains."@,
        ]
    } else {
        Seq::empty()
    }
}

/// The closing warning and the keys.
pub open spec fn closing_lines(view: ConfirmationView) -> Seq<Seq<char>> {
    let target = target_of(view);
    seq![
        Seq::empty(),
        "This rewrites "@ + target
            + " history; collaborators tracking it must resync after publish."@,
        "Feature branches and local work remain unchanged."@,
        Seq::empty(),
        "Press Ctrl+Y to replace "@ + target + " with this reviewed result."@,
        "Esc returns to Review; q abandons this plan without changing refs."@,
    ]
}

/// Every line of the confirmation screen.
pub open spec fn confirmation_lines(view: ConfirmationView) -> Seq<Seq<char>> {
    head_lines(view) + drop_lines(view) + (if view.removed@.len() > 0 {
        omission_lines(view.removed@)
    } else {
        Seq::empty()
    }) + closing_lines(view)
}

pub(crate) fn line_of(parts: &Vec<&str>) -> (line: String)
    ensures
        line@ == crate::history_explanation::joined_spec(parts@),
{
    let mut line = String::new();
    let mut i: usize = 0;
    while i < parts.len()
        invariant
            i <= parts.len(),
            line@ == crate::history_explanation::joined_spec(parts@.take(i as int)),
        decreases parts.len() - i,
    {
        proof {
            assert(parts@.take(i + 1).drop_last() =~= parts@.take(i as int));
        }
        push_str(&mut line, parts[i]);
        i = i + 1;
    }
    proof {
        assert(parts@.take(parts.len() as int) =~= parts@);
    }
    line
}

pub(crate) fn push_line(lines: &mut Vec<String>, line: String)
    ensures
        string_views(final(lines)@) == string_views(old(lines)@).push(line@),
{
    let ghost before = lines@;
    lines.push(line);
    proof {
        assert(string_views(lines@) =~= string_views(before).push(line@));
    }
}

fn target_text(view: &ConfirmationView) -> (target: String)
    ensures
        target@ == target_of(*view),
{
    let mut target = escape(&view.remote);
    push_str(&mut target, "/");
    push_str(&mut target, &escape(&view.environment));
    target
}

fn head_text(view: &ConfirmationView, target: &String) -> (lines: Vec<String>)
    requires
        target@ == target_of(*view),
    ensures
        string_views(lines@) == head_lines(*view),
{
    let environment_tip = short_oid(&view.environment_tip);
    let preview = short_oid(&view.preview_commit);
    let retained = decimal_string(view.retained as u64);
    let removed_count = decimal_string(view.removed.len() as u64);
    let summary = resolution_summary(&view.resolutions);
    let retained_label = if view.retained == 1 {
        "feature"
    } else {
        "features"
    };
    let mut lines: Vec<String> = Vec::new();
    proof {
        reveal_with_fuel(crate::history_explanation::joined_spec, 12);
    }
    push_line(&mut lines, line_of(&vec!["Current tip     ", target.as_str(), " @ ", environment_tip.as_str()]));
    push_line(&mut lines, line_of(&vec!["Reviewed tip    ", target.as_str(), " @ ", preview.as_str()]));
    push_line(
        &mut lines,
        line_of(
            &vec![
                "Rewrite scope   ",
                "rebuild ",
                target.as_str(),
                " from ",
                retained.as_str(),
                " retained ",
                retained_label,
                " · ",
                removed_count.as_str(),
                " omitted · ",
                summary.as_str(),
            ],
        ),
    );
    push_line(&mut lines, String::new());
    push_line(
        &mut lines,
        line_of(
            &vec![
                "Remote guard    ",
                "publish stops if ",
                target.as_str(),
                " changed since review (exact lease)",
            ],
        ),
    );
    proof {
        assert(string_views(lines@) =~= head_lines(*view));
    }
    lines
}

fn drop_text(view: &ConfirmationView) -> (lines: Vec<String>)
    ensures
        string_views(lines@) == drop_lines(*view),
{
    let mut lines: Vec<String> = Vec::new();
    if view.dropped > 0 {
        proof {
            reveal_with_fuel(crate::history_explanation::joined_spec, 6);
        }
        push_line(&mut lines, String::new());
        let dropped = decimal_string(view.dropped as u64);
        let noun = if view.dropped == 1 {
            "commit"
        } else {
            "commits"
        };
        push_line(
            &mut lines,
            line_of(&vec!["Drops ", dropped.as_str(), " ", noun, " that no retained branch contains."]),
        );
    }
    proof {
        assert(string_views(lines@) =~= drop_lines(*view));
    }
    lines
}

fn omission_text(removed: &Vec<BranchIdentity>) -> (lines: Vec<String>)
    ensures
        string_views(lines@) == omission_lines(removed@),
{
    let mut lines: Vec<String> = Vec::new();
    push_line(&mut lines, String::new());
    push_line(&mut lines, literal("Omitted from the reviewed result"));
    let shown: usize = if removed.len() <= OMITTED_BRANCH_LIMIT {
        removed.len()
    } else {
        OMITTED_BRANCH_LIMIT
    };
    let ghost shown_seq = if removed@.len() <= OMITTED_BRANCH_LIMIT {
        removed@
    } else {
        removed@.take(OMITTED_BRANCH_LIMIT as int)
    };
    let ghost items = Seq::new(
        shown_seq.len(),
        |i: int| "  –  "@ + escaped(shown_seq[i].name@) + " @ "@ + short_oid_text(shown_seq[i].tip@),
    );
    let ghost start = string_views(lines@);
    proof {
        assert(start + items.take(0) =~= start);
    }
    let mut i: usize = 0;
    while i < shown
        invariant
            shown == shown_seq.len(),
            shown <= removed.len(),
            shown_seq == if removed@.len() <= OMITTED_BRANCH_LIMIT {
                removed@
            } else {
                removed@.take(OMITTED_BRANCH_LIMIT as int)
            },
            items == Seq::new(
                shown_seq.len(),
                |k: int| "  –  "@ + escaped(shown_seq[k].name@) + " @ "@ + short_oid_text(shown_seq[k].tip@),
            ),
            i <= shown,
            string_views(lines@) == start + items.take(i as int),
        decreases shown - i,
    {
        proof {
            reveal_with_fuel(crate::history_explanation::joined_spec, 5);
        }
        let branch = &removed[i];
        let name = escape(&branch.name);
        let tip = short_oid(&branch.tip);
        push_line(&mut lines, line_of(&vec!["  –  ", name.as_str(), " @ ", tip.as_str()]));
        i = i + 1;
        proof {
            assert(shown_seq[i - 1] == removed@[i - 1]);
            assert(items.take(i as int) =~= items.take(i - 1).push(items[i - 1]));
        }
    }
    proof {
        assert(items.take(shown as int) =~= items);
    }
    if removed.len() > OMITTED_BRANCH_LIMIT {
        proof {
            reveal_with_fuel(crate::history_explanation::joined_spec, 4);
        }
        let more = decimal_string((removed.len() - OMITTED_BRANCH_LIMIT) as u64);
        push_line(
            &mut lines,
            line_of(&vec!["  … and ", more.as_str(), " more; press Esc to review every omission"]),
        );
    }
    proof {
        assert(string_views(lines@) =~= omission_lines(removed@));
    }
    lines
}

fn closing_text(view: &ConfirmationView, target: &String) -> (lines: Vec<String>)
    requires
        target@ == target_of(*view),
    ensures
        string_views(lines@) == closing_lines(*view),
{
    let mut lines: Vec<String> = Vec::new();
    proof {
        reveal_with_fuel(crate::history_explanation::joined_spec, 4);
    }
    push_line(&mut lines, String::new());
    push_line(
        &mut lines,
        line_of(
            &vec![
                "This rewrites ",
                target.as_str(),
                " history; collaborators tracking it must resync after publish.",
            ],
        ),
    );
    push_line(&mut lines, literal("Feature branches and local work remain unchanged."));
    push_line(&mut lines, String::new());
    push_line(
        &mut lines,
        line_of(&vec!["Press Ctrl+Y to replace ", target.as_str(), " with this reviewed result."]),
    );
    push_line(&mut lines, literal("Esc returns to Review; q abandons this plan without changing refs."));
    proof {
        assert(string_views(lines@) =~= closing_lines(*view));
    }
    lines
}

/// The confirmation screen when no reviewed plan is at hand.
pub open spec fn unavailable_plan_lines() -> Seq<Seq<char>> {
    seq!["The reviewed plan is unavailable."@]
}

/// The confirmation screen, line by line, with every name and object id escaped; without
/// a reviewed plan, the one line that says so.
pub fn confirmation_text(view: Option<&ConfirmationView>) -> (lines: Vec<String>)
    ensures
        match view {
            Some(plan) => string_views(lines@) == confirmation_lines(*plan),
            None => string_views(lines@) == unavailable_plan_lines(),
        },
{
    match view {
        Some(plan) => plan_confirmation_text(plan),
        None => {
            let mut lines: Vec<String> = Vec::new();
            push_line(&mut lines, literal("The reviewed plan is unavailable."));
            proof {
                assert(string_views(lines@) =~= unavailable_plan_lines());
            }
            lines
        },
    }
}

fn plan_confirmation_text(view: &ConfirmationView) -> (lines: Vec<String>)
    ensures
        string_views(lines@) == confirmation_lines(*view),
{
    let target = target_text(view);
    let mut lines = head_text(view, &target);
    append_all(&mut lines, drop_text(view));
    if view.removed.len() > 0 {
        append_all(&mut lines, omission_text(&view.removed));
    }
    append_all(&mut lines, closing_text(view, &target));
    proof {
        assert(string_views(lines@) =~= confirmation_lines(*view));
    }
    lines
}

} // verus!
