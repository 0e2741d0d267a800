//! The review screen of an interactive restack: the rewrite it proposes, what it omits,
//! the merge order with each outcome, dropped commits, tainted branches and, on request,
//! the exact refs, identities and endpoints.

use vstd::prelude::*;

use crate::confirmation::{line_of, push_line, resolution_summary, resolution_text};
use crate::git_output::string_views;
use crate::handoff::{
    absorbed_merges_summary, absorbed_merges_text, dropped_summary, dropped_summary_text, short_oid,
    short_oid_text,
};
use crate::history_explanation::{append_all, joined_spec};
use crate::plan_summary::MergeResolution;
use crate::restack::BranchIdentity;
use crate::terminal_text::{escape, escaped};
use crate::text::{decimal, decimal_string, literal, push_char, push_str, repeat, repeat_char};
use crate::text_compare::chars_of;

verus! {

/// The number of terminal columns a text occupies, as ratatui measures a line.
pub uninterp spec fn line_width(text: Seq<char>) -> nat;

/// `ratatui::text::Line::raw(text).width()`: the display width of the text in terminal
/// columns (by the Unicode width tables), named rather than restated.
#[verifier::external_body]
pub(crate) fn display_width(text: &str) -> (width: usize)
    ensures
        width == line_width(text@),
{
    ratatui::text::Line::raw(text).width()
}

/// How many leading characters of `value` fit in `visible` columns, adding one character
/// at a time until the next one would not fit.
pub open spec fn fit_len(value: Seq<char>, visible: nat, k: nat) -> nat
    decreases value.len() - k,
{
    if k >= value.len() || line_width(value.take((k + 1) as int)) > visible {
        k
    } else {
        fit_len(value, visible, k + 1)
    }
}

/// `value` cut to `width` columns with an ellipsis, or unchanged when it fits.
pub open spec fn truncated(value: Seq<char>, width: nat) -> Seq<char> {
    if line_width(value) <= width {
        value
    } else {
        let visible = if width > 0 { (width - 1) as nat } else { 0 };
        value.take(fit_len(value, visible, 0) as int).push('…')
    }
}

/// `value` followed by spaces up to `width` columns.
pub open spec fn padded(value: Seq<char>, width: nat) -> Seq<char> {
    value + repeat(' ', if line_width(value) < width { (width - line_width(value)) as nat } else { 0 })
}

/// Cuts `value` to `width` terminal columns, ending it with `…` when it was longer.
pub fn truncate_text(value: &str, width: usize) -> (text: String)
    ensures
        text@ == truncated(value@, width as nat),
{
    if display_width(value) <= width {
        return literal(value);
    }
    let visible: usize = if width > 0 {
        width - 1
    } else {
        0
    };
    let chars = chars_of(value);
    let mut kept = String::new();
    let mut k: usize = 0;
    loop
        invariant
            chars@ == value@,
            k <= chars.len(),
            kept@ == value@.take(k as int),
            fit_len(value@, visible as nat, 0) == fit_len(value@, visible as nat, k as nat),
        ensures
            kept@ == value@.take(k as int),
            fit_len(value@, visible as nat, 0) == k,
        decreases chars.len() - k,
    {
        if k >= chars.len() {
            break;
        }
        let mut candidate = kept.clone();
        push_char(&mut candidate, chars[k]);
        proof {
            assert(candidate@ =~= value@.take(k + 1));
        }
        if display_width(&candidate) > visible {
            break;
        }
        kept = candidate;
        k = k + 1;
    }
    push_char(&mut kept, '…');
    kept
}

/// Pads `value` with spaces to `width` terminal columns.
pub fn pad_text(value: &str, width: usize) -> (text: String)
    ensures
        text@ == padded(value@, width as nat),
{
    let used = display_width(value);
    let padding: usize = if used < width {
        width - used
    } else {
        0
    };
    let mut text = literal(value);
    push_str(&mut text, &repeat_char(' ', padding));
    text
}

/// A dropped commit as the review lists it.
#[derive(Clone, Debug)]
pub struct OrphanRow {
    pub commit: String,
    pub date: String,
    pub author: String,
    pub subject: String,
}

/// A branch that merged the environment into itself.
#[derive(Clone, Debug)]
pub struct TaintedRow {
    pub name: String,
    pub tip: String,
    /// How many environment merges its history absorbed.
    pub absorbed: usize,
}

/// The refs, identities and endpoints behind a plan.
#[derive(Clone, Debug)]
pub struct TechnicalDetails {
    pub main_ref: String,
    pub main_tip: String,
    pub environment_ref: String,
    pub final_tree: String,
    pub author_name: String,
    pub author_email: String,
    pub fetch_sha256: String,
    pub push_sha256: String,
    pub dropped_markers: usize,
    /// The kind and commit of the history proof failure, when it failed.
    pub unsupported: Option<(String, Option<String>)>,
    pub carried: usize,
}

/// What the review screen reads of a plan.
#[derive(Clone, Debug)]
pub struct ReviewView {
    pub remote: String,
    pub environment: String,
    pub main: String,
    pub environment_tip: String,
    pub preview_commit: String,
    pub retained: Vec<BranchIdentity>,
    pub removed: Vec<BranchIdentity>,
    /// How each merge was resolved, in merge order.
    pub resolutions: Vec<MergeResolution>,
    /// Whether the plan was rebuilt from the branch inventory.
    pub reachability: bool,
    pub orphaned: Vec<OrphanRow>,
    pub tainted: Vec<TaintedRow>,
    pub details: TechnicalDetails,
}

/// How many tainted branches are listed before summarizing the rest.
pub const TAINTED_EVIDENCE_LIMIT: usize = 3;

/// `remote/environment`, escaped.
pub open spec fn review_target(view: ReviewView) -> Seq<char> {
    escaped(view.remote@) + "/"@ + escaped(view.environment@)
}

/// The header, the rewrite and its impact.
pub open spec fn review_head(view: ReviewView) -> Seq<Seq<char>> {
    seq![
        "RESTACK REVIEW"@ + "  ·  "@ + review_target(view),
        Seq::empty(),
        "Remote rewrite"@,
        "Rewrite         "@ + short_oid_text(view.environment_tip@) + "  →  "@ + short_oid_text(
            view.preview_commit@,
        ),
        "Impact          "@ + decimal(view.retained@.len()) + " retained · "@ + decimal(
            view.removed@.len(),
        ) + " omitted from the rebuilt environment · "@ + resolution_text(view.resolutions@),
    ] + if view.reachability {
        seq![
            "Inventory       "@ + "reachability · oldest tip first · resolutions not reused · "@
                + dropped_summary_text(view.orphaned@.len()),
        ]
    } else {
        Seq::empty()
    }
}

/// The omitted branches and the promise that their remote branches stay.
pub open spec fn review_omissions(view: ReviewView) -> Seq<Seq<char>> {
    if view.removed@.len() == 0 {
        Seq::empty()
    } else {
        seq![
            Seq::empty(),
            "Omitted from "@ + review_target(view),
            "Their remote branches are not changed or deleted; press Esc to revise."@,
        ] + Seq::new(
            view.removed@.len(),
            |i: int| "  –  "@ + escaped(view.removed@[i].name@) + "  "@ + short_oid_text(
                view.removed@[i].tip@,
            ) + "  omitted by your selection"@,
        )
    }
}

/// The lease and the details toggle.
pub open spec fn review_guard(view: ReviewView, show_details: bool) -> Seq<Seq<char>> {
    seq![
        Seq::empty(),
        "Remote guard    "@ + "publish stops if "@ + review_target(view) + " changed since this review"@,
        Seq::empty(),
        "Plan details"@ + if show_details {
            "  ·  d hide refs, identities, endpoints, and signing"@
        } else {
            "  ·  d show refs, identities, endpoints, and signing"@
        },
    ]
}

/// The refs, identities, endpoints and signing behind the plan.
pub open spec fn technical_lines(view: ReviewView) -> Seq<Seq<char>> {
    let d = view.details;
    seq![
        "Base            "@ + escaped(d.main_ref@) + " @ "@ + escaped(d.main_tip@),
        "Environment     "@ + escaped(d.environment_ref@) + " @ "@ + escaped(view.environment_tip@),
        "Preview commit  "@ + escaped(view.preview_commit@),
        "Final tree      "@ + escaped(d.final_tree@),
        "Author          "@ + escaped(d.author_name@) + " <"@ + escaped(d.author_email@) + ">"@,
        "Fetch endpoint  "@ + "sha256:"@ + d.fetch_sha256@,
        "Push endpoint   "@ + "sha256:"@ + d.push_sha256@,
        "Publish guard   "@ + "exact lease; "@ + review_target(view) + " must still be at "@
            + escaped(view.environment_tip@),
        "Signing         "@ + "unsigned canonical merge commits"@,
        "Dropped markers "@ + decimal(d.dropped_markers as nat) + " exact phase marker(s)"@,
        "Inventory       "@ + match d.unsupported {
            None => "history proof; every commit attributed"@,
            Some((kind, commit)) => "reachability; history proof failed with "@ + escaped(kind@)
                + " at "@ + match commit {
                Some(c) => short_oid_text(c@),
                None => "?"@,
            },
        },
        "Carried         "@ + decimal(d.carried as nat) + " branch(es) reached by a retained tip"@,
    ]
}

/// `n` right-aligned in two columns.
pub open spec fn right_aligned2(n: nat) -> Seq<char> {
    if n < 10 {
        " "@ + decimal(n)
    } else {
        decimal(n)
    }
}

/// `text` left-aligned in seven characters.
pub open spec fn left_aligned7(text: Seq<char>) -> Seq<char> {
    text + repeat(' ', if text.len() < 7 { (7 - text.len()) as nat } else { 0 })
}

/// The outcome shown for the merge at `index`.
pub open spec fn outcome_text(resolutions: Seq<MergeResolution>, index: int) -> Seq<char> {
    if index < resolutions.len() {
        match resolutions[index] {
            MergeResolution::Clean => "✓ clean"@,
            MergeResolution::Reused => "✓ history reused"@,
            MergeResolution::Manual => "◆ manual"@,
        }
    } else {
        "unavailable"@
    }
}

/// One row of the merge order.
pub open spec fn merge_row(view: ReviewView, index: int) -> Seq<char> {
    let branch = view.retained@[index];
    "  "@ + right_aligned2((index + 1) as nat) + "  "@ + padded(truncated(escaped(branch.name@), 32), 32)
        + "  "@ + left_aligned7(short_oid_text(branch.tip@)) + "  "@ + outcome_text(view.resolutions@, index)
}

/// The merge order with each outcome.
pub open spec fn review_order(view: ReviewView) -> Seq<Seq<char>> {
    seq![
        Seq::empty(),
        "Retained merge order"@,
        if view.reachability {
            "Selected feature tips are rebuilt oldest tip first, then by name."@
        } else {
            "Selected feature tips are rebuilt in this order."@
        },
        "   #  BRANCH                            COMMIT   OUTCOME"@,
    ] + if view.retained@.len() == 0 {
        seq!["  —  none; the environment becomes the captured base"@]
    } else {
        Seq::new(view.retained@.len(), |i: int| merge_row(view, i))
    }
}

/// One dropped commit.
pub open spec fn orphan_row(row: OrphanRow) -> Seq<char> {
    "  "@ + short_oid_text(row.commit@) + "  "@ + escaped(row.date@) + "  "@ + padded(
        truncated(escaped(row.author@), 14),
        14,
    ) + "  "@ + truncated(escaped(row.subject@), 48)
}

/// The dropped commits, when there are any.
pub open spec fn review_orphans(view: ReviewView) -> Seq<Seq<char>> {
    if view.orphaned@.len() == 0 {
        Seq::empty()
    } else {
        seq![
            Seq::empty(),
            "Dropped commits ("@ + decimal(view.orphaned@.len()) + ")"@,
            "On no retained branch; they will not be in the rebuilt environment."@,
        ] + Seq::new(view.orphaned@.len(), |i: int| orphan_row(view.orphaned@[i]))
    }
}

/// One tainted branch.
pub open spec fn tainted_row(row: TaintedRow) -> Seq<char> {
    "  "@ + padded(truncated(escaped(row.name@), 32), 32) + "  "@ + short_oid_text(row.tip@) + "  "@
        + absorbed_merges_summary(row.absorbed as nat)
}

/// The tainted branches, at most three, when there are any.
pub open spec fn review_tainted(view: ReviewView) -> Seq<Seq<char>> {
    let count = view.tainted@.len();
    if count == 0 {
        Seq::empty()
    } else {
        let shown = if count <= TAINTED_EVIDENCE_LIMIT { count } else { TAINTED_EVIDENCE_LIMIT as nat };
        seq![
            Seq::empty(),
            "Tainted branches ("@ + decimal(count) + ")"@,
            "Merged "@ + escaped(view.environment@) + " into themselves; removed and never retained. Recreate from "@
                + escaped(view.main@) + " and cherry-pick."@,
        ] + Seq::new(shown, |i: int| tainted_row(view.tainted@[i])) + if count > TAINTED_EVIDENCE_LIMIT {
            seq!["  … and "@ + decimal((count - TAINTED_EVIDENCE_LIMIT) as nat) + " more"@]
        } else {
            Seq::empty()
        }
    }
}

/// The exact identities of every feature, shown with the details.
pub open spec fn review_identities(view: ReviewView) -> Seq<Seq<char>> {
    seq![Seq::empty(), "Exact feature identities"@] + Seq::new(
        view.retained@.len(),
        |i: int| "  retained  "@ + escaped(view.retained@[i].name@) + " @ "@ + escaped(view.retained@[i].tip@),
    ) + Seq::new(
        view.removed@.len(),
        |i: int| "  removed   "@ + escaped(view.removed@[i].name@) + " @ "@ + escaped(view.removed@[i].tip@),
    )
}

/// Every line of the review screen.
pub open spec fn review_lines(view: ReviewView, show_details: bool) -> Seq<Seq<char>> {
    review_head(view) + review_omissions(view) + review_guard(view, show_details) + (if show_details {
        technical_lines(view)
    } else {
        Seq::empty()
    }) + review_order(view) + review_orphans(view) + review_tainted(view) + if show_details {
        review_identities(view)
    } else {
        Seq::empty()
    }
}

fn target_of_view(view: &ReviewView) -> (target: String)
    ensures
        target@ == review_target(*view),
{
    let mut target = escape(&view.remote);
    push_str(&mut target, "/");
    push_str(&mut target, &escape(&view.environment));
    target
}

fn head_section(view: &ReviewView, target: &String) -> (lines: Vec<String>)
    requires
        target@ == review_target(*view),
    ensures
        string_views(lines@) == review_head(*view),
{
    proof {
        reveal_with_fuel(joined_spec, 8);
    }
    let mut lines: Vec<String> = Vec::new();
    push_line(&mut lines, line_of(&vec!["RESTACK REVIEW", "  ·  ", target.as_str()]));
    push_line(&mut lines, String::new());
    push_line(&mut lines, literal("Remote rewrite"));
    let old_tip = short_oid(&view.environment_tip);
    let new_tip = short_oid(&view.preview_commit);
    push_line(&mut lines, line_of(&vec!["Rewrite         ", old_tip.as_str(), "  →  ", new_tip.as_str()]));
    let retained = decimal_string(view.retained.len() as u64);
    let removed = decimal_string(view.removed.len() as u64);
    let outcomes = resolution_summary(&view.resolutions);
    push_line(
        &mut lines,
        line_of(
            &vec![
                "Impact          ",
                retained.as_str(),
                " retained · ",
                removed.as_str(),
                " omitted from the rebuilt environment · ",
                outcomes.as_str(),
            ],
        ),
    );
    if view.reachability {
        let dropped = dropped_summary(view.orphaned.len());
        push_line(
            &mut lines,
            line_of(
                &vec![
                    "Inventory       ",
                    "reachability · oldest tip first · resolutions not reused · ",
                    dropped.as_str(),
                ],
            ),
        );
    }
    proof {
        assert(string_views(lines@) =~= review_head(*view));
    }
    lines
}

fn omission_section(view: &ReviewView, target: &String) -> (lines: Vec<String>)
    requires
        target@ == review_target(*view),
    ensures
        string_views(lines@) == review_omissions(*view),
{
    let mut lines: Vec<String> = Vec::new();
    if view.removed.len() == 0 {
        proof {
            assert(string_views(lines@) =~= review_omissions(*view));
        }
        return lines;
    }
    proof {
        reveal_with_fuel(joined_spec, 6);
    }
    push_line(&mut lines, String::new());
    push_line(&mut lines, line_of(&vec!["Omitted from ", target.as_str()]));
    push_line(&mut lines, literal("Their remote branches are not changed or deleted; press Esc to revise."));
    let ghost start = string_views(lines@);
    let ghost rows = Seq::new(
        view.removed@.len(),
        |i: int| "  –  "@ + escaped(view.removed@[i].name@) + "  "@ + short_oid_text(view.removed@[i].tip@)
            + "  omitted by your selection"@,
    );
    proof {
        assert(start + rows.take(0) =~= start);
    }
    let mut i: usize = 0;
    while i < view.removed.len()
        invariant
            i <= view.removed.len(),
            rows == Seq::new(
                view.removed@.len(),
                |k: int| "  –  "@ + escaped(view.removed@[k].name@) + "  "@ + short_oid_text(
                    view.removed@[k].tip@,
                ) + "  omitted by your selection"@,
            ),
            string_views(lines@) == start + rows.take(i as int),
        decreases view.removed.len() - i,
    {
        proof {
            reveal_with_fuel(joined_spec, 6);
        }
        let name = escape(&view.removed[i].name);
        let tip = short_oid(&view.removed[i].tip);
        push_line(&mut lines, line_of(&vec!["  –  ", name.as_str(), "  ", tip.as_str(), "  omitted by your selection"]));
        i = i + 1;
        proof {
            assert(rows.take(i as int) =~= rows.take(i - 1).push(rows[i - 1]));
        }
    }
    proof {
        assert(rows.take(view.removed.len() as int) =~= rows);
        assert(string_views(lines@) =~= review_omissions(*view));
    }
    lines
}

fn guard_section(view: &ReviewView, target: &String, show_details: bool) -> (lines: Vec<String>)
    requires
        target@ == review_target(*view),
    ensures
        string_views(lines@) == review_guard(*view, show_details),
{
    proof {
        reveal_with_fuel(joined_spec, 6);
    }
    let mut lines: Vec<String> = Vec::new();
    push_line(&mut lines, String::new());
    push_line(
        &mut lines,
        line_of(&vec!["Remote guard    ", "publish stops if ", target.as_str(), " changed since this review"]),
    );
    push_line(&mut lines, String::new());
    let toggle = if show_details {
        "  ·  d hide refs, identities, endpoints, and signing"
    } else {
        "  ·  d show refs, identities, endpoints, and signing"
    };
    push_line(&mut lines, line_of(&vec!["Plan details", toggle]));
    proof {
        assert(string_views(lines@) =~= review_guard(*view, show_details));
    }
    lines
}

/// The refs, identities, endpoints and signing behind a plan, one line each.
#[verifier::rlimit(40)]
pub fn technical_detail_lines(view: &ReviewView) -> (lines: Vec<String>)
    ensures
        string_views(lines@) == technical_lines(*view),
{
    let target = target_of_view(view);
    proof {
        reveal_with_fuel(joined_spec, 8);
    }
    let d = &view.details;
    let mut lines: Vec<String> = Vec::new();
    let main_ref = escape(&d.main_ref);
    let main_tip = escape(&d.main_tip);
    push_line(&mut lines, line_of(&vec!["Base            ", main_ref.as_str(), " @ ", main_tip.as_str()]));
    let environment_ref = escape(&d.environment_ref);
    let environment_tip = escape(&view.environment_tip);
    push_line(
        &mut lines,
        line_of(&vec!["Environment     ", environment_ref.as_str(), " @ ", environment_tip.as_str()]),
    );
    let preview = escape(&view.preview_commit);
    push_line(&mut lines, line_of(&vec!["Preview commit  ", preview.as_str()]));
    let tree = escape(&d.final_tree);
    push_line(&mut lines, line_of(&vec!["Final tree      ", tree.as_str()]));
    let name = escape(&d.author_name);
    let email = escape(&d.author_email);
    push_line(&mut lines, line_of(&vec!["Author          ", name.as_str(), " <", email.as_str(), ">"]));
    push_line(&mut lines, line_of(&vec!["Fetch endpoint  ", "sha256:", d.fetch_sha256.as_str()]));
    push_line(&mut lines, line_of(&vec!["Push endpoint   ", "sha256:", d.push_sha256.as_str()]));
    push_line(
        &mut lines,
        line_of(
            &vec![
                "Publish guard   ",
                "exact lease; ",
                target.as_str(),
                " must still be at ",
                environment_tip.as_str(),
            ],
        ),
    );
    push_line(&mut lines, line_of(&vec!["Signing         ", "unsigned canonical merge commits"]));
    let markers = decimal_string(d.dropped_markers as u64);
    push_line(&mut lines, line_of(&vec!["Dropped markers ", markers.as_str(), " exact phase marker(s)"]));
    match &d.unsupported {
        None => {
            push_line(&mut lines, line_of(&vec!["Inventory       ", "history proof; every commit attributed"]));
        },
        Some((kind, commit)) => {
            let kind_text = escape(kind);
            let at = match commit {
                Some(c) => short_oid(c),
                None => literal("?"),
            };
            push_line(
                &mut lines,
                line_of(
                    &vec![
                        "Inventory       ",
                        "reachability; history proof failed with ",
                        kind_text.as_str(),
                        " at ",
                        at.as_str(),
                    ],
                ),
            );
        },
    }
    let carried = decimal_string(d.carried as u64);
    push_line(
        &mut lines,
        line_of(&vec!["Carried         ", carried.as_str(), " branch(es) reached by a retained tip"]),
    );
    proof {
        let expected = technical_lines(*view);
        let actual = string_views(lines@);
        assert(actual.len() == expected.len());
        assert(actual[0] == expected[0]);
        assert(actual[1] == expected[1]);
        assert(actual[2] == expected[2]);
        assert(actual[3] == expected[3]);
        assert(actual[4] == expected[4]);
        assert(actual[5] == expected[5]);
        assert(actual[6] == expected[6]);
        assert(actual[7] == expected[7]);
        assert(actual[8] == expected[8]);
        assert(actual[9] == expected[9]);
        assert(actual[10] == expected[10]);
        assert(actual[11] == expected[11]);
        assert(actual =~= expected);
    }
    lines
}

fn right_aligned_index(n: usize) -> (text: String)
    ensures
        text@ == right_aligned2(n as nat),
{
    if n < 10 {
        let mut text = literal(" ");
        push_str(&mut text, &decimal_string(n as u64));
        text
    } else {
        decimal_string(n as u64)
    }
}

fn left_aligned(text: &String) -> (aligned: String)
    ensures
        aligned@ == left_aligned7(text@),
{
    let count = chars_of(text.as_str()).len();
    let mut aligned = text.clone();
    let padding: usize = if count < 7 {
        7 - count
    } else {
        0
    };
    push_str(&mut aligned, &repeat_char(' ', padding));
    aligned
}

fn outcome_label(resolutions: &Vec<MergeResolution>, index: usize) -> (label: &'static str)
    ensures
        label@ == outcome_text(resolutions@, index as int),
{
    proof {
        reveal_strlit("✓ clean");
        reveal_strlit("✓ history reused");
        reveal_strlit("◆ manual");
        reveal_strlit("unavailable");
    }
    if index < resolutions.len() {
        match resolutions[index] {
            MergeResolution::Clean => "✓ clean",
            MergeResolution::Reused => "✓ history reused",
            MergeResolution::Manual => "◆ manual",
        }
    } else {
        "unavailable"
    }
}

fn order_section(view: &ReviewView) -> (lines: Vec<String>)
    ensures
        string_views(lines@) == review_order(*view),
{
    let mut lines: Vec<String> = Vec::new();
    push_line(&mut lines, String::new());
    push_line(&mut lines, literal("Retained merge order"));
    push_line(
        &mut lines,
        literal(
            if view.reachability {
                "Selected feature tips are rebuilt oldest tip first, then by name."
            } else {
                "Selected feature tips are rebuilt in this order."
            },
        ),
    );
    push_line(&mut lines, literal("   #  BRANCH                            COMMIT   OUTCOME"));
    if view.retained.len() == 0 {
        push_line(&mut lines, literal("  —  none; the environment becomes the captured base"));
        proof {
            assert(string_views(lines@) =~= review_order(*view));
        }
        return lines;
    }
    let ghost start = string_views(lines@);
    let ghost rows = Seq::new(view.retained@.len(), |i: int| merge_row(*view, i));
    proof {
        assert(start + rows.take(0) =~= start);
    }
    let mut i: usize = 0;
    while i < view.retained.len()
        invariant
            i <= view.retained.len(),
            rows == Seq::new(view.retained@.len(), |k: int| merge_row(*view, k)),
            string_views(lines@) == start + rows.take(i as int),
        decreases view.retained.len() - i,
    {
        proof {
            reveal_with_fuel(joined_spec, 10);
        }
        let branch = &view.retained[i];
        let number = right_aligned_index(i + 1);
        let name = pad_text(&truncate_text(&escape(&branch.name), 32), 32);
        let tip = left_aligned(&short_oid(&branch.tip));
        let outcome = outcome_label(&view.resolutions, i);
        push_line(
            &mut lines,
            line_of(&vec!["  ", number.as_str(), "  ", name.as_str(), "  ", tip.as_str(), "  ", outcome]),
        );
        i = i + 1;
        proof {
            assert(rows.take(i as int) =~= rows.take(i - 1).push(rows[i - 1]));
        }
    }
    proof {
        assert(rows.take(view.retained.len() as int) =~= rows);
        assert(string_views(lines@) =~= review_order(*view));
    }
    lines
}

fn orphan_section(view: &ReviewView) -> (lines: Vec<String>)
    ensures
        string_views(lines@) == review_orphans(*view),
{
    let mut lines: Vec<String> = Vec::new();
    if view.orphaned.len() == 0 {
        proof {
            assert(string_views(lines@) =~= review_orphans(*view));
        }
        return lines;
    }
    proof {
        reveal_with_fuel(joined_spec, 5);
    }
    push_line(&mut lines, String::new());
    let count = decimal_string(view.orphaned.len() as u64);
    push_line(&mut lines, line_of(&vec!["Dropped commits (", count.as_str(), ")"]));
    push_line(&mut lines, literal("On no retained branch; they will not be in the rebuilt environment."));
    let ghost start = string_views(lines@);
    let ghost rows = Seq::new(view.orphaned@.len(), |i: int| orphan_row(view.orphaned@[i]));
    proof {
        assert(start + rows.take(0) =~= start);
    }
    let mut i: usize = 0;
    while i < view.orphaned.len()
        invariant
            i <= view.orphaned.len(),
            rows == Seq::new(view.orphaned@.len(), |k: int| orphan_row(view.orphaned@[k])),
            string_views(lines@) == start + rows.take(i as int),
        decreases view.orphaned.len() - i,
    {
        proof {
            reveal_with_fuel(joined_spec, 10);
        }
        let row = &view.orphaned[i];
        let commit = short_oid(&row.commit);
        let date = escape(&row.date);
        let author = pad_text(&truncate_text(&escape(&row.author), 14), 14);
        let subject = truncate_text(&escape(&row.subject), 48);
        push_line(
            &mut lines,
            line_of(&vec!["  ", commit.as_str(), "  ", date.as_str(), "  ", author.as_str(), "  ", subject.as_str()]),
        );
        i = i + 1;
        proof {
            assert(rows.take(i as int) =~= rows.take(i - 1).push(rows[i - 1]));
        }
    }
    proof {
        assert(rows.take(view.orphaned.len() as int) =~= rows);
        assert(string_views(lines@) =~= review_orphans(*view));
    }
    lines
}

fn tainted_section(view: &ReviewView) -> (lines: Vec<String>)
    ensures
        string_views(lines@) == review_tainted(*view),
{
    let mut lines: Vec<String> = Vec::new();
    let count = view.tainted.len();
    if count == 0 {
        proof {
            assert(string_views(lines@) =~= review_tainted(*view));
        }
        return lines;
    }
    proof {
        reveal_with_fuel(joined_spec, 6);
    }
    push_line(&mut lines, String::new());
    let total = decimal_string(count as u64);
    push_line(&mut lines, line_of(&vec!["Tainted branches (", total.as_str(), ")"]));
    let environment = escape(&view.environment);
    let main = escape(&view.main);
    push_line(
        &mut lines,
        line_of(
            &vec![
                "Merged ",
                environment.as_str(),
                " into themselves; removed and never retained. Recreate from ",
                main.as_str(),
                " and cherry-pick.",
            ],
        ),
    );
    let shown: usize = if count <= TAINTED_EVIDENCE_LIMIT {
        count
    } else {
        TAINTED_EVIDENCE_LIMIT
    };
    let ghost start = string_views(lines@);
    let ghost rows = Seq::new(shown as nat, |i: int| tainted_row(view.tainted@[i]));
    proof {
        assert(start + rows.take(0) =~= start);
    }
    let mut i: usize = 0;
    while i < shown
        invariant
            shown <= view.tainted.len(),
            i <= shown,
            rows == Seq::new(shown as nat, |k: int| tainted_row(view.tainted@[k])),
            string_views(lines@) == start + rows.take(i as int),
        decreases shown - i,
    {
        proof {
            reveal_with_fuel(joined_spec, 7);
        }
        let row = &view.tainted[i];
        let name = pad_text(&truncate_text(&escape(&row.name), 32), 32);
        let tip = short_oid(&row.tip);
        let absorbed = absorbed_merges_text(row.absorbed);
        push_line(&mut lines, line_of(&vec!["  ", name.as_str(), "  ", tip.as_str(), "  ", absorbed.as_str()]));
        i = i + 1;
        proof {
            assert(rows.take(i as int) =~= rows.take(i - 1).push(rows[i - 1]));
        }
    }
    proof {
        assert(rows.take(shown as int) =~= rows);
    }
    if count > TAINTED_EVIDENCE_LIMIT {
        proof {
            reveal_with_fuel(joined_spec, 4);
        }
        let hidden = decimal_string((count - TAINTED_EVIDENCE_LIMIT) as u64);
        push_line(&mut lines, line_of(&vec!["  … and ", hidden.as_str(), " more"]));
    }
    proof {
        assert(string_views(lines@) =~= review_tainted(*view));
    }
    lines
}

fn identity_section(view: &ReviewView) -> (lines: Vec<String>)
    ensures
        string_views(lines@) == review_identities(*view),
{
    let mut lines: Vec<String> = Vec::new();
    push_line(&mut lines, String::new());
    push_line(&mut lines, literal("Exact feature identities"));
    let ghost head = string_views(lines@);
    let ghost retained_rows = Seq::new(
        view.retained@.len(),
        |i: int| "  retained  "@ + escaped(view.retained@[i].name@) + " @ "@ + escaped(view.retained@[i].tip@),
    );
    let ghost removed_rows = Seq::new(
        view.removed@.len(),
        |i: int| "  removed   "@ + escaped(view.removed@[i].name@) + " @ "@ + escaped(view.removed@[i].tip@),
    );
    proof {
        assert(head + retained_rows.take(0) =~= head);
    }
    let mut i: usize = 0;
    while i < view.retained.len()
        invariant
            i <= view.retained.len(),
            retained_rows == Seq::new(
                view.retained@.len(),
                |k: int| "  retained  "@ + escaped(view.retained@[k].name@) + " @ "@ + escaped(
                    view.retained@[k].tip@,
                ),
            ),
            string_views(lines@) == head + retained_rows.take(i as int),
        decreases view.retained.len() - i,
    {
        proof {
            reveal_with_fuel(joined_spec, 5);
        }
        let name = escape(&view.retained[i].name);
        let tip = escape(&view.retained[i].tip);
        push_line(&mut lines, line_of(&vec!["  retained  ", name.as_str(), " @ ", tip.as_str()]));
        i = i + 1;
        proof {
            assert(retained_rows.take(i as int) =~= retained_rows.take(i - 1).push(retained_rows[i - 1]));
        }
    }
    proof {
        assert(retained_rows.take(view.retained.len() as int) =~= retained_rows);
        assert(head + retained_rows + removed_rows.take(0) =~= head + retained_rows);
    }
    let mut j: usize = 0;
    while j < view.removed.len()
        invariant
            j <= view.removed.len(),
            removed_rows == Seq::new(
                view.removed@.len(),
                |k: int| "  removed   "@ + escaped(view.removed@[k].name@) + " @ "@ + escaped(
                    view.removed@[k].tip@,
                ),
            ),
            string_views(lines@) == head + retained_rows + removed_rows.take(j as int),
        decreases view.removed.len() - j,
    {
        proof {
            reveal_with_fuel(joined_spec, 5);
        }
        let name = escape(&view.removed[j].name);
        let tip = escape(&view.removed[j].tip);
        push_line(&mut lines, line_of(&vec!["  removed   ", name.as_str(), " @ ", tip.as_str()]));
        j = j + 1;
        proof {
            assert(removed_rows.take(j as int) =~= removed_rows.take(j - 1).push(removed_rows[j - 1]));
        }
    }
    proof {
        assert(removed_rows.take(view.removed.len() as int) =~= removed_rows);
        assert(string_views(lines@) =~= review_identities(*view));
    }
    lines
}

/// The review screen, line by line, with every name from the repository escaped and
/// long names cut to their column.
pub fn review_text(view: &ReviewView, show_details: bool) -> (lines: Vec<String>)
    ensures
        string_views(lines@) == review_lines(*view, show_details),
{
    let target = target_of_view(view);
    let mut lines = head_section(view, &target);
    append_all(&mut lines, omission_section(view, &target));
    append_all(&mut lines, guard_section(view, &target, show_details));
    if show_details {
        append_all(&mut lines, technical_detail_lines(view));
    }
    append_all(&mut lines, order_section(view));
    append_all(&mut lines, orphan_section(view));
    append_all(&mut lines, tainted_section(view));
    if show_details {
        append_all(&mut lines, identity_section(view));
    }
    proof {
        assert(string_views(lines@) =~= review_lines(*view, show_details));
    }
    lines
}

} // verus!
