//! The feature checklist of an interactive restack: its column sizes, the rows of each
//! feature, the counts, and the help line under the list.

use vstd::prelude::*;

use crate::confirmation::push_line;
use crate::git_output::string_views;
use crate::handoff::{absorbed_merges_summary, absorbed_merges_text, short_oid, short_oid_text};
use crate::restack_errors::{escaped_list, push_escaped_list};
use crate::review::{display_width, line_width, pad_text, padded, truncate_text, truncated};
use crate::terminal_text::{escape, escaped};
use crate::text::{decimal, decimal_string, literal, push_str, repeat, repeat_char};
use crate::text_compare::chars_of;

verus! {

/// The columns of the checklist for a list `area_width` columns wide: the row width,
/// whether each feature fits on one row, and the width of the branch column.
pub open spec fn checklist_columns(area_width: nat) -> (nat, bool, nat) {
    let row_width = if area_width >= 4 { (area_width - 4) as nat } else { 0 };
    let wide = area_width >= 96;
    let spare = if wide {
        if row_width >= 63 { (row_width - 63) as nat } else { 0 }
    } else {
        if row_width >= 17 { (row_width - 17) as nat } else { 0 }
    };
    let most: nat = if wide { 38 } else { 46 };
    let branch = if spare < 16 { 16 } else if spare > most { most } else { spare };
    (row_width, wide, branch)
}

/// The column sizes of the checklist.
pub fn checklist_layout(area_width: u16) -> (columns: (usize, bool, usize))
    ensures
        columns.0 == checklist_columns(area_width as nat).0,
        columns.1 == checklist_columns(area_width as nat).1,
        columns.2 == checklist_columns(area_width as nat).2,
{
    let width = area_width as usize;
    let row_width: usize = if width >= 4 {
        width - 4
    } else {
        0
    };
    let wide = area_width >= 96;
    let spare: usize = if wide {
        if row_width >= 63 {
            row_width - 63
        } else {
            0
        }
    } else if row_width >= 17 {
        row_width - 17
    } else {
        0
    };
    let most: usize = if wide {
        38
    } else {
        46
    };
    let branch = if spare < 16 {
        16
    } else if spare > most {
        most
    } else {
        spare
    };
    (row_width, wide, branch)
}

/// What a checklist row shows of one feature.
#[derive(Clone, Debug)]
pub struct FeatureRowView {
    /// The feature's position in the inventory.
    pub index: usize,
    pub name: String,
    pub tip: String,
    /// The Jira key in the branch name, if any.
    pub jira_key: Option<String>,
    /// Whether the feature has earlier environment merges whose resolutions can be reused.
    pub has_history: bool,
    pub retained: bool,
    /// Whether a retained feature depends on this one.
    pub locked: bool,
}

/// `text` right-aligned in twelve characters.
pub open spec fn right_aligned12(text: Seq<char>) -> Seq<char> {
    repeat(' ', if text.len() < 12 { (12 - text.len()) as nat } else { 0 }) + text
}

/// The Jira key of a row, or a dash.
pub open spec fn jira_text(row: FeatureRowView) -> Seq<char> {
    match row.jira_key {
        Some(key) => key@,
        None => "—"@,
    }
}

/// The marks at the start of a row: kept or removed, and locked by a dependency.
pub open spec fn row_marks(row: FeatureRowView) -> Seq<char> {
    (if row.retained { "✓"@ } else { "–"@ }) + if row.locked { "◆"@ } else { " "@ }
}

/// Whether the reuse history is available, as the row says it.
pub open spec fn history_text(row: FeatureRowView) -> Seq<char> {
    if row.has_history { "available"@ } else { "—"@ }
}

/// The dependency marker at the end of a row.
pub open spec fn required_text(row: FeatureRowView) -> Seq<char> {
    if row.locked { "  ◆ required"@ } else { Seq::empty() }
}

/// The rows of one feature: one wide row, or a name row and a details row.
pub open spec fn feature_rows(row: FeatureRowView, row_width: nat, wide: bool, branch_width: nat) -> Seq<Seq<char>> {
    let branch = padded(truncated(escaped(row.name@), branch_width), branch_width);
    let number = decimal((row.index + 1) as nat);
    if wide {
        seq![
            row_marks(row) + "  #"@ + number + "  "@ + branch + "  "@ + short_oid_text(row.tip@) + "  "@
                + right_aligned12(jira_text(row)) + "  history: "@ + history_text(row) + required_text(row),
        ]
    } else {
        let left = "    #"@ + number + " · "@ + short_oid_text(row.tip@);
        let right = "history: "@.len() + history_text(row).len() + required_text(row).len();
        let gap = if row_width >= left.len() + right + 1 { (row_width - left.len() - right) as nat } else { 1 };
        seq![
            row_marks(row) + "  "@ + branch + " "@ + right_aligned12(jira_text(row)),
            left + repeat(' ', gap) + "history: "@ + history_text(row) + required_text(row),
        ]
    }
}

fn right_aligned(text: &String) -> (aligned: String)
    ensures
        aligned@ == right_aligned12(text@),
{
    let count = chars_of(text.as_str()).len();
    let padding: usize = if count < 12 {
        12 - count
    } else {
        0
    };
    let mut aligned = repeat_char(' ', padding);
    push_str(&mut aligned, text);
    aligned
}

/// The rows of one feature in the checklist, with its name escaped and cut to the branch
/// column.
pub fn feature_item(row: &FeatureRowView, row_width: usize, wide: bool, branch_width: usize) -> (lines:
    Vec<String>)
    requires
        row.index < usize::MAX,
    ensures
        string_views(lines@) == feature_rows(*row, row_width as nat, wide, branch_width as nat),
{
    proof {
        reveal_strlit("history: ");
        reveal_strlit("available");
        reveal_strlit("—");
        reveal_strlit("  ◆ required");
        reveal_strlit("");
    }
    let branch = pad_text(&truncate_text(&escape(&row.name), branch_width), branch_width);
    let number = decimal_string(row.index as u64 + 1);
    let tip = short_oid(&row.tip);
    let jira = match &row.jira_key {
        Some(key) => key.clone(),
        None => literal("—"),
    };
    let jira = right_aligned(&jira);
    let mut marks = literal(if row.retained {
        "✓"
    } else {
        "–"
    });
    push_str(&mut marks, if row.locked {
        "◆"
    } else {
        " "
    });
    let history = if row.has_history {
        "available"
    } else {
        "—"
    };
    let required = if row.locked {
        "  ◆ required"
    } else {
        ""
    };
    let mut lines: Vec<String> = Vec::new();
    if wide {
        let mut line = marks;
        push_str(&mut line, "  #");
        push_str(&mut line, &number);
        push_str(&mut line, "  ");
        push_str(&mut line, &branch);
        push_str(&mut line, "  ");
        push_str(&mut line, &tip);
        push_str(&mut line, "  ");
        push_str(&mut line, &jira);
        push_str(&mut line, "  history: ");
        push_str(&mut line, history);
        push_str(&mut line, required);
        push_line(&mut lines, line);
        proof {
            assert(string_views(lines@) =~= feature_rows(*row, row_width as nat, wide, branch_width as nat));
        }
        return lines;
    }
    let mut first = marks;
    push_str(&mut first, "  ");
    push_str(&mut first, &branch);
    push_str(&mut first, " ");
    push_str(&mut first, &jira);
    push_line(&mut lines, first);
    let mut left = literal("    #");
    push_str(&mut left, &number);
    push_str(&mut left, " · ");
    push_str(&mut left, &tip);
    let left_count = chars_of(left.as_str()).len();
    let history_count: usize = if row.has_history {
        9
    } else {
        1
    };
    let required_count: usize = if row.locked {
        12
    } else {
        0
    };
    let right_count: usize = 9 + history_count + required_count;
    let gap: usize = if left_count <= row_width && right_count <= row_width - left_count
        && row_width - left_count - right_count >= 1 {
        row_width - left_count - right_count
    } else {
        1
    };
    let mut second = left;
    push_str(&mut second, &repeat_char(' ', gap));
    push_str(&mut second, "history: ");
    push_str(&mut second, history);
    push_str(&mut second, required);
    push_line(&mut lines, second);
    proof {
        assert(string_views(lines@) =~= feature_rows(*row, row_width as nat, wide, branch_width as nat));
    }
    lines
}

/// The counts at the top right of the checklist, with the filter's reach when a filter
/// is set and the list is wide enough.
pub open spec fn selection_counts(retained: nat, total: nat, shown: nat, filtered: bool, area_width: nat) -> Seq<char> {
    let removed = if total >= retained { (total - retained) as nat } else { 0 };
    decimal(retained) + " retained · "@ + decimal(removed) + " removed"@ + if filtered && area_width >= 76 {
        " · "@ + decimal(shown) + "/"@ + decimal(total) + " shown"@
    } else {
        Seq::empty()
    }
}

/// The counts line of the checklist.
pub fn selection_summary(retained: usize, total: usize, shown: usize, filtered: bool, area_width: u16) -> (text:
    String)
    ensures
        text@ == selection_counts(retained as nat, total as nat, shown as nat, filtered, area_width as nat),
{
    let removed: usize = if total >= retained {
        total - retained
    } else {
        0
    };
    let mut text = decimal_string(retained as u64);
    push_str(&mut text, " retained · ");
    push_str(&mut text, &decimal_string(removed as u64));
    push_str(&mut text, " removed");
    if filtered && area_width >= 76 {
        push_str(&mut text, " · ");
        push_str(&mut text, &decimal_string(shown as u64));
        push_str(&mut text, "/");
        push_str(&mut text, &decimal_string(total as u64));
        push_str(&mut text, " shown");
    }
    text
}

/// What the inventory banner says will be dropped.
pub open spec fn dropped_banner(dropped: nat) -> Seq<char> {
    if dropped == 0 {
        "no commits dropped"@
    } else if dropped == 1 {
        "1 commit will be dropped"@
    } else {
        decimal(dropped) + " commits will be dropped"@
    }
}

/// The dropped-commit count of the inventory banner.
pub fn dropped_banner_text(dropped: usize) -> (text: String)
    ensures
        text@ == dropped_banner(dropped as nat),
{
    if dropped == 0 {
        literal("no commits dropped")
    } else if dropped == 1 {
        literal("1 commit will be dropped")
    } else {
        let mut text = decimal_string(dropped as u64);
        push_str(&mut text, " commits will be dropped");
        text
    }
}

/// What the checklist reads about the feature under the cursor.
#[derive(Clone, Debug)]
pub struct CursorContext {
    /// The feature's name when it merged the environment into itself.
    pub tainted: Option<String>,
    /// The retained features that depend on it.
    pub dependents: Vec<String>,
    pub environment: String,
    pub main: String,
    pub show_shortcuts: bool,
    pub reachability: bool,
}

/// The help line under the checklist.
pub open spec fn context_text(context: CursorContext) -> Seq<char> {
    match context.tainted {
        Some(name) => "↳ Tainted: "@ + escaped(name@) + " merged "@ + escaped(context.environment@)
            + " into itself. Recreate it from "@ + escaped(context.main@)
            + " and cherry-pick your commits."@,
        None => if context.dependents@.len() > 0 {
            "◆ Required by "@ + escaped_list(context.dependents@) + ". Remove those retained features first."@
        } else if context.show_shortcuts {
            "Shortcuts: a keep all · x remove all · Home/End first/last · PgUp/PgDn page · q/Ctrl-C cancel"@
        } else if context.reachability {
            "✓ retained · – removed · ◆ dependency · ↳ carried · ↳ tainted"@
        } else {
            "✓ retained · – removed · ◆ retained dependency · ↳ tainted · history = reusable resolution"@
        },
    }
}

/// The help line under the checklist: why the feature under the cursor is special, or the
/// keys and marks.
pub fn selection_context(context: &CursorContext) -> (text: String)
    ensures
        text@ == context_text(*context),
{
    match &context.tainted {
        Some(name) => {
            let mut text = literal("↳ Tainted: ");
            push_str(&mut text, &escape(name));
            push_str(&mut text, " merged ");
            push_str(&mut text, &escape(&context.environment));
            push_str(&mut text, " into itself. Recreate it from ");
            push_str(&mut text, &escape(&context.main));
            push_str(&mut text, " and cherry-pick your commits.");
            text
        },
        None => {
            if context.dependents.len() > 0 {
                let mut text = literal("◆ Required by ");
                push_escaped_list(&mut text, &context.dependents);
                push_str(&mut text, ". Remove those retained features first.");
                text
            } else if context.show_shortcuts {
                literal(
                    "Shortcuts: a keep all · x remove all · Home/End first/last · PgUp/PgDn page · q/Ctrl-C cancel",
                )
            } else if context.reachability {
                literal("✓ retained · – removed · ◆ dependency · ↳ carried · ↳ tainted")
            } else {
                literal(
                    "✓ retained · – removed · ◆ retained dependency · ↳ tainted · history = reusable resolution",
                )
            }
        },
    }
}

/// A branch that a feature's tip carries, listed under the first feature that carries it.
#[derive(Clone, Debug)]
pub struct CarriedRowView {
    pub name: String,
    pub tip: String,
    /// The other features that carry it, after the first.
    pub also: Vec<String>,
}

/// One shown feature of the checklist, with what is listed under it.
#[derive(Clone, Debug)]
pub struct ChecklistEntry {
    pub row: FeatureRowView,
    /// How many environment merges the feature absorbed, when it is tainted.
    pub tainted_merges: Option<usize>,
    pub carried: Vec<CarriedRowView>,
}

/// The row under a tainted feature.
pub open spec fn tainted_line(count: nat) -> Seq<char> {
    "      ↳ tainted  "@ + absorbed_merges_summary(count)
}

/// The other carriers of a carried branch, when there are any.
pub open spec fn also_via(also: Seq<String>) -> Seq<char> {
    if also.len() == 0 {
        Seq::empty()
    } else {
        "  (also via "@ + escaped_list(also) + ")"@
    }
}

/// The row of a carried branch.
pub open spec fn carried_line(carried: CarriedRowView, branch_width: nat) -> Seq<char> {
    "      ↳ carried  "@ + truncated(escaped(carried.name@), branch_width) + "  "@ + short_oid_text(
        carried.tip@,
    ) + also_via(carried.also@)
}

/// The rows of the carried branches, in order.
pub open spec fn carried_lines(carried: Seq<CarriedRowView>, branch_width: nat) -> Seq<Seq<char>>
    decreases carried.len(),
{
    if carried.len() == 0 {
        Seq::empty()
    } else {
        carried_lines(carried.drop_last(), branch_width).push(carried_line(carried.last(), branch_width))
    }
}

/// Every row that one feature takes in the list.
pub open spec fn entry_lines(entry: ChecklistEntry, row_width: nat, wide: bool, branch_width: nat) -> Seq<Seq<char>> {
    feature_rows(entry.row, row_width, wide, branch_width) + (match entry.tainted_merges {
        Some(count) => seq![tainted_line(count as nat)],
        None => Seq::empty(),
    }) + carried_lines(entry.carried@, branch_width)
}

/// Every row of the list, feature after feature.
pub open spec fn checklist_lines(entries: Seq<ChecklistEntry>, row_width: nat, wide: bool, branch_width: nat) -> Seq<
    Seq<char>,
>
    decreases entries.len(),
{
    if entries.len() == 0 {
        Seq::empty()
    } else {
        checklist_lines(entries.drop_last(), row_width, wide, branch_width) + entry_lines(
            entries.last(),
            row_width,
            wide,
            branch_width,
        )
    }
}

fn carried_item(carried: &CarriedRowView, branch_width: usize) -> (line: String)
    ensures
        line@ == carried_line(*carried, branch_width as nat),
{
    let mut line = literal("      ↳ carried  ");
    push_str(&mut line, &truncate_text(&escape(&carried.name), branch_width));
    push_str(&mut line, "  ");
    push_str(&mut line, &short_oid(&carried.tip));
    let ghost before = line@;
    if carried.also.len() > 0 {
        push_str(&mut line, "  (also via ");
        push_escaped_list(&mut line, &carried.also);
        push_str(&mut line, ")");
    }
    proof {
        if carried.also@.len() == 0 {
            assert(line@ =~= before + Seq::<char>::empty());
        }
    }
    line
}

fn push_entry(lines: &mut Vec<String>, entry: &ChecklistEntry, row_width: usize, wide: bool, branch_width: usize)
    requires
        entry.row.index < usize::MAX,
    ensures
        string_views(final(lines)@) == string_views(old(lines)@) + entry_lines(
            *entry,
            row_width as nat,
            wide,
            branch_width as nat,
        ),
{
    let ghost start = string_views(lines@);
    let rows = feature_item(&entry.row, row_width, wide, branch_width);
    let mut k: usize = 0;
    while k < rows.len()
        invariant
            k <= rows.len(),
            string_views(lines@) == start + string_views(rows@).take(k as int),
        decreases rows.len() - k,
    {
        push_line(lines, rows[k].clone());
        k = k + 1;
        proof {
            assert(string_views(rows@).take(k as int) =~= string_views(rows@).take(k - 1).push(rows@[k - 1]@));
            assert(string_views(lines@) =~= start + string_views(rows@).take(k as int));
        }
    }
    proof {
        assert(string_views(rows@).take(rows@.len() as int) =~= string_views(rows@));
    }
    let ghost after_rows = string_views(lines@);
    match entry.tainted_merges {
        Some(count) => {
            let mut line = literal("      ↳ tainted  ");
            push_str(&mut line, &absorbed_merges_text(count));
            push_line(lines, line);
        },
        None => {
            proof {
                assert(string_views(lines@) =~= after_rows + Seq::<Seq<char>>::empty());
            }
        },
    }
    let ghost after_tainted = string_views(lines@);
    let mut c: usize = 0;
    while c < entry.carried.len()
        invariant
            c <= entry.carried.len(),
            string_views(lines@) == after_tainted + carried_lines(entry.carried@.take(c as int), branch_width as nat),
        decreases entry.carried.len() - c,
    {
        proof {
            assert(entry.carried@.take(c + 1).drop_last() =~= entry.carried@.take(c as int));
        }
        push_line(lines, carried_item(&entry.carried[c], branch_width));
        c = c + 1;
        proof {
            assert(string_views(lines@) =~= after_tainted + carried_lines(entry.carried@.take(c as int), branch_width as nat));
        }
    }
    proof {
        assert(entry.carried@.take(entry.carried@.len() as int) =~= entry.carried@);
        assert(string_views(lines@) =~= start + entry_lines(*entry, row_width as nat, wide, branch_width as nat));
    }
}

/// Every row of the feature list: each shown feature, the row under a tainted one, and
/// the branches it carries.
pub fn checklist_items(entries: &Vec<ChecklistEntry>, row_width: usize, wide: bool, branch_width: usize) -> (lines:
    Vec<String>)
    requires
        forall|i: int| 0 <= i < entries@.len() ==> #[trigger] entries@[i].row.index < usize::MAX,
    ensures
        string_views(lines@) == checklist_lines(entries@, row_width as nat, wide, branch_width as nat),
{
    let mut lines: Vec<String> = Vec::new();
    let mut i: usize = 0;
    while i < entries.len()
        invariant
            i <= entries.len(),
            forall|j: int| 0 <= j < entries@.len() ==> #[trigger] entries@[j].row.index < usize::MAX,
            string_views(lines@) == checklist_lines(entries@.take(i as int), row_width as nat, wide, branch_width as nat),
        decreases entries.len() - i,
    {
        proof {
            assert(entries@.take(i + 1).drop_last() =~= entries@.take(i as int));
        }
        push_entry(&mut lines, &entries[i], row_width, wide, branch_width);
        i = i + 1;
    }
    proof {
        assert(entries@.take(entries@.len() as int) =~= entries@);
    }
    lines
}

/// The title of the checklist.
pub open spec fn title_text(remote: Seq<char>, environment: Seq<char>) -> Seq<char> {
    "SELECT FEATURES  "@ + escaped(remote) + "/"@ + escaped(environment)
}

/// `SELECT FEATURES  <remote>/<environment>`, both escaped.
pub fn selection_title(remote: &str, environment: &str) -> (title: String)
    ensures
        title@ == title_text(remote@, environment@),
{
    let mut title = literal("SELECT FEATURES  ");
    push_str(&mut title, &escape(remote));
    push_str(&mut title, "/");
    push_str(&mut title, &escape(environment));
    title
}

/// The inventory banner beside the dropped count, cut so that both fit on one row.
pub open spec fn banner_text(area_width: nat, dropped: nat) -> Seq<char> {
    let banner = if area_width >= 100 {
        "Inventory mode: reachability · oldest tip first · no reused resolutions"@
    } else {
        "Inventory mode · no rerere"@
    };
    let dropped_width = if dropped_banner(dropped).len() > 65535 { 65535 } else { dropped_banner(dropped).len() };
    let reserved = if dropped_width + 2 > 65535 { 65535 } else { dropped_width + 2 };
    let banner_width = if area_width > reserved { (area_width - reserved) as nat } else { 0 };
    truncated(banner, banner_width)
}

/// The banner of an inventory rebuild: what the mode does, cut to leave room for the
/// dropped count on the same row.
pub fn inventory_banner(area_width: u16, dropped: usize) -> (banner: String)
    ensures
        banner@ == banner_text(area_width as nat, dropped as nat),
{
    let dropped_text = dropped_banner_text(dropped);
    let count = chars_of(dropped_text.as_str()).len();
    let dropped_width: u16 = if count > 65535 {
        65535
    } else {
        count as u16
    };
    let reserved: u16 = if dropped_width > 65533 {
        65535
    } else {
        dropped_width + 2
    };
    let banner_width: u16 = if area_width > reserved {
        area_width - reserved
    } else {
        0
    };
    let banner = if area_width >= 100 {
        "Inventory mode: reachability · oldest tip first · no reused resolutions"
    } else {
        "Inventory mode · no rerere"
    };
    truncate_text(banner, banner_width as usize)
}

/// What the list says when the filter hides every feature.
pub open spec fn no_match_text(filter: Seq<char>) -> Seq<char> {
    "No branches match “"@ + escaped(filter) + "”."@
}

/// `No branches match “<filter>”.`, with the filter escaped.
pub fn empty_filter_text(filter: &str) -> (text: String)
    ensures
        text@ == no_match_text(filter@),
{
    let mut text = literal("No branches match “");
    push_str(&mut text, &escape(filter));
    push_str(&mut text, "”.");
    text
}

/// The rows the help line takes: its width divided by the area's, rounded up, and at
/// least one (two when the count does not fit a `u16`).
pub open spec fn help_rows(text: Seq<char>, area_width: nat) -> nat {
    let columns: int = if area_width == 0 { 1 } else { area_width as int };
    let rows: int = (line_width(text) + columns - 1) / columns;
    if rows > 65535 {
        2
    } else if rows == 0 {
        1
    } else {
        rows as nat
    }
}

/// The rows that the help line, or the rejection shown in its place, takes.
pub fn context_height(text: &str, area_width: u16) -> (rows: u16)
    ensures
        rows == help_rows(text@, area_width as nat),
{
    let width = display_width(text);
    let columns: usize = if area_width == 0 {
        1
    } else {
        area_width as usize
    };
    let whole = width / columns;
    proof {
        let c = columns as int;
        let w = width as int;
        assert((w + c - 1) / c == w / c + if w % c == 0 { 0int } else { 1int }) by (nonlinear_arith)
            requires
                c > 0,
                w >= 0,
        {
            vstd::arithmetic::div_mod::lemma_fundamental_div_mod(w, c);
            vstd::arithmetic::div_mod::lemma_fundamental_div_mod(w + c - 1, c);
        }
        assert(w % c != 0 ==> w / c < usize::MAX) by (nonlinear_arith)
            requires
                c > 0,
                w >= 0,
                w <= usize::MAX,
        {
            vstd::arithmetic::div_mod::lemma_fundamental_div_mod(w, c);
        }
    }
    let rows: usize = if width % columns == 0 {
        whole
    } else {
        whole + 1
    };
    if rows > 65535 {
        2
    } else if rows == 0 {
        1
    } else {
        rows as u16
    }
}

/// The rows left for the list under the two header rows and above the help line.
pub open spec fn list_rows(area_height: nat, help: nat) -> nat {
    let reserved = if help + 2 > 65535 { 65535 } else { help + 2 };
    if area_height > reserved { (area_height - reserved) as nat } else { 0 }
}

/// The height of the feature list.
pub fn list_height(area_height: u16, help: u16) -> (rows: u16)
    ensures
        rows == list_rows(area_height as nat, help as nat),
{
    let reserved: u16 = if help > 65533 {
        65535
    } else {
        help + 2
    };
    if area_height > reserved {
        area_height - reserved
    } else {
        0
    }
}

/// Whether the list has more rows than fit, so that it scrolls.
pub fn list_overflows(lines: &Vec<String>, rows: u16) -> (overflows: bool)
    ensures
        overflows == (lines@.len() > rows as nat),
{
    lines.len() > rows as usize
}

/// The rows listed under the features: one for each tainted feature and one for each
/// carried branch.
pub open spec fn sub_rows(entries: Seq<ChecklistEntry>) -> nat
    decreases entries.len(),
{
    if entries.len() == 0 {
        0
    } else {
        sub_rows(entries.drop_last()) + (if entries.last().tainted_merges is Some { 1nat } else { 0nat })
            + entries.last().carried@.len()
    }
}

proof fn lemma_carried_lines_len(carried: Seq<CarriedRowView>, branch_width: nat)
    ensures
        carried_lines(carried, branch_width).len() == carried.len(),
    decreases carried.len(),
{
    if carried.len() > 0 {
        lemma_carried_lines_len(carried.drop_last(), branch_width);
    }
}

/// Every feature takes one row when the list is wide and two when it is narrow, and the
/// rows under features add one each; so the list scrolls exactly when that count
/// exceeds its height.
pub proof fn lemma_checklist_row_count(entries: Seq<ChecklistEntry>, row_width: nat, wide: bool, branch_width: nat)
    ensures
        checklist_lines(entries, row_width, wide, branch_width).len() == entries.len() * (if wide {
            1nat
        } else {
            2nat
        }) + sub_rows(entries),
    decreases entries.len(),
{
    if entries.len() > 0 {
        let last = entries.last();
        lemma_checklist_row_count(entries.drop_last(), row_width, wide, branch_width);
        lemma_carried_lines_len(last.carried@, branch_width);
        assert(feature_rows(last.row, row_width, wide, branch_width).len() == if wide { 1nat } else { 2nat });
        assert((entries.len() - 1) * (if wide { 1nat } else { 2nat }) + (if wide { 1nat } else { 2nat })
            == entries.len() * (if wide { 1nat } else { 2nat })) by (nonlinear_arith);
    }
}


/// The list items of one feature: its row, the row of its taint if any, and one row per
/// carried branch.
pub open spec fn entry_items(entry: ChecklistEntry) -> nat {
    1 + (if entry.tainted_merges is Some { 1nat } else { 0nat }) + entry.carried@.len()
}

/// How many list items the features make.
pub open spec fn items_count(entries: Seq<ChecklistEntry>) -> nat
    decreases entries.len(),
{
    if entries.len() == 0 {
        0
    } else {
        items_count(entries.drop_last()) + entry_items(entries.last())
    }
}

/// The list item of the first shown feature at inventory position `cursor`, if it is shown.
pub open spec fn selected_item(entries: Seq<ChecklistEntry>, cursor: usize) -> Option<nat>
    decreases entries.len(),
{
    if entries.len() == 0 {
        None
    } else {
        match selected_item(entries.drop_last(), cursor) {
            Some(position) => Some(position),
            None => if entries.last().row.index == cursor {
                Some(items_count(entries.drop_last()))
            } else {
                None
            },
        }
    }
}

/// How many terminal rows the list takes: one or two per feature, and one per row under
/// a feature.
pub open spec fn body_rows(entries: Seq<ChecklistEntry>, wide: bool) -> nat {
    entries.len() * (if wide { 1nat } else { 2nat }) + sub_rows(entries)
}

proof fn lemma_sub_rows_step(entries: Seq<ChecklistEntry>)
    requires
        entries.len() > 0,
    ensures
        sub_rows(entries) == sub_rows(entries.drop_last()) + entry_items(entries.last()) - 1,
        items_count(entries) == entries.len() + sub_rows(entries),
    decreases entries.len(),
{
    if entries.len() > 1 {
        lemma_sub_rows_step(entries.drop_last());
    } else {
        assert(entries.drop_last().len() == 0);
        assert(items_count(entries.drop_last()) == 0);
        assert(sub_rows(entries.drop_last()) == 0);
    }
}

/// The state of the feature list: the item to highlight, which is the feature under the
/// cursor when it is shown and none otherwise, and whether the list has more rows than
/// `list_rows`, so that it scrolls. A filter that matches nothing selects nothing and
/// leaves nothing to scroll.
pub fn selection_state(entries: &Vec<ChecklistEntry>, cursor: usize, wide: bool, list_rows: u16) -> (state: (
    Option<usize>,
    bool,
))
    requires
        items_count(entries@) <= usize::MAX,
    ensures
        match selected_item(entries@, cursor) {
            Some(position) => state.0 == Some(position as usize),
            None => state.0 is None,
        },
        state.1 == (body_rows(entries@, wide) > list_rows as nat),
{
    let mut selected: Option<usize> = None;
    let mut count: usize = 0;
    let mut extra: usize = 0;
    let mut i: usize = 0;
    while i < entries.len()
        invariant
            i <= entries@.len(),
            items_count(entries@) <= usize::MAX,
            count == items_count(entries@.take(i as int)),
            extra == sub_rows(entries@.take(i as int)),
            match selected_item(entries@.take(i as int), cursor) {
                Some(position) => selected == Some(position as usize),
                None => selected is None,
            },
        decreases entries.len() - i,
    {
        let ghost prefix = entries@.take(i as int);
        let ghost next = entries@.take(i + 1);
        proof {
            assert(next.drop_last() =~= prefix);
            assert(next.last() == entries@[i as int]);
            lemma_items_prefix(entries@, i as int + 1);
            lemma_sub_rows_step(next);
        }
        let entry = &entries[i];
        if selected.is_none() && entry.row.index == cursor {
            selected = Some(count);
        }
        let tainted: usize = if entry.tainted_merges.is_some() {
            1
        } else {
            0
        };
        extra = extra + tainted + entry.carried.len();
        count = count + 1 + tainted + entry.carried.len();
        i = i + 1;
    }
    proof {
        assert(entries@.take(entries@.len() as int) =~= entries@);
    }
    let per_feature: usize = if wide {
        1
    } else {
        2
    };
    let scrolls = if entries.len() > list_rows as usize || extra > list_rows as usize {
        true
    } else {
        entries.len() * per_feature + extra > list_rows as usize
    };
    (selected, scrolls)
}

proof fn lemma_items_prefix(entries: Seq<ChecklistEntry>, k: int)
    requires
        0 <= k <= entries.len(),
    ensures
        items_count(entries.take(k)) <= items_count(entries),
    decreases entries.len() - k,
{
    if k < entries.len() {
        lemma_items_prefix(entries, k + 1);
        assert(entries.take(k + 1).drop_last() =~= entries.take(k));
    } else {
        assert(entries.take(k) =~= entries);
    }
}

} // verus!
