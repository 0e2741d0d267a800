//! A grid of terminal cells holding one character each, and the text placements that
//! the setup screens are drawn with: clipped text, word-wrapped paragraphs and
//! centered lines.

use ratatui::buffer::Buffer;
use ratatui::layout::{Alignment, Rect};
use ratatui::text::Line;
use ratatui::widgets::{Paragraph, Widget, Wrap};
use vstd::prelude::*;

use crate::git_output::string_views;
use crate::text_compare::chars_of;

use crate::text::push_char;

verus! {

/// The rows of a grid, each as its characters.
pub open spec fn grid(rows: Seq<Vec<char>>) -> Seq<Seq<char>> {
    Seq::new(rows.len(), |i: int| rows[i]@)
}

/// `height` rows of `width` spaces.
pub open spec fn blank(width: nat, height: nat) -> Seq<Seq<char>> {
    Seq::new(height, |_i: int| Seq::new(width, |_j: int| ' '))
}

/// `text` written into row `r` from column `column`, cut off at column `limit`. A
/// placement outside the grid changes nothing.
pub open spec fn put(rows: Seq<Seq<char>>, r: int, column: int, limit: int, text: Seq<char>) -> Seq<
    Seq<char>,
> {
    if 0 <= r < rows.len() && 0 <= column <= limit <= rows[r].len() {
        let n = if text.len() <= limit - column {
            text.len() as int
        } else {
            limit - column
        };
        rows.update(r, rows[r].take(column) + text.take(n) + rows[r].skip(column + n))
    } else {
        rows
    }
}

/// Where a line of `line_width` cells starts when centered in `area_width` cells.
pub open spec fn centered_offset(line_width: int, area_width: int) -> int {
    if area_width / 2 > line_width / 2 {
        area_width / 2 - line_width / 2
    } else {
        0
    }
}

/// `lines` written one per row from row `r`, stopping before row `end`; each starts at
/// `column`, or is centered between `column` and `limit`.
pub open spec fn put_lines(
    rows: Seq<Seq<char>>,
    r: int,
    end: int,
    lines: Seq<Seq<char>>,
    column: int,
    limit: int,
    centered: bool,
) -> Seq<Seq<char>>
    decreases lines.len(),
{
    if lines.len() == 0 || r >= end {
        rows
    } else {
        let at = if centered {
            column + centered_offset(lines[0].len() as int, limit - column)
        } else {
            column
        };
        put_lines(put(rows, r, at, limit, lines[0]), r + 1, end, lines.drop_first(), column, limit, centered)
    }
}

/// Every row has `width` cells and there are `height` rows.
pub open spec fn shaped(rows: Seq<Seq<char>>, width: nat, height: nat) -> bool {
    rows.len() == height && forall|i: int| 0 <= i < height ==> #[trigger] rows[i].len() == width
}

pub broadcast proof fn lemma_blank_shaped(width: nat, height: nat)
    ensures
        #[trigger] shaped(blank(width, height), width, height),
{
}

pub broadcast proof fn lemma_put_shaped(
    rows: Seq<Seq<char>>,
    r: int,
    column: int,
    limit: int,
    text: Seq<char>,
    width: nat,
    height: nat,
)
    requires
        shaped(rows, width, height),
    ensures
        #[trigger] shaped(put(rows, r, column, limit, text), width, height),
{
    let p = put(rows, r, column, limit, text);
    assert forall|i: int| 0 <= i < height implies #[trigger] p[i].len() == width by {
        if 0 <= r < rows.len() && 0 <= column <= limit <= rows[r].len() && i == r {
            let n = if text.len() <= limit - column {
                text.len() as int
            } else {
                limit - column
            };
            assert(p[i] == rows[r].take(column) + text.take(n) + rows[r].skip(column + n));
        }
    }
}

pub broadcast proof fn lemma_put_lines_shaped(
    rows: Seq<Seq<char>>,
    r: int,
    end: int,
    lines: Seq<Seq<char>>,
    column: int,
    limit: int,
    centered: bool,
    width: nat,
    height: nat,
)
    requires
        shaped(rows, width, height),
    ensures
        #[trigger] shaped(put_lines(rows, r, end, lines, column, limit, centered), width, height),
    decreases lines.len(),
{
    if lines.len() > 0 && r < end {
        let at = if centered {
            column + centered_offset(lines[0].len() as int, limit - column)
        } else {
            column
        };
        lemma_put_shaped(rows, r, at, limit, lines[0], width, height);
        lemma_put_lines_shaped(
            put(rows, r, at, limit, lines[0]),
            r + 1,
            end,
            lines.drop_first(),
            column,
            limit,
            centered,
            width,
            height,
        );
    }
}

/// A grid of `height` rows of `width` spaces.
pub fn blank_grid(width: usize, height: usize) -> (rows: Vec<Vec<char>>)
    ensures
        grid(rows@) == blank(width as nat, height as nat),
{
    let mut rows: Vec<Vec<char>> = Vec::new();
    let mut i: usize = 0;
    while i < height
        invariant
            i <= height,
            grid(rows@) == blank(width as nat, i as nat),
        decreases height - i,
    {
        let mut row: Vec<char> = Vec::new();
        let mut j: usize = 0;
        while j < width
            invariant
                j <= width,
                i < height,
                grid(rows@) == blank(width as nat, i as nat),
                row@ == Seq::new(j as nat, |_k: int| ' '),
            decreases width - j,
        {
            row.push(' ');
            j = j + 1;
            proof {
                assert(row@ =~= Seq::new(j as nat, |_k: int| ' '));
            }
        }
        let ghost before = rows@;
        let ghost added = row@;
        proof {
            assert(before.len() == blank(width as nat, i as nat).len());
        }
        rows.push(row);
        i = i + 1;
        proof {
            assert(rows@.len() == i);
            assert(rows@[i - 1]@ == added);
            assert forall|k: int| 0 <= k < i implies #[trigger] grid(rows@)[k] == blank(width as nat, i as nat)[k] by {
                if k < i - 1 {
                    assert(rows@[k] == before[k]);
                    assert(grid(before)[k] == blank(width as nat, (i - 1) as nat)[k]);
                }
            }
            assert(grid(rows@) =~= blank(width as nat, i as nat));
        }
    }
    rows
}

/// Appends the characters of `more` to `chars`.
pub fn push_all(chars: &mut Vec<char>, more: &Vec<char>)
    ensures
        final(chars)@ == old(chars)@ + more@,
{
    let ghost start = chars@;
    let mut i: usize = 0;
    while i < more.len()
        invariant
            i <= more.len(),
            chars@ == start + more@.take(i as int),
        decreases more.len() - i,
    {
        chars.push(more[i]);
        i = i + 1;
        proof {
            assert(chars@ =~= start + more@.take(i as int));
        }
    }
    proof {
        assert(more@.take(more@.len() as int) =~= more@);
    }
}

/// Writes `text` into row `r` from column `column`, cut off at column `limit`.
pub fn put_text(rows: &mut Vec<Vec<char>>, r: usize, column: usize, limit: usize, text: &Vec<char>)
    ensures
        grid(final(rows)@) == put(grid(old(rows)@), r as int, column as int, limit as int, text@),
{
    if r < rows.len() && column <= limit && limit <= rows[r].len() {
        let room = limit - column;
        let n: usize = if text.len() <= room {
            text.len()
        } else {
            room
        };
        let old_row = rows[r].clone();
        let mut row: Vec<char> = Vec::new();
        let mut i: usize = 0;
        while i < column
            invariant
                column <= old_row.len(),
                i <= column,
                row@ == old_row@.take(i as int),
            decreases column - i,
        {
            row.push(old_row[i]);
            i = i + 1;
            proof {
                assert(row@ =~= old_row@.take(i as int));
            }
        }
        let mut k: usize = 0;
        while k < n
            invariant
                n <= text.len(),
                k <= n,
                row@ == old_row@.take(column as int) + text@.take(k as int),
            decreases n - k,
        {
            row.push(text[k]);
            k = k + 1;
            proof {
                assert(row@ =~= old_row@.take(column as int) + text@.take(k as int));
            }
        }
        let mut j: usize = column + n;
        proof {
            assert(old_row@.skip(column + n).take(0) =~= Seq::<char>::empty());
            assert(row@ =~= old_row@.take(column as int) + text@.take(n as int) + old_row@.skip(
                column + n,
            ).take(0));
        }
        while j < old_row.len()
            invariant
                column + n <= j <= old_row.len(),
                row@ == old_row@.take(column as int) + text@.take(n as int) + old_row@.skip(
                    column + n,
                ).take(j - column - n),
            decreases old_row.len() - j,
        {
            row.push(old_row[j]);
            j = j + 1;
            proof {
                assert(row@ =~= old_row@.take(column as int) + text@.take(n as int) + old_row@.skip(
                    column + n,
                ).take(j - column - n));
            }
        }
        proof {
            assert(old_row@.skip(column + n).take(old_row@.len() - column - n) =~= old_row@.skip(
                column + n,
            ));
        }
        let ghost before = rows@;
        rows.set(r, row);
        proof {
            assert(grid(rows@) =~= grid(before).update(r as int, row@));
        }
    }
}

/// Where a line of `line_width` cells starts when centered in `area_width` cells.
pub fn centered_at(line_width: usize, area_width: usize) -> (offset: usize)
    ensures
        offset == centered_offset(line_width as int, area_width as int),
{
    if area_width / 2 > line_width / 2 {
        area_width / 2 - line_width / 2
    } else {
        0
    }
}

/// Writes `lines` one per row from row `r`, stopping before row `end`.
pub fn put_line_block(
    rows: &mut Vec<Vec<char>>,
    r: usize,
    end: usize,
    lines: &Vec<Vec<char>>,
    column: usize,
    limit: usize,
    centered: bool,
)
    requires
        column <= limit,
    ensures
        grid(final(rows)@) == put_lines(
            grid(old(rows)@),
            r as int,
            end as int,
            grid(lines@),
            column as int,
            limit as int,
            centered,
        ),
{
    let mut i: usize = 0;
    let mut row = r;
    proof {
        assert(grid(lines@).skip(0) =~= grid(lines@));
    }
    while i < lines.len() && row < end
        invariant
            column <= limit,
            i <= lines.len(),
            row == r + i,
            put_lines(grid(old(rows)@), r as int, end as int, grid(lines@), column as int, limit as int, centered)
                == put_lines(grid(rows@), row as int, end as int, grid(lines@).skip(i as int), column as int, limit as int, centered),
        decreases lines.len() - i,
    {
        let at = if centered {
            column + centered_at(lines[i].len(), limit - column)
        } else {
            column
        };
        proof {
            assert(grid(lines@).skip(i as int)[0] == lines@[i as int]@);
            assert(grid(lines@).skip(i as int).drop_first() =~= grid(lines@).skip(i + 1));
            assert(centered_offset(lines@[i as int]@.len() as int, limit - column) <= (limit - column) / 2);
        }
        put_text(rows, row, at, limit, &lines[i]);
        i = i + 1;
        row = row + 1;
    }
}

/// The text of each row.
pub fn row_strings(rows: &Vec<Vec<char>>) -> (texts: Vec<String>)
    ensures
        texts.len() == rows.len(),
        forall|i: int| 0 <= i < rows.len() ==> #[trigger] texts[i]@ == grid(rows@)[i],
{
    let mut texts: Vec<String> = Vec::new();
    let mut i: usize = 0;
    while i < rows.len()
        invariant
            i <= rows.len(),
            texts.len() == i,
            forall|k: int| 0 <= k < i ==> #[trigger] texts[k]@ == grid(rows@)[k],
        decreases rows.len() - i,
    {
        let mut s = String::new();
        let mut j: usize = 0;
        let count = rows[i].len();
        while j < count
            invariant
                i < rows.len(),
                count == rows[i as int].len(),
                j <= count,
                s@ == rows[i as int]@.take(j as int),
            decreases count - j,
        {
            push_char(&mut s, rows[i][j]);
            j = j + 1;
            proof {
                assert(s@ =~= rows[i as int]@.take(j as int));
            }
        }
        proof {
            assert(rows[i as int]@.take(rows[i as int]@.len() as int) =~= rows[i as int]@);
        }
        texts.push(s);
        i = i + 1;
    }
    texts
}

/// The rows that ratatui draws for a paragraph of `lines` in an area of `width` by
/// `height` cells: word-wrapped, centered or left-aligned, with leading blanks of wrapped
/// rows trimmed or kept, each row given cell by cell.
pub uninterp spec fn paragraph_rows(
    lines: Seq<Seq<char>>,
    width: nat,
    height: nat,
    centered: bool,
    trim: bool,
) -> Seq<Seq<char>>;

/// `ratatui::widgets::Paragraph` of `lines`, wrapped (`Wrap { trim }`) and aligned, rendered
/// into an empty buffer of `width` by `height` cells; each row is read back as the
/// symbols of its cells. ratatui's wrapping rules are named, not restated.
#[verifier::external_body]
pub(crate) fn paragraph(lines: &Vec<String>, width: u16, height: u16, centered: bool, trim: bool) -> (rows: Vec<String>)
    ensures
        rows@.len() == height,
        string_views(rows@) == paragraph_rows(string_views(lines@), width as nat, height as nat, centered, trim),
{
    let text: Vec<Line> = lines.iter().map(|line| Line::raw(line.as_str())).collect();
    let area = Rect::new(0, 0, width, height);
    let mut buffer = Buffer::empty(area);
    let alignment = if centered { Alignment::Center } else { Alignment::Left };
    Paragraph::new(text).alignment(alignment).wrap(Wrap { trim }).render(area, &mut buffer);
    (0..height).map(|y| (0..width).map(|x| buffer[(x, y)].symbol()).collect()).collect()
}

/// The characters of each text.
pub fn text_grid(texts: &Vec<String>) -> (rows: Vec<Vec<char>>)
    ensures
        grid(rows@) == string_views(texts@),
{
    let mut rows: Vec<Vec<char>> = Vec::new();
    let mut i: usize = 0;
    while i < texts.len()
        invariant
            i <= texts.len(),
            grid(rows@) =~= string_views(texts@.take(i as int)),
        decreases texts.len() - i,
    {
        rows.push(chars_of(&texts[i]));
        i = i + 1;
        proof {
            assert(string_views(texts@.take(i as int)) =~= string_views(texts@.take(i - 1)).push(texts@[i - 1]@));
        }
    }
    proof {
        assert(texts@.take(texts@.len() as int) =~= texts@);
    }
    rows
}

} // verus!
