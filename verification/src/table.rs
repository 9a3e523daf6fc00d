//! Table assembly: turning display rows into a renderable table.
//!
//! The table value itself belongs to an outside rendering crate and is
//! opaque here; what it holds is named by `table_cells`, and the trusted
//! wrappers state how each call changes that contents. A cell does not
//! store its text verbatim: it stores the text's lines, so the stored
//! text is the `cell_text` normalization below. The verified assembly
//! pins the row order, the cell text, and the column count.

use vstd::prelude::*;

use crate::classify::StatusColor;
use crate::model::DisplayRow;

verus! {

#[verifier::external_type_specification]
#[verifier::external_body]
pub struct ExTable(prettytable::Table);

#[verifier::external_type_specification]
#[verifier::external_body]
pub struct ExTableFormat(prettytable::format::TableFormat);

/// The index of the first newline of `s`, or its length when there is
/// none.
pub open spec fn first_newline(s: Seq<char>) -> nat
    decreases s.len(),
{
    if s.len() == 0 {
        0
    } else if s[0] == '\n' {
        0
    } else {
        1 + first_newline(s.skip(1))
    }
}

/// One trailing carriage return stripped, as `str::lines` does per part.
pub open spec fn strip_cr(part: Seq<char>) -> Seq<char> {
    if part.len() > 0 && part.last() == '\r' {
        part.drop_last()
    } else {
        part
    }
}

/// The parts `str::lines` yields from `s`: split on newlines, one
/// trailing carriage return stripped from each part, and a final empty
/// part (from a trailing newline) dropped.
pub open spec fn split_lines(s: Seq<char>) -> Seq<Seq<char>>
    decreases s.len(),
{
    if s.len() == 0 {
        Seq::<Seq<char>>::empty()
    } else {
        let idx = first_newline(s) as int;
        if idx >= s.len() - 1 {
            seq![strip_cr(s.take(idx))]
        } else {
            seq![strip_cr(s.take(idx))] + split_lines(s.skip(idx + 1))
        }
    }
}

/// The parts joined back with single newlines, as a cell's text is read
/// out.
pub open spec fn join_lines(parts: Seq<Seq<char>>) -> Seq<char>
    decreases parts.len(),
{
    if parts.len() == 0 {
        Seq::<char>::empty()
    } else if parts.len() == 1 {
        parts[0]
    } else {
        parts[0] + seq!['\n'] + join_lines(parts.drop_first())
    }
}

/// The text a table cell built from `s` holds: the cell stores the lines
/// of `s`, and reading it back joins them with newlines. For text with
/// no carriage return and no trailing newline this is `s` itself (see
/// `lemma_cell_text_id`).
pub open spec fn cell_text(s: Seq<char>) -> Seq<char> {
    join_lines(split_lines(s))
}

/// `first_newline` is in range, points at a newline when one exists, and
/// nothing before it is one.
pub proof fn lemma_first_newline(s: Seq<char>)
    ensures
        first_newline(s) <= s.len(),
        first_newline(s) < s.len() ==> s[first_newline(s) as int] == '\n',
        forall|k: int| 0 <= k < first_newline(s) ==> s[k] != '\n',
    decreases s.len(),
{
    if s.len() == 0 {
    } else if s[0] == '\n' {
    } else {
        lemma_first_newline(s.skip(1));
        assert forall|k: int| 0 <= k < first_newline(s) implies s[k] != '\n' by {
            if k >= 1 {
                assert(s.skip(1)[k - 1] == s[k]);
                assert(k - 1 < first_newline(s.skip(1)));
            }
        }
    }
}

/// A non-empty text splits into at least one part.
pub proof fn lemma_split_lines_nonempty(s: Seq<char>)
    ensures
        s.len() > 0 ==> split_lines(s).len() >= 1,
{
}

/// Joining after prepending a part inserts one newline.
pub proof fn lemma_join_lines_cons(part: Seq<char>, parts: Seq<Seq<char>>)
    requires
        parts.len() >= 1,
    ensures
        join_lines(seq![part] + parts) == part + seq!['\n'] + join_lines(parts),
{
    let all = seq![part] + parts;
    assert(all[0] == part);
    assert(all.drop_first() =~= parts);
}

/// A text with no carriage return and no trailing newline is exactly
/// what its cell holds: the lines() round trip gives it back unchanged.
pub proof fn lemma_cell_text_id(s: Seq<char>)
    requires
        forall|k: int| 0 <= k < s.len() ==> s[k] != '\r',
        s.len() == 0 || s.last() != '\n',
    ensures
        cell_text(s) == s,
    decreases s.len(),
{
    if s.len() == 0 {
        assert(cell_text(s) =~= s);
    } else {
        lemma_first_newline(s);
        let idx = first_newline(s) as int;
        if idx >= s.len() - 1 {
            assert(idx == s.len());
            assert(s.take(idx) =~= s);
            assert(strip_cr(s) == s);
            assert(split_lines(s) =~= seq![s]);
        } else {
            let head = s.take(idx);
            let tail = s.skip(idx + 1);
            assert(head.len() > 0 ==> head.last() == s[idx - 1]);
            assert(strip_cr(head) == head);
            assert(forall|k: int| 0 <= k < tail.len() ==> tail[k] == s[k + idx + 1]);
            assert(tail.last() == s.last());
            lemma_cell_text_id(tail);
            lemma_split_lines_nonempty(tail);
            lemma_join_lines_cons(head, split_lines(tail));
            assert(cell_text(s) == head + seq!['\n'] + tail);
            assert(head + seq!['\n'] + tail =~= s);
        }
    }
}

/// What a table holds: its rows, in order, each the ordered texts of its
/// cells as reading them back returns them.
pub uninterp spec fn table_cells(t: prettytable::Table) -> Seq<Seq<Seq<char>>>;

/// Relies on prettytable's FormatBuilder: a table style with a single-line
/// box frame — vertical bars left and right of every cell, one character
/// of padding on each side, and horizontal rules with corner glyphs on
/// the top and bottom edges only.
#[verifier::external_body]
fn box_border_format() -> prettytable::format::TableFormat {
    prettytable::format::FormatBuilder::new()
        .borders('│')
        .separator(
            prettytable::format::LinePosition::Top,
            prettytable::format::LineSeparator::new('─', '─', '┌', '┐'),
        )
        .separator(
            prettytable::format::LinePosition::Bottom,
            prettytable::format::LineSeparator::new('─', '─', '└', '┘'),
        )
        .padding(1, 1)
        .build()
}

/// Relies on prettytable::Table::new: a fresh table holds no rows.
#[verifier::external_body]
fn table_new() -> (t: prettytable::Table)
    ensures
        table_cells(t) == Seq::<Seq<Seq<char>>>::empty(),
{
    prettytable::Table::new()
}

/// Relies on prettytable::Table::set_format: it stores the visual style
/// and leaves the rows untouched.
#[verifier::external_body]
fn table_set_format(t: &mut prettytable::Table, f: prettytable::format::TableFormat)
    ensures
        table_cells(*final(t)) == table_cells(*old(t)),
{
    t.set_format(f)
}

/// Relies on prettytable::Table::add_row: it appends the row. Each cell
/// stores its text's lines (Cell::new), so it holds the `cell_text`
/// normalization of the given text; the status cell is styled with the
/// foreground colour of the given band (green, yellow or red).
#[verifier::external_body]
fn table_add_row_3(
    t: &mut prettytable::Table,
    name: &str,
    status: &str,
    color: StatusColor,
    reason: &str,
)
    ensures
        table_cells(*final(t)) == table_cells(*old(t)).push(
            seq![cell_text(name@), cell_text(status@), cell_text(reason@)],
        ),
{
    let c = match color {
        StatusColor::Good => prettytable::color::GREEN,
        StatusColor::Warning => prettytable::color::YELLOW,
        StatusColor::Severe => prettytable::color::RED,
    };
    t.add_row(prettytable::Row::new(vec![
        prettytable::Cell::new(name),
        prettytable::Cell::new(status).with_style(prettytable::Attr::ForegroundColor(c)),
        prettytable::Cell::new(reason),
    ]));
}

/// Relies on prettytable::Table::add_row: it appends the row. Each cell
/// stores its text's lines (Cell::new), so it holds the `cell_text`
/// normalization of the given text; the status cell is styled with the
/// foreground colour of the given band (green, yellow or red).
#[verifier::external_body]
fn table_add_row_2(t: &mut prettytable::Table, name: &str, status: &str, color: StatusColor)
    ensures
        table_cells(*final(t)) == table_cells(*old(t)).push(
            seq![cell_text(name@), cell_text(status@)],
        ),
{
    let c = match color {
        StatusColor::Good => prettytable::color::GREEN,
        StatusColor::Warning => prettytable::color::YELLOW,
        StatusColor::Severe => prettytable::color::RED,
    };
    t.add_row(prettytable::Row::new(vec![
        prettytable::Cell::new(name),
        prettytable::Cell::new(status).with_style(prettytable::Attr::ForegroundColor(c)),
    ]));
}

/// The cell texts one display row contributes to the table: name and
/// status, and the reason text unless the reason column is suppressed.
pub open spec fn row_cells(row: DisplayRow, suppress_reason: bool) -> Seq<Seq<char>> {
    if suppress_reason {
        seq![cell_text(row.name@), cell_text(row.status@)]
    } else {
        seq![cell_text(row.name@), cell_text(row.status@), cell_text(row.reason@)]
    }
}

/// Assemble the box-framed table: one table row per display row, in
/// order, with exactly two columns when the reason column is suppressed
/// and exactly three otherwise.
pub fn build_table(rows: &Vec<DisplayRow>, suppress_reason: bool) -> (t: prettytable::Table)
    ensures
        table_cells(t).len() == rows@.len(),
        forall|i: int|
            0 <= i < rows@.len() ==> #[trigger] table_cells(t)[i] == row_cells(
                rows@[i],
                suppress_reason,
            ),
        forall|i: int|
            0 <= i < rows@.len() ==> #[trigger] table_cells(t)[i].len() == (
            if suppress_reason {
                2int
            } else {
                3int
            }),
{
    let mut t = table_new();
    table_set_format(&mut t, box_border_format());
    let n = rows.len();
    let mut i: usize = 0;
    while i < n
        invariant
            n == rows@.len(),
            i <= n,
            table_cells(t).len() == i,
            forall|j: int|
                0 <= j < i ==> #[trigger] table_cells(t)[j] == row_cells(
                    rows@[j],
                    suppress_reason,
                ),
        decreases n - i,
    {
        let row = &rows[i];
        if suppress_reason {
            table_add_row_2(&mut t, row.name.as_str(), row.status.as_str(), row.color);
        } else {
            table_add_row_3(
                &mut t,
                row.name.as_str(),
                row.status.as_str(),
                row.color,
                row.reason.as_str(),
            );
        }
        i = i + 1;
    }
    t
}

} // verus!
