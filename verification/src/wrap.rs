//! Wrap-width resolution and reason-text wrapping.
//!
//! The width is either the user's explicit override or is computed from
//! the terminal width minus the widest name-and-status combination plus a
//! fixed allowance for borders, padding and colour codes, clamped to at
//! least 1. The wrapping itself is done by an outside routine whose
//! result is named, not restated.

use vstd::prelude::*;

use crate::model::{DisplayRow, RenderConfig};

verus! {

/// The text that greedy word-wrapping produces from `text` at `width`
/// columns: lines broken on whitespace, words longer than the width
/// broken mid-word, joined by embedded newlines.
pub uninterp spec fn filled(text: Seq<char>, width: int) -> Seq<char>;

/// `i..j` spans one whole line of `s`: it abuts the ends of `s` or
/// newline characters, and contains none itself.
pub open spec fn is_line(s: Seq<char>, i: int, j: int) -> bool {
    &&& 0 <= i <= j <= s.len()
    &&& (i == 0 || s[i - 1] == '\n')
    &&& (j == s.len() || s[j] == '\n')
    &&& forall|k: int| i <= k < j ==> s[k] != '\n'
}

/// Every line of `s` is at most `width` characters long.
pub open spec fn lines_fit(s: Seq<char>, width: int) -> bool {
    forall|i: int, j: int| is_line(s, i, j) ==> j - i <= width
}

/// Every character of `s` is printable ASCII, where one character is one
/// terminal column.
pub open spec fn ascii_printable(s: Seq<char>) -> bool {
    forall|k: int| 0 <= k < s.len() ==> 32 <= (#[trigger] s[k]) as int <= 126
}

/// What wrapping printable-ASCII text guarantees of its output: every
/// line is at most the width, the text holds no carriage return, and it
/// does not end in a newline.
pub open spec fn wrapped_clean(s: Seq<char>, width: int) -> bool {
    &&& lines_fit(s, width)
    &&& forall|k: int| 0 <= k < s.len() ==> (#[trigger] s[k]) != '\r'
    &&& (s.len() == 0 || s.last() != '\n')
}

/// Relies on textwrap::fill with the greedy first-fit algorithm: the
/// wrapped text depends on the text and width alone; an empty text stays
/// empty; and for printable-ASCII text — where one character is one
/// terminal column — words are pre-broken to at most the width, first-fit
/// never extends a line past the width, the lines (which can hold only
/// characters of the input) are joined by single newlines with no
/// trailing one, and trailing whitespace is trimmed.
#[verifier::external_body]
fn fill_text(text: &str, width: usize) -> (r: String)
    requires
        width >= 1,
    ensures
        r@ == filled(text@, width as int),
        text@.len() == 0 ==> r@.len() == 0,
        ascii_printable(text@) ==> wrapped_clean(r@, width as int),
{
    let options = textwrap::Options::new(width).wrap_algorithm(
        textwrap::WrapAlgorithm::FirstFit,
    );
    textwrap::fill(text, options)
}

/// The resolved wrap width: the explicit override when one was given,
/// otherwise the terminal width minus the widest name-and-status
/// combination and a fixed 8-column allowance, clamped to at least 1.
pub open spec fn resolved_wrap_width(config: RenderConfig, max_len: int, terminal_width: int) -> int {
    if config.reason_width != 0 {
        config.reason_width as int
    } else if terminal_width - (max_len + 8) >= 1 {
        terminal_width - (max_len + 8)
    } else {
        1
    }
}

/// The resolved width is never zero or negative, whatever the
/// configuration, the payload's widest combination, or the terminal
/// width: an explicit override is a non-zero machine integer, and the
/// automatic computation clamps to 1.
pub proof fn lemma_resolved_width_positive(
    config: RenderConfig,
    max_len: int,
    terminal_width: int,
)
    ensures
        resolved_wrap_width(config, max_len, terminal_width) >= 1,
{
}

/// Resolve the wrap width from the configuration, the widest
/// name-and-status combination, and the terminal width.
pub fn resolve_wrap_width(config: &RenderConfig, max_len: usize, terminal_width: usize) -> (w:
    usize)
    ensures
        w == resolved_wrap_width(*config, max_len as int, terminal_width as int),
        w >= 1,
{
    if config.reason_width != 0 {
        config.reason_width
    } else if terminal_width > max_len && terminal_width - max_len >= 9 {
        terminal_width - max_len - 8
    } else {
        1
    }
}

/// Re-wrap every row's reason text to `width` columns, leaving name,
/// status and colour untouched. An empty reason stays empty, and a
/// wrapped printable-ASCII reason comes back clean with no line over the
/// width.
pub fn wrap_reasons(rows: &mut Vec<DisplayRow>, width: usize)
    requires
        width >= 1,
    ensures
        final(rows)@.len() == old(rows)@.len(),
        forall|i: int|
            0 <= i < old(rows)@.len() ==> {
                &&& (#[trigger] final(rows)@[i]).name@ == old(rows)@[i].name@
                &&& final(rows)@[i].status@ == old(rows)@[i].status@
                &&& final(rows)@[i].color == old(rows)@[i].color
                &&& final(rows)@[i].reason@ == filled(old(rows)@[i].reason@, width as int)
                &&& (old(rows)@[i].reason@.len() == 0 ==> final(rows)@[i].reason@.len() == 0)
                &&& (ascii_printable(old(rows)@[i].reason@) ==> wrapped_clean(
                    final(rows)@[i].reason@,
                    width as int,
                ))
            },
{
    let n = rows.len();
    let mut out: Vec<DisplayRow> = Vec::new();
    let mut i: usize = 0;
    while i < n
        invariant
            width >= 1,
            n == rows@.len(),
            i <= n,
            out@.len() == i,
            forall|j: int|
                0 <= j < i ==> {
                    &&& (#[trigger] out@[j]).name@ == rows@[j].name@
                    &&& out@[j].status@ == rows@[j].status@
                    &&& out@[j].color == rows@[j].color
                    &&& out@[j].reason@ == filled(rows@[j].reason@, width as int)
                    &&& (rows@[j].reason@.len() == 0 ==> out@[j].reason@.len() == 0)
                    &&& (ascii_printable(rows@[j].reason@) ==> wrapped_clean(
                        out@[j].reason@,
                        width as int,
                    ))
                },
        decreases n - i,
    {
        let row = &rows[i];
        let wrapped = fill_text(row.reason.as_str(), width);
        out.push(
            DisplayRow {
                name: row.name.clone(),
                status: row.status.clone(),
                color: row.color,
                reason: wrapped,
            },
        );
        i = i + 1;
    }
    *rows = out;
}

} // verus!
