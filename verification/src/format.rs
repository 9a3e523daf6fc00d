//! The formatting pipeline: from a raw payload and a render
//! configuration to the finished table, and the laws that hold of it.

use vstd::prelude::*;

use crate::json::{parse_error_describes, parse_to_records, parsed_json, payload_readable, payload_records};
use crate::model::{payload_view, payload_wf, FormatError, LineRecord, RecordView, RenderConfig};
use crate::rows::{extract_rows, max_name_status_len, reason_text};
use crate::table::{build_table, cell_text, lemma_cell_text_id, table_cells};
use crate::wrap::{
    ascii_printable, filled, lines_fit, resolve_wrap_width, resolved_wrap_width, wrap_reasons,
    wrapped_clean,
};

verus! {

/// The cell texts of the table row for one record: name and first status
/// description, and — unless suppressed — the reason text wrapped to the
/// given width; each as its table cell stores it.
pub open spec fn record_cells(rec: RecordView, config: RenderConfig, width: int) -> Seq<
    Seq<char>,
> {
    if config.suppress_reason {
        seq![cell_text(rec.name), cell_text(rec.statuses[0].description)]
    } else {
        seq![
            cell_text(rec.name),
            cell_text(rec.statuses[0].description),
            cell_text(filled(reason_text(rec.statuses[0], false), width)),
        ]
    }
}

/// The cell texts of the whole table formatted from a payload: one row
/// per record, in payload order, every reason wrapped to the one width
/// resolved from the payload's widest name-and-status combination.
pub open spec fn formatted_cells(
    recs: Seq<RecordView>,
    config: RenderConfig,
    terminal_width: int,
) -> Seq<Seq<Seq<char>>> {
    Seq::new(
        recs.len(),
        |i: int|
            record_cells(
                recs[i],
                config,
                resolved_wrap_width(config, max_name_status_len(recs), terminal_width),
            ),
    )
}

/// Format a payload already read into plain records: derive the rows,
/// resolve the wrap width, wrap the reasons, and assemble the table.
/// Succeeds exactly on well-formed payloads; fails on the first record
/// with no status entries, naming it. In the table an absent reason
/// stays an empty cell, and a printable-ASCII reason is stored exactly
/// as wrapped, with no line over the resolved width.
pub fn format_records(
    recs: &Vec<LineRecord>,
    config: &RenderConfig,
    terminal_width: usize,
) -> (r: Result<prettytable::Table, FormatError>)
    ensures
        r is Ok <==> payload_wf(payload_view(recs@)),
        r matches Ok(t) ==> table_cells(t).len() == recs@.len(),
        r matches Ok(t) ==> table_cells(t) == formatted_cells(
            payload_view(recs@),
            *config,
            terminal_width as int,
        ),
        r matches Ok(t) ==> !config.suppress_reason ==> forall|i: int|
            0 <= i < recs@.len() ==> {
                let entry = (#[trigger] payload_view(recs@)[i]).statuses[0];
                let width = resolved_wrap_width(
                    *config,
                    max_name_status_len(payload_view(recs@)),
                    terminal_width as int,
                );
                &&& (reason_text(entry, false).len() == 0 ==> table_cells(t)[i][2].len() == 0)
                &&& (ascii_printable(reason_text(entry, false)) ==> lines_fit(
                    table_cells(t)[i][2],
                    width,
                ))
            },
        r matches Err(e) ==> {
            &&& e matches FormatError::MalformedRecord { position, name }
            &&& 0 <= position < recs@.len()
            &&& !payload_view(recs@)[position as int].wf()
            &&& (forall|j: int|
                0 <= j < position ==> (#[trigger] payload_view(recs@)[j]).wf())
            &&& name matches Some(n)
            &&& n@ == payload_view(recs@)[position as int].name
        },
{
    let ghost vw = payload_view(recs@);
    let (mut rows, max_len) = match extract_rows(recs, config) {
        Ok(pair) => pair,
        Err(e) => {
            return Err(e);
        },
    };
    let ghost width = resolved_wrap_width(*config, max_name_status_len(vw), terminal_width as int);
    if !config.suppress_reason {
        let w = resolve_wrap_width(config, max_len, terminal_width);
        wrap_reasons(&mut rows, w);
    }
    let t = build_table(&rows, config.suppress_reason);
    proof {
        assert forall|i: int| 0 <= i < vw.len() implies #[trigger] table_cells(t)[i]
            == record_cells(vw[i], *config, width) by {
            if !config.suppress_reason {
                assert(rows@[i].reason@ == filled(reason_text(vw[i].statuses[0], false), width));
            }
        }
        assert(table_cells(t) =~= formatted_cells(vw, *config, terminal_width as int));
        if !config.suppress_reason {
            assert forall|i: int|
                0 <= i < recs@.len() && reason_text(
                    (#[trigger] payload_view(recs@)[i]).statuses[0],
                    false,
                ).len() == 0 implies table_cells(t)[i][2].len() == 0 by {
                assert(rows@[i].reason@.len() == 0);
                lemma_cell_text_id(rows@[i].reason@);
            }
            assert forall|i: int|
                0 <= i < recs@.len() && ascii_printable(
                    reason_text((#[trigger] payload_view(recs@)[i]).statuses[0], false),
                ) implies lines_fit(table_cells(t)[i][2], width) by {
                assert(wrapped_clean(rows@[i].reason@, width));
                lemma_cell_text_id(rows@[i].reason@);
            }
        }
    }
    Ok(t)
}

/// Format a raw JSON payload: parse it, then format the records.
/// Succeeds exactly when the text parses to an array whose every element
/// reads as a record with at least one status entry; the table is then
/// the formatting of that payload, with exactly two columns per row when
/// the reason column is suppressed and exactly three otherwise. Each
/// error comes exactly as the taxonomy says: `InvalidJson` for text that
/// is not JSON, `NotAnArray` for a document that is no array, and
/// `MalformedRecord` naming the first offending record.
pub fn format_status(raw: &str, config: &RenderConfig, terminal_width: usize) -> (r: Result<
    prettytable::Table,
    FormatError,
>)
    ensures
        r is Ok <==> payload_readable(raw@) && payload_wf(payload_records(raw@)),
        r matches Ok(t) ==> table_cells(t) == formatted_cells(
            payload_records(raw@),
            *config,
            terminal_width as int,
        ),
        r matches Ok(t) ==> forall|i: int|
            0 <= i < table_cells(t).len() ==> (#[trigger] table_cells(t)[i]).len() == (
            if config.suppress_reason {
                2int
            } else {
                3int
            }),
        r matches Err(FormatError::InvalidJson) <==> parsed_json(raw@) is None,
        r matches Err(FormatError::NotAnArray) <==> (parsed_json(raw@) matches Some(root)
            && !(root is Array)),
        r matches Err(e) ==> e matches FormatError::MalformedRecord { position, name } ==> {
            ||| parse_error_describes(parsed_json(raw@)->0, position, name)
            ||| {
                &&& payload_readable(raw@)
                &&& position < payload_records(raw@).len()
                &&& !payload_records(raw@)[position as int].wf()
                &&& (forall|j: int|
                    0 <= j < position ==> (#[trigger] payload_records(raw@)[j]).wf())
                &&& name matches Some(n)
                &&& n@ == payload_records(raw@)[position as int].name
            }
        },
{
    let recs = match parse_to_records(raw) {
        Ok(rs) => rs,
        Err(e) => {
            return Err(e);
        },
    };
    format_records(&recs, config, terminal_width)
}

/// Formatting is deterministic: two tables formatted from the same
/// payload, configuration and terminal width hold identical cell text,
/// so rendering them gives byte-identical output.
pub proof fn lemma_format_deterministic(
    t1: prettytable::Table,
    t2: prettytable::Table,
    recs: Seq<RecordView>,
    config: RenderConfig,
    terminal_width: int,
)
    requires
        table_cells(t1) == formatted_cells(recs, config, terminal_width),
        table_cells(t2) == formatted_cells(recs, config, terminal_width),
    ensures
        table_cells(t1) == table_cells(t2),
{
}

} // verus!
