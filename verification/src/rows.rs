//! Row extraction: one display row per payload record, in payload order,
//! together with the running maximum of combined name-and-status length
//! that feeds the wrap-width computation.

use vstd::prelude::*;

use crate::classify::{classify, classify_spec};
use crate::model::{
    payload_view, payload_wf, DisplayRow, EntryView, FormatError, LineRecord, RecordView,
    RenderConfig,
};

verus! {

/// The reason text shown for a status entry: the entry's reason when one
/// is present and reporting is not suppressed, the empty string otherwise.
pub open spec fn reason_text(entry: EntryView, suppress: bool) -> Seq<char> {
    if !suppress && entry.reason is Some {
        entry.reason->0
    } else {
        Seq::<char>::empty()
    }
}

/// The combined character length of a record's name and first status
/// description, as a mathematical integer.
pub open spec fn name_status_len(rec: RecordView) -> int {
    rec.name.len() + rec.statuses[0].description.len() as int
}

/// The combined length, capped at `usize::MAX`. The cap can only bite on
/// strings too large to coexist in one address space; it keeps the running
/// maximum a machine integer without narrowing the admissible inputs.
pub open spec fn capped_name_status_len(rec: RecordView) -> int {
    if name_status_len(rec) <= usize::MAX {
        name_status_len(rec)
    } else {
        usize::MAX as int
    }
}

/// The maximum combined name-and-status length over a payload; 0 for the
/// empty payload.
pub open spec fn max_name_status_len(recs: Seq<RecordView>) -> int
    decreases recs.len(),
{
    if recs.len() == 0 {
        0
    } else {
        let prefix = max_name_status_len(recs.drop_last());
        let last = capped_name_status_len(recs.last());
        if last > prefix {
            last
        } else {
            prefix
        }
    }
}

/// The tracked maximum really is the maximum over the whole payload: it
/// dominates every record's combined length, is 0 for the empty payload,
/// and is attained by some record of a non-empty one — wherever in the
/// payload that record stands.
pub proof fn lemma_max_name_status_len(recs: Seq<RecordView>)
    ensures
        forall|i: int|
            0 <= i < recs.len() ==> capped_name_status_len(#[trigger] recs[i])
                <= max_name_status_len(recs),
        recs.len() == 0 ==> max_name_status_len(recs) == 0,
        recs.len() > 0 ==> exists|i: int|
            0 <= i < recs.len() && capped_name_status_len(#[trigger] recs[i])
                == max_name_status_len(recs),
    decreases recs.len(),
{
    if recs.len() > 0 {
        let prefix = recs.drop_last();
        lemma_max_name_status_len(prefix);
        assert(forall|i: int| 0 <= i < prefix.len() ==> prefix[i] == #[trigger] recs[i]);
        if recs.len() == 1 {
            assert(capped_name_status_len(recs[0]) == max_name_status_len(recs));
        } else {
            let j = choose|j: int|
                0 <= j < prefix.len() && capped_name_status_len(#[trigger] prefix[j])
                    == max_name_status_len(prefix);
            if capped_name_status_len(recs.last()) > max_name_status_len(prefix) {
                assert(capped_name_status_len(recs[recs.len() - 1]) == max_name_status_len(recs));
            } else {
                assert(capped_name_status_len(recs[j]) == max_name_status_len(recs));
            }
        }
    }
}

/// How one display row corresponds to the record it was derived from:
/// same name, the first status entry's description and classified colour,
/// and that entry's reason text subject to suppression.
pub open spec fn row_matches(row: DisplayRow, rec: RecordView, suppress: bool) -> bool {
    &&& row.name@ == rec.name
    &&& row.status@ == rec.statuses[0].description
    &&& row.color == classify_spec(rec.statuses[0].severity as int)
    &&& row.reason@ == reason_text(rec.statuses[0], suppress)
}

/// Derive the display rows from a payload, in payload order, consulting
/// only the first status entry of each record, and return them together
/// with the maximum combined name-and-status length. Fails on the first
/// record with no status entries, naming it.
pub fn extract_rows(recs: &Vec<LineRecord>, config: &RenderConfig) -> (r: Result<
    (Vec<DisplayRow>, usize),
    FormatError,
>)
    ensures
        r is Ok <==> payload_wf(payload_view(recs@)),
        r matches Ok(pair) ==> {
            &&& pair.0@.len() == recs@.len()
            &&& forall|i: int|
                0 <= i < recs@.len() ==> row_matches(
                    #[trigger] pair.0@[i],
                    payload_view(recs@)[i],
                    config.suppress_reason,
                )
            &&& pair.1 == max_name_status_len(payload_view(recs@))
        },
        r matches Err(e) ==> {
            &&& e matches FormatError::MalformedRecord { position, name }
            &&& 0 <= position < recs@.len()
            &&& !payload_view(recs@)[position as int].wf()
            &&& (forall|j: int|
                0 <= j < position ==> (#[trigger] payload_view(recs@)[j]).wf())
            &&& name matches Some(n)
            &&& n@ == payload_view(recs@)[position as int].name
        },
{
    let ghost vw = payload_view(recs@);
    let mut rows: Vec<DisplayRow> = Vec::new();
    let mut max_len: usize = 0;
    let n = recs.len();
    let mut i: usize = 0;
    while i < n
        invariant
            vw == payload_view(recs@),
            n == recs@.len(),
            vw.len() == n,
            i <= n,
            rows@.len() == i,
            forall|j: int|
                0 <= j < i ==> row_matches(#[trigger] rows@[j], vw[j], config.suppress_reason),
            forall|j: int| 0 <= j < i ==> (#[trigger] vw[j]).wf(),
            max_len == max_name_status_len(vw.take(i as int)),
        decreases n - i,
    {
        let rec = &recs[i];
        if rec.statuses.len() == 0 {
            proof {
                assert(vw[i as int] == recs@[i as int]@);
                assert(vw[i as int].statuses.len() == 0);
            }
            return Err(FormatError::MalformedRecord {
                position: i,
                name: Some(rec.name.clone()),
            });
        }
        let entry = &rec.statuses[0];
        let reason = match (config.suppress_reason, &entry.reason) {
            (false, Some(text)) => text.clone(),
            _ => String::new(),
        };
        let row = DisplayRow {
            name: rec.name.clone(),
            status: entry.description.clone(),
            color: classify(entry.severity),
            reason,
        };
        rows.push(row);
        let nl = rec.name.as_str().unicode_len();
        let dl = entry.description.as_str().unicode_len();
        let combined: usize = if nl <= usize::MAX - dl {
            nl + dl
        } else {
            usize::MAX
        };
        assert(combined == capped_name_status_len(vw[i as int]));
        if combined > max_len {
            max_len = combined;
        }
        proof {
            assert(vw.take(i + 1).drop_last() =~= vw.take(i as int));
            assert(vw.take(i + 1).last() == vw[i as int]);
        }
        i = i + 1;
    }
    proof {
        assert(vw.take(n as int) =~= vw);
    }
    Ok((rows, max_len))
}

} // verus!
