//! Data model: line-status records as plain values, their mathematical
//! views, the derived display rows, the render configuration, and the
//! error type.

use vstd::prelude::*;

use crate::classify::StatusColor;

verus! {

/// The view of one status entry: the numeric severity, the description
/// text, and the optional reason text.
pub ghost struct EntryView {
    pub severity: i64,
    pub description: Seq<char>,
    pub reason: Option<Seq<char>>,
}

/// The view of one payload record: the line name and the ordered views
/// of its status entries.
pub ghost struct RecordView {
    pub name: Seq<char>,
    pub statuses: Seq<EntryView>,
}

impl RecordView {
    /// A record is well formed when it exposes at least one status entry.
    pub open spec fn wf(self) -> bool {
        self.statuses.len() > 0
    }
}

/// A whole payload is well formed when every record is.
pub open spec fn payload_wf(recs: Seq<RecordView>) -> bool {
    forall|i: int| 0 <= i < recs.len() ==> (#[trigger] recs[i]).wf()
}

/// One status entry of a line record: the numeric severity, its
/// human-readable description, and an optional free-text reason.
pub struct StatusEntry {
    pub severity: i64,
    pub description: String,
    pub reason: Option<String>,
}

impl View for StatusEntry {
    type V = EntryView;

    open spec fn view(&self) -> EntryView {
        EntryView {
            severity: self.severity,
            description: self.description@,
            reason: match self.reason {
                Some(s) => Some(s@),
                None => None,
            },
        }
    }
}

/// One record of the raw payload: a line name and its ordered status
/// entries. Only the first entry is ever consulted; a record with no
/// entries is malformed.
pub struct LineRecord {
    pub name: String,
    pub statuses: Vec<StatusEntry>,
}

impl View for LineRecord {
    type V = RecordView;

    open spec fn view(&self) -> RecordView {
        RecordView {
            name: self.name@,
            statuses: self.statuses@.map_values(|e: StatusEntry| e.view()),
        }
    }
}

/// The views of a whole payload, record by record.
pub open spec fn payload_view(recs: Seq<LineRecord>) -> Seq<RecordView> {
    recs.map_values(|r: LineRecord| r.view())
}

/// One row of the rendered table, derived from one record: the line name,
/// the status text, its colour, and the (possibly empty, possibly
/// wrapped) reason text.
pub struct DisplayRow {
    pub name: String,
    pub status: String,
    pub color: StatusColor,
    pub reason: String,
}

/// Render configuration, supplied once per run. `reason_width == 0` means
/// the wrap width is computed from the terminal width.
#[derive(Clone, Copy, Debug)]
pub struct RenderConfig {
    pub suppress_reason: bool,
    pub reason_width: usize,
}

/// Why formatting failed. The payload was not JSON at all, was JSON but
/// not an array of records, or held a record lacking the minimum required
/// shape; the offending record is identified by position, and by name
/// when the name could be read.
#[derive(Debug)]
pub enum FormatError {
    InvalidJson,
    NotAnArray,
    MalformedRecord { position: usize, name: Option<String> },
}

impl FormatError {
    /// A short diagnostic for the error stream.
    pub fn describe(&self) -> (r: String)
        ensures
            self is InvalidJson ==> r@ == "the status payload is not valid JSON"@,
            self is NotAnArray ==> r@
                == "the status payload is not a JSON array of line records"@,
            self matches FormatError::MalformedRecord { position: _, name: Some(n) } ==> r@
                == "malformed status record for line "@ + n@,
            self matches FormatError::MalformedRecord { position: _, name: None } ==> r@
                == "malformed status record"@,
    {
        match self {
            FormatError::InvalidJson => String::from_str("the status payload is not valid JSON"),
            FormatError::NotAnArray => String::from_str(
                "the status payload is not a JSON array of line records",
            ),
            FormatError::MalformedRecord { position: _, name } => {
                match name {
                    Some(n) => {
                        let mut s = String::from_str("malformed status record for line ");
                        s.append(n.as_str());
                        s
                    },
                    None => String::from_str("malformed status record"),
                }
            },
        }
    }
}

} // verus!
