//! Reading the raw JSON payload into plain line records.
//!
//! The JSON tree itself is an opaque outside value. Its reading, to the
//! depth this library consults it, is named by `json_view`; what a text
//! parses to is named by `parsed_json`; the trusted accessors hand the
//! tree's pieces out as plain values, their contracts stated over those
//! names. The verified walk below turns them into `LineRecord`s,
//! replacing the crashes a missing field would otherwise cause with
//! `MalformedRecord` errors, and its contract ties the records to the
//! reading of the text.

use vstd::prelude::*;

use crate::model::{payload_view, EntryView, FormatError, LineRecord, RecordView, StatusEntry};

verus! {

#[verifier::external_type_specification]
#[verifier::external_body]
pub struct ExValue(serde_json::Value);

/// A reading of a JSON document, to the depth this library consults it:
/// arrays, objects with string keys, strings, and integers representable
/// in an `i64`. Everything else — null, booleans, other numbers — reads
/// as `Other`.
pub ghost enum JsonNode {
    Array(Seq<JsonNode>),
    Object(Map<Seq<char>, JsonNode>),
    Text(Seq<char>),
    Int(i64),
    Other,
}

/// What a JSON value holds, as a `JsonNode` reading.
pub uninterp spec fn json_view(v: serde_json::Value) -> JsonNode;

/// What a text parses to as JSON: `None` when it is not valid JSON,
/// otherwise the reading of the parsed document.
pub uninterp spec fn parsed_json(text: Seq<char>) -> Option<JsonNode>;

/// Relies on serde_json::from_str: whether a text parses, and to which
/// document, depends on the text alone; parse failures are returned, not
/// panicked.
#[verifier::external_body]
pub(crate) fn json_from_str(raw: &str) -> (r: Option<serde_json::Value>)
    ensures
        r is Some <==> parsed_json(raw@) is Some,
        r matches Some(v) ==> Some(json_view(v)) == parsed_json(raw@),
{
    serde_json::from_str::<serde_json::Value>(raw).ok()
}

/// Relies on serde_json::Value::as_array: the number of elements exactly
/// when the value is a JSON array.
#[verifier::external_body]
fn json_array_len(v: &serde_json::Value) -> (r: Option<usize>)
    ensures
        r is Some <==> json_view(*v) is Array,
        r matches Some(l) ==> l == json_view(*v)->Array_0.len(),
{
    v.as_array().map(|a| a.len())
}

/// Relies on serde_json::Value::get: the element at the index exactly
/// when the value is a JSON array long enough.
#[verifier::external_body]
fn json_index(v: &serde_json::Value, i: usize) -> (r: Option<&serde_json::Value>)
    ensures
        r is Some <==> (json_view(*v) matches JsonNode::Array(elems) && i < elems.len()),
        r matches Some(e) ==> json_view(*e) == json_view(*v)->Array_0[i as int],
{
    v.get(i)
}

/// Relies on serde_json::Value::get: the value under the key exactly
/// when this is a JSON object with that key.
#[verifier::external_body]
fn json_field<'a>(v: &'a serde_json::Value, key: &str) -> (r: Option<&'a serde_json::Value>)
    ensures
        r is Some <==> (json_view(*v) matches JsonNode::Object(m) && m.contains_key(key@)),
        r matches Some(e) ==> json_view(*e) == json_view(*v)->Object_0[key@],
{
    v.get(key)
}

/// Relies on serde_json::Value::as_str: the text exactly when the value
/// is a JSON string.
#[verifier::external_body]
fn json_as_str(v: &serde_json::Value) -> (r: Option<String>)
    ensures
        r is Some <==> json_view(*v) is Text,
        r matches Some(s) ==> s@ == json_view(*v)->Text_0,
{
    v.as_str().map(|s| s.to_string())
}

/// Relies on serde_json::Value::as_i64: the integer exactly when the
/// value is a JSON integer that fits in an i64.
#[verifier::external_body]
fn json_as_i64(v: &serde_json::Value) -> (r: Option<i64>)
    ensures
        r is Some <==> json_view(*v) is Int,
        r matches Some(n) ==> n == json_view(*v)->Int_0,
{
    v.as_i64()
}

/// The node under a key, when the node is an object holding that key.
pub open spec fn node_field(node: JsonNode, key: Seq<char>) -> Option<JsonNode> {
    if node matches JsonNode::Object(m) && m.contains_key(key) {
        Some(node->Object_0[key])
    } else {
        None
    }
}

/// The text a node holds, when it is a string.
pub open spec fn read_text(node: Option<JsonNode>) -> Option<Seq<char>> {
    match node {
        Some(JsonNode::Text(t)) => Some(t),
        _ => None,
    }
}

/// The line name a record node exposes: its string `name` field.
pub open spec fn read_name(item: JsonNode) -> Option<Seq<char>> {
    read_text(node_field(item, "name"@))
}

/// The reading of one status entry node: it needs an integer
/// `statusSeverity` and a string `statusSeverityDescription`; a `reason`
/// is kept when it is a string.
pub open spec fn read_entry(node: JsonNode) -> Option<EntryView> {
    match (node_field(node, "statusSeverity"@), read_text(
        node_field(node, "statusSeverityDescription"@),
    )) {
        (Some(JsonNode::Int(sev)), Some(desc)) => Some(
            EntryView { severity: sev, description: desc, reason: read_text(node_field(node, "reason"@)) },
        ),
        _ => None,
    }
}

/// The reading of one record node: it needs a string `name` and a
/// `lineStatuses` array; an empty array reads as a record with no
/// entries, and otherwise only the first entry is read — simultaneous
/// secondary disruptions are deliberately ignored, mirroring the
/// upstream payload's use.
pub open spec fn read_record(item: JsonNode) -> Option<RecordView> {
    match (read_name(item), node_field(item, "lineStatuses"@)) {
        (Some(name), Some(JsonNode::Array(entries))) => {
            if entries.len() == 0 {
                Some(RecordView { name, statuses: Seq::<EntryView>::empty() })
            } else {
                match read_entry(entries[0]) {
                    Some(ev) => Some(RecordView { name, statuses: seq![ev] }),
                    None => None,
                }
            }
        },
        _ => None,
    }
}

/// A document reads as a payload when it is an array whose every element
/// reads as a record.
pub open spec fn node_records_readable(root: JsonNode) -> bool {
    &&& root is Array
    &&& forall|i: int|
        0 <= i < root->Array_0.len() ==> read_record(#[trigger] root->Array_0[i]) is Some
}

/// The records a readable document holds.
pub open spec fn node_records(root: JsonNode) -> Seq<RecordView> {
    root->Array_0.map_values(|n: JsonNode| read_record(n)->0)
}

/// A text parses to a readable payload.
pub open spec fn payload_readable(raw: Seq<char>) -> bool {
    &&& parsed_json(raw) is Some
    &&& node_records_readable(parsed_json(raw)->0)
}

/// The records the text's payload holds.
pub open spec fn payload_records(raw: Seq<char>) -> Seq<RecordView> {
    node_records(parsed_json(raw)->0)
}

/// What a `MalformedRecord` error from the parse walk says of the
/// document: the position is the first element that does not read as a
/// record, and the name is that element's name exactly when one could be
/// read.
pub open spec fn parse_error_describes(root: JsonNode, position: usize, name: Option<String>) -> bool {
    &&& root matches JsonNode::Array(elems)
    &&& position < elems.len()
    &&& read_record(elems[position as int]) is None
    &&& (forall|j: int| 0 <= j < position ==> read_record(#[trigger] elems[j]) is Some)
    &&& (name matches Some(s) ==> read_name(elems[position as int]) == Some(s@))
    &&& (name is None ==> read_name(elems[position as int]) is None)
}

/// Walk a parsed payload and build one `LineRecord` per array element,
/// exactly the records of the document's reading. A missing or ill-typed
/// required field fails with the first offending element's position and,
/// when readable, its name.
pub fn parse_payload(v: &serde_json::Value) -> (r: Result<Vec<LineRecord>, FormatError>)
    ensures
        r matches Err(e) ==> (e is NotAnArray || e is MalformedRecord),
        r matches Err(FormatError::NotAnArray) <==> !(json_view(*v) is Array),
        r is Ok <==> node_records_readable(json_view(*v)),
        r matches Ok(recs) ==> payload_view(recs@) == node_records(json_view(*v)),
        r matches Err(e) ==> e matches FormatError::MalformedRecord { position, name }
            ==> parse_error_describes(json_view(*v), position, name),
{
    let ghost root = json_view(*v);
    let len = match json_array_len(v) {
        Some(l) => l,
        None => {
            return Err(FormatError::NotAnArray);
        },
    };
    let ghost elems = root->Array_0;
    let mut recs: Vec<LineRecord> = Vec::new();
    let mut i: usize = 0;
    while i < len
        invariant
            root == json_view(*v),
            root is Array,
            elems == root->Array_0,
            len == elems.len(),
            i <= len,
            recs@.len() == i,
            forall|j: int| 0 <= j < i ==> read_record(#[trigger] elems[j]) == Some(recs@[j]@),
        decreases len - i,
    {
        let item = match json_index(v, i) {
            Some(it) => it,
            None => {
                // unreachable: the index is within the array's length
                return Err(FormatError::NotAnArray);
            },
        };
        let name_opt = match json_field(item, "name") {
            Some(nv) => json_as_str(nv),
            None => None,
        };
        let name = match name_opt {
            Some(s) => s,
            None => {
                return Err(FormatError::MalformedRecord { position: i, name: None });
            },
        };
        let entries = match json_field(item, "lineStatuses") {
            Some(a) => a,
            None => {
                return Err(FormatError::MalformedRecord { position: i, name: Some(name) });
            },
        };
        let entry_count = match json_array_len(entries) {
            Some(c) => c,
            None => {
                return Err(FormatError::MalformedRecord { position: i, name: Some(name) });
            },
        };
        let mut statuses: Vec<StatusEntry> = Vec::new();
        if entry_count > 0 {
            let first = match json_index(entries, 0) {
                Some(e) => e,
                None => {
                    return Err(FormatError::MalformedRecord { position: i, name: Some(name) });
                },
            };
            let severity_opt = match json_field(first, "statusSeverity") {
                Some(sv) => json_as_i64(sv),
                None => None,
            };
            let severity = match severity_opt {
                Some(c) => c,
                None => {
                    return Err(FormatError::MalformedRecord { position: i, name: Some(name) });
                },
            };
            let description_opt = match json_field(first, "statusSeverityDescription") {
                Some(dv) => json_as_str(dv),
                None => None,
            };
            let description = match description_opt {
                Some(d) => d,
                None => {
                    return Err(FormatError::MalformedRecord { position: i, name: Some(name) });
                },
            };
            let reason = match json_field(first, "reason") {
                Some(rv) => json_as_str(rv),
                None => None,
            };
            statuses.push(StatusEntry { severity, description, reason });
        }
        let rec = LineRecord { name, statuses };
        proof {
            assert(rec@.statuses =~= read_record(elems[i as int])->0.statuses);
            assert(read_record(elems[i as int]) == Some(rec@));
        }
        recs.push(rec);
        i = i + 1;
    }
    proof {
        assert(payload_view(recs@) =~= node_records(root));
    }
    Ok(recs)
}

/// Parse a raw JSON payload into plain line records: `InvalidJson`
/// exactly when the text is not JSON, `NotAnArray` exactly when it is
/// JSON but not an array, and otherwise the walk of `parse_payload` over
/// the text's reading.
pub fn parse_to_records(raw: &str) -> (r: Result<Vec<LineRecord>, FormatError>)
    ensures
        r matches Err(FormatError::InvalidJson) <==> parsed_json(raw@) is None,
        r matches Err(FormatError::NotAnArray) <==> (parsed_json(raw@) matches Some(root)
            && !(root is Array)),
        r is Ok <==> payload_readable(raw@),
        r matches Ok(recs) ==> payload_view(recs@) == payload_records(raw@),
        r matches Err(e) ==> e matches FormatError::MalformedRecord { position, name }
            ==> parse_error_describes(parsed_json(raw@)->0, position, name),
{
    match json_from_str(raw) {
        Some(v) => parse_payload(&v),
        None => Err(FormatError::InvalidJson),
    }
}

} // verus!
