//! Mapping of the raw search response: parse the text as JSON, take the
//! `reprintList` array, and turn each element into a `DocumentRecord` whose
//! fields carry the element's field values as JSON text.

use vstd::prelude::*;

use crate::json::{field_text, json_doc, json_field_text, json_reprint_list, parse_json,
    reprint_array};
use crate::records::{listfile_json, progress_line, render_listfile, render_progress_lines,
    views_of, DocumentRecord, DocumentRecordView};

verus! {

/// Why a search response could not be mapped: the text was not JSON, or the
/// stable remote contract was broken (`reprintList` absent or not an array).
#[derive(Clone, Copy, PartialEq, Eq, Structural, Debug)]
pub enum ResponseError {
    JsonParse,
    MissingReprintList,
}

/// The record a `reprintList` element denotes: each named field of the
/// element as compact JSON text, `null` where the element lacks it.
pub open spec fn record_of(v: serde_json::Value) -> DocumentRecordView {
    DocumentRecordView {
        invoice_hdr_id: json_field_text(v, "invoiceHdrId"@),
        doc_no: json_field_text(v, "docNo"@),
        file_type: json_field_text(v, "fileType"@),
        file_path: json_field_text(v, "filePath"@),
        file_name: json_field_text(v, "fileName"@),
        doc_type: json_field_text(v, "docType"@),
        doc_date: json_field_text(v, "docDate"@),
    }
}

fn extract_record(v: &serde_json::Value) -> (r: DocumentRecord)
    ensures
        r@ == record_of(*v),
{
    DocumentRecord {
        invoice_hdr_id: field_text(v, "invoiceHdrId"),
        doc_no: field_text(v, "docNo"),
        file_type: field_text(v, "fileType"),
        file_path: field_text(v, "filePath"),
        file_name: field_text(v, "fileName"),
        doc_type: field_text(v, "docType"),
        doc_date: field_text(v, "docDate"),
    }
}

/// Reads the matched records out of the raw search response text. Fails with
/// `JsonParse` exactly where the text is not a JSON document, and with
/// `MissingReprintList` exactly where the document has no `reprintList`
/// array; otherwise returns one record per array element, in order.
pub fn extract_records(body: &str) -> (r: Result<Vec<DocumentRecord>, ResponseError>)
    ensures
        r matches Err(ResponseError::JsonParse) <==> json_doc(body@) is None,
        r matches Err(ResponseError::MissingReprintList) <==> (json_doc(body@) matches Some(v)
            && json_reprint_list(v) is None),
        r matches Ok(recs) ==> (json_doc(body@) matches Some(v) && json_reprint_list(v)
            matches Some(items) && recs@.len() == items.len() && (forall|i: int|
            0 <= i < items.len() ==> recs@[i]@ == record_of(items[i]))),
{
    let doc = match parse_json(body) {
        Ok(v) => v,
        Err(_) => return Err(ResponseError::JsonParse),
    };
    let items = match reprint_array(&doc) {
        Some(items) => items,
        None => return Err(ResponseError::MissingReprintList),
    };
    let mut records: Vec<DocumentRecord> = Vec::new();
    let mut i: usize = 0;
    while i < items.len()
        invariant
            i <= items@.len(),
            records@.len() == i,
            forall|j: int| 0 <= j < i ==> records@[j]@ == record_of(items@[j]),
        decreases items@.len() - i,
    {
        records.push(extract_record(&items[i]));
        i = i + 1;
    }
    Ok(records)
}

/// The fully mapped search response: the matched records, the progress line
/// for each, and the `listfile` JSON array for the download request.
#[derive(Debug)]
pub struct MappedResponse {
    pub records: Vec<DocumentRecord>,
    pub lines: Vec<String>,
    pub listfile: String,
}

/// Maps the raw search response end to end: the errors exactly as in
/// `extract_records`, and on success one progress line per matched record
/// together with the re-serialized `listfile` array of narrowed records.
pub fn parse_search_response(body: &str) -> (r: Result<MappedResponse, ResponseError>)
    ensures
        r matches Err(ResponseError::JsonParse) <==> json_doc(body@) is None,
        r matches Err(ResponseError::MissingReprintList) <==> (json_doc(body@) matches Some(v)
            && json_reprint_list(v) is None),
        r matches Ok(m) ==> (json_doc(body@) matches Some(v) && json_reprint_list(v)
            matches Some(items) && m.records@.len() == items.len() && (forall|i: int|
            0 <= i < items.len() ==> m.records@[i]@ == record_of(items[i]))),
        r matches Ok(m) ==> m.lines@.len() == m.records@.len() && (forall|i: int|
            0 <= i < m.records@.len() ==> m.lines@[i]@ == progress_line(m.records@[i]@)),
        r matches Ok(m) ==> m.listfile@ == listfile_json(views_of(m.records@)),
{
    let records = match extract_records(body) {
        Ok(records) => records,
        Err(e) => return Err(e),
    };
    let lines = render_progress_lines(&records);
    let listfile = render_listfile(&records);
    Ok(MappedResponse { records, lines, listfile })
}

} // verus!
