//! Matched document records and their projection into the download request
//! shape: the per-record progress line and the re-serialized `listfile` JSON
//! array of narrowed records.
//!
//! Each field of a record holds the compact JSON text of the corresponding
//! field of the record the service returned (so a string value keeps its
//! quotes, and an absent field reads `null`); the projection passes those
//! texts through verbatim.

use vstd::prelude::*;
use vstd::string::StringExecFns;

verus! {

/// One matched document record of the search response, each field as the
/// compact JSON text of that field's value.
#[derive(Clone, Debug)]
pub struct DocumentRecord {
    pub invoice_hdr_id: String,
    pub doc_no: String,
    pub file_type: String,
    pub file_path: String,
    pub file_name: String,
    pub doc_type: String,
    pub doc_date: String,
}

/// The mathematical image of a `DocumentRecord`: its field texts.
pub struct DocumentRecordView {
    pub invoice_hdr_id: Seq<char>,
    pub doc_no: Seq<char>,
    pub file_type: Seq<char>,
    pub file_path: Seq<char>,
    pub file_name: Seq<char>,
    pub doc_type: Seq<char>,
    pub doc_date: Seq<char>,
}

impl View for DocumentRecord {
    type V = DocumentRecordView;

    open spec fn view(&self) -> DocumentRecordView {
        DocumentRecordView {
            invoice_hdr_id: self.invoice_hdr_id@,
            doc_no: self.doc_no@,
            file_type: self.file_type@,
            file_path: self.file_path@,
            file_name: self.file_name@,
            doc_type: self.doc_type@,
            doc_date: self.doc_date@,
        }
    }
}

pub open spec fn views_of(rs: Seq<DocumentRecord>) -> Seq<DocumentRecordView> {
    rs.map_values(|r: DocumentRecord| r@)
}

/// The progress line printed for one record: its document date, document
/// number and file name, each as the JSON text the service sent.
pub open spec fn progress_line(r: DocumentRecordView) -> Seq<char> {
    "docDate: "@ + r.doc_date + ", docNo: "@ + r.doc_no + ", fileName: "@ + r.file_name
}

/// One record of the download request: the narrowed, renamed field set, with
/// every value copied verbatim from the search record.
pub open spec fn download_record_json(r: DocumentRecordView) -> Seq<char> {
    "{\"invoiceHdr_id\":"@ + r.invoice_hdr_id + ",\"docNo\":"@ + r.doc_no + ",\"fileType\":"@
        + r.file_type + ",\"filePathPDF\":"@ + r.file_path + ",\"fileNamePDF\":"@ + r.file_name
        + ",\"docType\":"@ + r.doc_type + "}"@
}

/// The comma-separated element list of the `listfile` array.
pub open spec fn listfile_items(rs: Seq<DocumentRecordView>) -> Seq<char>
    decreases rs.len(),
{
    if rs.len() == 0 {
        Seq::empty()
    } else if rs.len() == 1 {
        download_record_json(rs[0])
    } else {
        download_record_json(rs[0]) + ","@ + listfile_items(rs.drop_first())
    }
}

/// The whole `listfile` value: a JSON array with one narrowed record per
/// matched record, in order.
pub open spec fn listfile_json(rs: Seq<DocumentRecordView>) -> Seq<char> {
    "["@ + listfile_items(rs) + "]"@
}

proof fn lemma_listfile_items_push(rs: Seq<DocumentRecordView>, r: DocumentRecordView)
    ensures
        listfile_items(rs.push(r)) == if rs.len() == 0 {
            download_record_json(r)
        } else {
            listfile_items(rs) + ","@ + listfile_items(seq![r])
        },
    decreases rs.len(),
{
    let p = rs.push(r);
    if rs.len() == 0 {
        assert(p =~= seq![r]);
    } else {
        assert(p.drop_first() =~= rs.drop_first().push(r));
        lemma_listfile_items_push(rs.drop_first(), r);
        if rs.len() == 1 {
            assert(rs.drop_first().len() == 0);
            assert(listfile_items(p) =~= listfile_items(rs) + ","@ + listfile_items(seq![r]));
        } else {
            assert(listfile_items(p) =~= listfile_items(rs) + ","@ + listfile_items(seq![r]));
        }
    }
}

fn render_download_record(r: &DocumentRecord) -> (out: String)
    ensures
        out@ == download_record_json(r@),
{
    let mut s = String::new();
    s.append("{\"invoiceHdr_id\":");
    s.append(r.invoice_hdr_id.as_str());
    s.append(",\"docNo\":");
    s.append(r.doc_no.as_str());
    s.append(",\"fileType\":");
    s.append(r.file_type.as_str());
    s.append(",\"filePathPDF\":");
    s.append(r.file_path.as_str());
    s.append(",\"fileNamePDF\":");
    s.append(r.file_name.as_str());
    s.append(",\"docType\":");
    s.append(r.doc_type.as_str());
    s.append("}");
    proof {
        assert(s@ =~= download_record_json(r@));
    }
    s
}

/// Builds the progress line for one record.
pub fn render_progress_line(r: &DocumentRecord) -> (out: String)
    ensures
        out@ == progress_line(r@),
{
    let mut s = String::new();
    s.append("docDate: ");
    s.append(r.doc_date.as_str());
    s.append(", docNo: ");
    s.append(r.doc_no.as_str());
    s.append(", fileName: ");
    s.append(r.file_name.as_str());
    proof {
        assert(s@ =~= progress_line(r@));
    }
    s
}

/// Builds one progress line per record, in order.
pub fn render_progress_lines(records: &Vec<DocumentRecord>) -> (lines: Vec<String>)
    ensures
        lines@.len() == records@.len(),
        forall|i: int|
            0 <= i < records@.len() ==> lines@[i]@ == progress_line(records@[i]@),
{
    let mut lines: Vec<String> = Vec::new();
    let mut i: usize = 0;
    while i < records.len()
        invariant
            i <= records@.len(),
            lines@.len() == i,
            forall|j: int| 0 <= j < i ==> lines@[j]@ == progress_line(records@[j]@),
        decreases records@.len() - i,
    {
        lines.push(render_progress_line(&records[i]));
        i = i + 1;
    }
    lines
}

/// Re-serializes the matched records as the `listfile` JSON array of narrowed
/// download records, exactly one element per record and every field value
/// passed through verbatim.
pub fn render_listfile(records: &Vec<DocumentRecord>) -> (out: String)
    ensures
        out@ == listfile_json(views_of(records@)),
{
    let mut s = String::new();
    s.append("[");
    let mut i: usize = 0;
    while i < records.len()
        invariant
            i <= records@.len(),
            s@ == "["@ + listfile_items(views_of(records@).take(i as int)),
        decreases records@.len() - i,
    {
        if i > 0 {
            s.append(",");
        }
        let piece = render_download_record(&records[i]);
        s.append(piece.as_str());
        proof {
            let vs = views_of(records@);
            assert(vs.take(i as int).push(records@[i as int]@) =~= vs.take(i + 1));
            lemma_listfile_items_push(vs.take(i as int), records@[i as int]@);
            assert(listfile_items(seq![records@[i as int]@]) == download_record_json(
                records@[i as int]@,
            ));
            assert(s@ =~= "["@ + listfile_items(vs.take(i + 1)));
        }
        i = i + 1;
    }
    s.append("]");
    proof {
        assert(views_of(records@).take(records@.len() as int) =~= views_of(records@));
        assert(s@ =~= listfile_json(views_of(records@)));
    }
    s
}

} // verus!
