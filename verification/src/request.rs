//! What the two HTTP requests carry: the endpoint addresses, the form fields
//! of the search request, the fixed parts of the multipart download request,
//! and the name of the output ZIP file.

use vstd::prelude::*;
use vstd::string::StringExecFns;

use crate::date::{bound_date, end_of_day, resolve_date, start_of_day, valid_date_str, Date,
    DateParseError, Zoned};
use crate::render::{compact_date_str, compact_date_string, datetime_str, datetime_string,
    stamp_str};

verus! {

/// The search endpoint of the tax-document service.
pub fn search_url() -> (r: &'static str)
    ensures
        r@ == "https://etax.exat.co.th/backend/api/search/reprint"@,
{
    "https://etax.exat.co.th/backend/api/search/reprint"
}

/// The ZIP download endpoint of the tax-document service.
pub fn download_url() -> (r: &'static str)
    ensures
        r@ == "https://etax.exat.co.th/backend/api/download/zipFiles"@,
{
    "https://etax.exat.co.th/backend/api/download/zipFiles"
}

/// The form fields of the search request: the tax ID, the two resolved bounds
/// rendered as `YYYY-MM-DD HH:MM:SS`, and the constant `smartCardNo` of
/// `"null"`, in that order.
pub fn search_form(tax_id: &str, doc_date_from: &str, doc_date_to: &str) -> (r: Vec<
    (String, String),
>)
    ensures
        r@.len() == 4,
        r@[0].0@ == "taxId"@ && r@[0].1@ == tax_id@,
        r@[1].0@ == "docDateFrom"@ && r@[1].1@ == doc_date_from@,
        r@[2].0@ == "docDateTo"@ && r@[2].1@ == doc_date_to@,
        r@[3].0@ == "smartCardNo"@ && r@[3].1@ == "null"@,
{
    let mut form: Vec<(String, String)> = Vec::new();
    form.push(("taxId".to_owned(), tax_id.to_owned()));
    form.push(("docDateFrom".to_owned(), doc_date_from.to_owned()));
    form.push(("docDateTo".to_owned(), doc_date_to.to_owned()));
    form.push(("smartCardNo".to_owned(), "null".to_owned()));
    form
}

/// The name of the multipart text part that carries the `listfile` array.
pub fn listfile_part_name() -> (r: &'static str)
    ensures
        r@ == "listfile"@,
{
    "listfile"
}

/// The fixed document-type part of the download request: `type` is `PDF`.
pub fn type_part() -> (r: (&'static str, &'static str))
    ensures
        r.0@ == "type"@,
        r.1@ == "PDF"@,
{
    ("type", "PDF")
}

/// Everything the search request and the later download request need from the
/// raw inputs: both bounds rendered human-readable and compact, and the
/// assembled search form.
pub struct SearchPlan {
    pub doc_date_from: String,
    pub doc_date_to: String,
    pub compact_from: String,
    pub compact_to: String,
    pub form: Vec<(String, String)>,
}

/// Computes the whole search request from the raw inputs: resolves the two
/// boundary strings (empty means `today`) to the start and the end of their
/// days in UTC+7, renders both bounds in both formats, and assembles the form
/// fields. Fails exactly where a non-empty boundary string is not a valid
/// `YYYY-MM-DD` date.
pub fn plan_search(tax_id: &str, since: &str, until: &str, today: Date) -> (r: Result<
    SearchPlan,
    DateParseError,
>)
    requires
        today.wf(),
    ensures
        (r is Ok) <==> ((since@.len() == 0 || valid_date_str(since@)) && (until@.len() == 0
            || valid_date_str(until@))),
        r matches Ok(p) ==> {
            let from = bound_date(since@, today);
            let to = bound_date(until@, today);
            p.doc_date_from@ == datetime_str(start_of_day(from)) && p.doc_date_to@ == datetime_str(
                end_of_day(to),
            ) && p.compact_from@ == compact_date_str(from) && p.compact_to@ == compact_date_str(to)
                && p.form@.len() == 4 && p.form@[0].0@ == "taxId"@ && p.form@[0].1@ == tax_id@
                && p.form@[1].0@ == "docDateFrom"@ && p.form@[1].1@ == p.doc_date_from@
                && p.form@[2].0@ == "docDateTo"@ && p.form@[2].1@ == p.doc_date_to@
                && p.form@[3].0@ == "smartCardNo"@ && p.form@[3].1@ == "null"@
        },
{
    let since_bound = match resolve_date(since, today, true) {
        Ok(z) => z,
        Err(e) => return Err(e),
    };
    let until_bound = match resolve_date(until, today, false) {
        Ok(z) => z,
        Err(e) => return Err(e),
    };
    let doc_date_from = datetime_string(&since_bound);
    let doc_date_to = datetime_string(&until_bound);
    let compact_from = compact_date_string(&since_bound.date);
    let compact_to = compact_date_string(&until_bound.date);
    let form = search_form(tax_id, doc_date_from.as_str(), doc_date_to.as_str());
    Ok(SearchPlan { doc_date_from, doc_date_to, compact_from, compact_to, form })
}

/// The synthesized name of the output file: the fixed prefix, the tax ID, the
/// two compact bounds and the generation stamp, with a `.zip` extension.
pub open spec fn default_zip_name(
    tax_id: Seq<char>,
    from_compact: Seq<char>,
    to_compact: Seq<char>,
    stamp: Zoned,
) -> Seq<char> {
    "TaxDocuments_"@ + tax_id + "_"@ + from_compact + "_"@ + to_compact + "_"@ + stamp_str(stamp)
        + ".zip"@
}

/// Picks the output filename: the caller's name verbatim where one was given,
/// else the synthesized `TaxDocuments_..._.zip` name.
pub fn zip_filename(
    custom: Option<&str>,
    tax_id: &str,
    from_compact: &str,
    to_compact: &str,
    stamp: &Zoned,
) -> (r: String)
    requires
        stamp.wf(),
    ensures
        custom matches Some(name) ==> r@ == name@,
        custom is None ==> r@ == default_zip_name(tax_id@, from_compact@, to_compact@, *stamp),
{
    match custom {
        Some(name) => name.to_owned(),
        None => {
            let mut s = String::new();
            s.append("TaxDocuments_");
            s.append(tax_id);
            s.append("_");
            s.append(from_compact);
            s.append("_");
            s.append(to_compact);
            s.append("_");
            let stamp_text = crate::render::stamp_string(stamp);
            s.append(stamp_text.as_str());
            s.append(".zip");
            proof {
                assert(s@ =~= default_zip_name(tax_id@, from_compact@, to_compact@, *stamp));
            }
            s
        },
    }
}

} // verus!
