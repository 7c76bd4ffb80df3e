use etax_reprint::response::{extract_records, parse_search_response, ResponseError};

const THREE_RECORDS: &str = "{\"reprintList\":[\
{\"invoiceHdrId\":101,\"docNo\":\"DN-1\",\"fileType\":\"pdf\",\
\"filePath\":\"/p/1\",\"fileName\":\"f1.pdf\",\"docType\":\"T1\",\
\"docDate\":\"2024-01-05\"},\
{\"invoiceHdrId\":102,\"docNo\":\"DN-2\",\"fileType\":\"pdf\",\
\"filePath\":\"/p/2\",\"fileName\":\"f2.pdf\",\"docType\":\"T2\",\
\"docDate\":\"2024-01-06\"},\
{\"docNo\":\"DN-3\"}\
]}";

#[test]
fn three_records_are_mapped_in_order() {
    let mapped = parse_search_response(THREE_RECORDS).unwrap();
    assert_eq!(mapped.records.len(), 3);
    assert_eq!(mapped.records[0].invoice_hdr_id, "101");
    assert_eq!(mapped.records[0].doc_no, "\"DN-1\"");
    assert_eq!(mapped.records[0].file_path, "\"/p/1\"");
    assert_eq!(mapped.records[2].doc_no, "\"DN-3\"");
    // A field the element lacks reads as JSON null.
    assert_eq!(mapped.records[2].invoice_hdr_id, "null");
    assert_eq!(
        mapped.listfile,
        "[{\"invoiceHdr_id\":101,\"docNo\":\"DN-1\",\"fileType\":\"pdf\",\
\"filePathPDF\":\"/p/1\",\"fileNamePDF\":\"f1.pdf\",\"docType\":\"T1\"},\
{\"invoiceHdr_id\":102,\"docNo\":\"DN-2\",\"fileType\":\"pdf\",\
\"filePathPDF\":\"/p/2\",\"fileNamePDF\":\"f2.pdf\",\"docType\":\"T2\"},\
{\"invoiceHdr_id\":null,\"docNo\":\"DN-3\",\"fileType\":null,\
\"filePathPDF\":null,\"fileNamePDF\":null,\"docType\":null}]"
    );
    assert_eq!(mapped.lines.len(), 3);
    assert_eq!(
        mapped.lines[0],
        "docDate: \"2024-01-05\", docNo: \"DN-1\", fileName: \"f1.pdf\""
    );
    assert_eq!(mapped.lines[2], "docDate: null, docNo: \"DN-3\", fileName: null");
}

#[test]
fn empty_reprint_list_maps_to_empty_array() {
    let mapped = parse_search_response("{\"reprintList\":[]}").unwrap();
    assert_eq!(mapped.records.len(), 0);
    assert_eq!(mapped.lines.len(), 0);
    assert_eq!(mapped.listfile, "[]");
}

#[test]
fn values_pass_through_verbatim() {
    let body = "{\"reprintList\":[{\"invoiceHdrId\":{\"inner\":7},\"docNo\":[1,2],\
                \"fileType\":true,\"filePath\":null,\"fileName\":3.5,\"docType\":\"x\\\"y\"}]}";
    let records = extract_records(body).unwrap();
    assert_eq!(records.len(), 1);
    assert_eq!(records[0].invoice_hdr_id, "{\"inner\":7}");
    assert_eq!(records[0].doc_no, "[1,2]");
    assert_eq!(records[0].file_type, "true");
    assert_eq!(records[0].file_path, "null");
    assert_eq!(records[0].file_name, "3.5");
    assert_eq!(records[0].doc_type, "\"x\\\"y\"");
}

#[test]
fn missing_reprint_list_is_an_unrecoverable_schema_error() {
    assert_eq!(
        parse_search_response("{\"status\":\"ok\"}").unwrap_err(),
        ResponseError::MissingReprintList
    );
    assert_eq!(
        extract_records("{\"reprintList\":\"not-an-array\"}").unwrap_err(),
        ResponseError::MissingReprintList
    );
    assert_eq!(
        extract_records("{\"reprintList\":{\"a\":1}}").unwrap_err(),
        ResponseError::MissingReprintList
    );
    assert_eq!(extract_records("[1,2,3]").unwrap_err(), ResponseError::MissingReprintList);
}

#[test]
fn malformed_json_is_a_parse_error() {
    assert_eq!(parse_search_response("").unwrap_err(), ResponseError::JsonParse);
    assert_eq!(parse_search_response("{\"reprintList\":[").unwrap_err(), ResponseError::JsonParse);
    assert_eq!(extract_records("not json at all").unwrap_err(), ResponseError::JsonParse);
}
