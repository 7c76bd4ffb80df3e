use etax_reprint::date::{resolve_date, Date, Zoned};
use etax_reprint::render::{compact_date_string, datetime_string};
use etax_reprint::request::{
    download_url, listfile_part_name, plan_search, search_form, search_url, type_part,
    zip_filename,
};

fn some_today() -> Date {
    Date { year: 2026, month: 10, day: 12 }
}

#[test]
fn endpoints_and_fixed_parts() {
    assert_eq!(search_url(), "https://etax.exat.co.th/backend/api/search/reprint");
    assert_eq!(download_url(), "https://etax.exat.co.th/backend/api/download/zipFiles");
    assert_eq!(listfile_part_name(), "listfile");
    assert_eq!(type_part(), ("type", "PDF"));
}

#[test]
fn search_form_carries_the_resolved_bounds() {
    let since = resolve_date("2024-01-01", some_today(), true).unwrap();
    let until = resolve_date("2024-01-31", some_today(), false).unwrap();
    let from = datetime_string(&since);
    let to = datetime_string(&until);
    let form = search_form("1234567890123", &from, &to);
    assert_eq!(form.len(), 4);
    assert_eq!(form[0], ("taxId".to_string(), "1234567890123".to_string()));
    assert_eq!(
        form[1],
        ("docDateFrom".to_string(), "2024-01-01 00:00:00".to_string())
    );
    assert_eq!(form[2], ("docDateTo".to_string(), "2024-01-31 23:59:59".to_string()));
    assert_eq!(form[3], ("smartCardNo".to_string(), "null".to_string()));
}

#[test]
fn plan_for_an_explicit_range() {
    let plan = plan_search("1234567890123", "2024-01-01", "2024-01-31", some_today()).unwrap();
    assert_eq!(plan.doc_date_from, "2024-01-01 00:00:00");
    assert_eq!(plan.doc_date_to, "2024-01-31 23:59:59");
    assert_eq!(plan.compact_from, "20240101");
    assert_eq!(plan.compact_to, "20240131");
    assert_eq!(plan.form[0], ("taxId".to_string(), "1234567890123".to_string()));
    assert_eq!(
        plan.form[1],
        ("docDateFrom".to_string(), "2024-01-01 00:00:00".to_string())
    );
    assert_eq!(plan.form[2], ("docDateTo".to_string(), "2024-01-31 23:59:59".to_string()));
    assert_eq!(plan.form[3], ("smartCardNo".to_string(), "null".to_string()));
}

#[test]
fn plan_defaults_empty_bounds_to_today() {
    let plan = plan_search("1234567890123", "", "", some_today()).unwrap();
    assert_eq!(plan.doc_date_from, "2026-10-12 00:00:00");
    assert_eq!(plan.doc_date_to, "2026-10-12 23:59:59");
    assert_eq!(plan.compact_from, "20261012");
    assert_eq!(plan.compact_to, "20261012");
}

#[test]
fn plan_rejects_malformed_bounds() {
    assert!(plan_search("1234567890123", "2024-13-40", "", some_today()).is_err());
    assert!(plan_search("1234567890123", "", "not-a-date", some_today()).is_err());
}

#[test]
fn default_zip_filename_matches_the_template() {
    let since = resolve_date("2024-01-01", some_today(), true).unwrap();
    let until = resolve_date("2024-01-31", some_today(), false).unwrap();
    let from = compact_date_string(&since.date);
    let to = compact_date_string(&until.date);
    let stamp = Zoned {
        date: Date { year: 2026, month: 10, day: 12 },
        hour: 9,
        minute: 8,
        second: 7,
    };
    let name = zip_filename(None, "1234567890123", &from, &to, &stamp);
    assert_eq!(name, "TaxDocuments_1234567890123_20240101_20240131_20261012090807.zip");
    // The generation stamp is always fourteen digits.
    let digits = &name["TaxDocuments_1234567890123_20240101_20240131_".len()..name.len() - 4];
    assert_eq!(digits.len(), 14);
    assert!(digits.chars().all(|c| c.is_ascii_digit()));
}

#[test]
fn custom_zip_filename_passes_verbatim() {
    let stamp = Zoned {
        date: Date { year: 2026, month: 10, day: 12 },
        hour: 9,
        minute: 8,
        second: 7,
    };
    let name = zip_filename(Some("archive.zip"), "1234567890123", "20240101", "20240131", &stamp);
    assert_eq!(name, "archive.zip");
}
