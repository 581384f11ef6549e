use atmb_us_non_cmra::config::Scope;
use atmb_us_non_cmra::model::{Address, Mailbox};
use atmb_us_non_cmra::record::Record;
use atmb_us_non_cmra::report::{
    check_loaded_records, limit_records, output_dir, preferred_records, publication, run_counts,
    status_tally, summary, RunError,
};
use atmb_us_non_cmra::smarty::AdditionalInfo;
use atmb_us_non_cmra::usps::UspsResult;

fn record(state: &str, street: &str, smarty: &str, cmra: &str, detail: &str, usps: &str) -> Record {
    Record::new(
        Mailbox {
            name: "n".into(),
            address: Address {
                line1: street.into(),
                line2: "".into(),
                city: "c".into(),
                state: state.into(),
                zip: "00000".into(),
                zip4: None,
            },
            price: "$1".into(),
            link: "l".into(),
            detail_status: detail.into(),
        },
        AdditionalInfo { status: smarty.into(), cmra: cmra.into(), rdi: "Residential".into() },
        UspsResult::status(usps),
    )
}

#[test]
fn loaded_results_must_be_complete_and_in_scope() {
    assert_eq!(check_loaded_records(&vec![], Scope::TaxFree), Err(RunError::InvalidInput));
    let good = vec![record("NH", "1 Main", "matched", "N", "fetched", "")];
    assert_eq!(check_loaded_records(&good, Scope::TaxFree), Ok(()));
    let out = vec![record("CA", "1 Main", "matched", "N", "fetched", "")];
    assert_eq!(check_loaded_records(&out, Scope::TaxFree), Err(RunError::InvalidInput));
    let blank = vec![record("NH", "  ", "matched", "N", "fetched", "")];
    assert_eq!(check_loaded_records(&blank, Scope::TaxFree), Err(RunError::InvalidInput));
    let failed = vec![record("NH", "1 Main", "http_500", "", "fetched", "")];
    assert_eq!(check_loaded_records(&failed, Scope::TaxFree), Err(RunError::InvalidInput));
}

#[test]
fn counts_and_tables() {
    let records = vec![
        record("NH", "1", "matched", "N", "fetched", "matched"),
        record("NH", "2", "no_match", "", "listing_fallback", "http_302"),
        record("NH", "3", "matched", "Y", "fetched", "skipped_after_service_errors"),
        record("NH", "4", "http_500", "", "fetched", "http_302"),
    ];
    assert_eq!(run_counts(&records), (1, 3, 1, 1));
    let t = status_tally(&records.iter().map(|r| r.usps_status.clone()).collect());
    assert_eq!(
        t,
        vec![
            ("http_302".to_string(), 2),
            ("matched".to_string(), 1),
            ("skipped_after_service_errors".to_string(), 1)
        ]
    );
    assert_eq!(status_tally(&vec![]), vec![]);
}

#[test]
fn summary_text_is_exact() {
    let records = vec![
        record("NH", "1", "matched", "N", "fetched", "matched"),
        record("NH", "2", "http_402_subscription_required", "", "listing_fallback", "disabled"),
    ];
    let text = summary(Scope::TaxFree, &records, 5, Some("123"));
    let expected = "# Address check: tax-free\n\n- Checked: 2\n- Smarty non-CMRA: 1\n- Smarty errors: 1\n- USPS errors/unavailable: 0\n- Limited smoke test: true\n\nFull per-address results, including USPS fields and raw JSON, are in `checks.csv`. USPS failures are not validation passes.\n\n- ATMB / Smarty data reused from prior run: 123 (not a fresh crawl)\n\n- State-listing addresses used (detail enrichment unavailable): 1\n\n## Smarty statuses\n\n| Status | Count |\n| --- | --- |\n| http_402_subscription_required | 1 |\n| matched | 1 |\n\n## USPS statuses\n\n| Status | Count |\n| --- | --- |\n| disabled | 1 |\n| matched | 1 |\n\nSmarty returned HTTP 402: activate a US Street Address API subscription or select another credential Secret, then rerun.\n";
    assert_eq!(text, expected);
    let plain = summary(Scope::All, &vec![], 0, Some("12a"));
    assert_eq!(plain, "# Address check: all\n\n- Checked: 0\n- Smarty non-CMRA: 0\n- Smarty errors: 0\n- USPS errors/unavailable: 0\n- Limited smoke test: false\n\nFull per-address results, including USPS fields and raw JSON, are in `checks.csv`. USPS failures are not validation passes.\n\n- State-listing addresses used (detail enrichment unavailable): 0\n\n## Smarty statuses\n\n| Status | Count |\n| --- | --- |\n\n## USPS statuses\n\n| Status | Count |\n| --- | --- |\n");
}

#[test]
fn output_places_and_publication() {
    assert_eq!(output_dir(Scope::TaxFreeNv, 0), "result/tax-free-nv");
    assert_eq!(output_dir(Scope::TaxFree, 3), "result/smoke/tax-free");
    assert_eq!(publication(0, 0, 0), Ok(()));
    assert_eq!(publication(2, 1, 1), Err(RunError::UspsUnavailable { count: 2 }));
    assert_eq!(publication(0, 1, 3), Err(RunError::SmartyFailed { count: 1 }));
    assert_eq!(publication(0, 0, 3), Err(RunError::DetailsMissing { count: 3 }));
}

#[test]
fn preferred_list_and_limit() {
    let records = vec![
        record("NH", "1", "matched", "N", "fetched", "matched"),
        record("NH", "2", "matched", "Y", "fetched", "matched"),
        record("NH", "3", "matched", "N", "listing_fallback", "matched"),
        record("NH", "4", "matched", "N", "fetched", "http_302"),
    ];
    let streets: Vec<&str> = preferred_records(&records).iter().map(|r| r.street.as_str()).collect();
    assert_eq!(streets, vec!["1", "4"]);
    let two = limit_records(records, 2);
    assert_eq!(two.iter().map(|r| r.street.as_str()).collect::<Vec<_>>(), vec!["1", "2"]);
    assert_eq!(limit_records(two, 0).len(), 2);
    let one = vec![record("NH", "9", "matched", "N", "fetched", "")];
    assert_eq!(limit_records(one, 5).len(), 1);
}
