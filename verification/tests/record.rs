use atmb_us_non_cmra::model::{Address, Mailbox};
use atmb_us_non_cmra::record::{sort_records, Record, RowError, HEADERS};
use atmb_us_non_cmra::smarty::AdditionalInfo;
use atmb_us_non_cmra::usps::UspsResult;

fn example_mailbox() -> Mailbox {
    Mailbox {
        name: "Example".into(),
        address: Address {
            line1: "1 Main St".into(),
            line2: "Unit 2".into(),
            city: "Concord".into(),
            state: "NH".into(),
            zip: "03301".into(),
            zip4: None,
        },
        price: "$9.99".into(),
        link: "https://example.com".into(),
        detail_status: "fetched".into(),
    }
}

#[test]
fn only_verified_non_cmra_enters_preferred_list() {
    let mailbox = example_mailbox();
    let mut record = Record::new(
        mailbox,
        AdditionalInfo {
            status: "matched".into(),
            cmra: "N".into(),
            rdi: "Residential".into(),
        },
        UspsResult::status("http_302"),
    );
    assert!(record.non_cmra());
    record.detail_status = "listing_fallback".into();
    assert!(
        !record.non_cmra(),
        "A missing suite can change CMRA classification; keep it only in diagnostics"
    );
    record.cmra = "Unknown".into();
    assert!(!record.non_cmra());
    record.cmra = "Y".into();
    assert!(!record.non_cmra());
    record.cmra = "N".into();
    record.detail_status = "unavailable".into();
    assert!(!record.non_cmra());
    let mut writer = csv::Writer::from_writer(Vec::new());
    writer.write_record(HEADERS).unwrap();
    writer.write_record(record.csv_fields()).unwrap();
    let bytes = writer.into_inner().unwrap();
    let mut reader = csv::Reader::from_reader(bytes.as_slice());
    assert_eq!(
        reader.headers().unwrap().iter().collect::<Vec<_>>(),
        HEADERS
    );
    let headers: Vec<String> = reader.headers().unwrap().iter().map(String::from).collect();
    let row: Vec<String> = reader.records().next().unwrap().unwrap().iter().map(String::from).collect();
    let mut restored = Record::from_csv_row(&headers, &row).unwrap();
    assert_eq!(restored.address().zip, "03301");
    assert_eq!(restored.address().line2, "Unit 2");
    restored.set_usps(UspsResult {
        status: "matched".into(),
        cmra: "Y".into(),
        zip4: "1234".into(),
        ..UspsResult::default()
    });
    assert_eq!(restored.smarty_status, "matched");
    assert_eq!(restored.cmra, "N");
    assert_eq!(restored.usps_cmra, "Y");
    assert_eq!(restored.usps_zip4, "1234");
}

fn info(rdi: &str) -> AdditionalInfo {
    AdditionalInfo { status: "matched".into(), cmra: "N".into(), rdi: rdi.into() }
}

#[test]
fn record_keeps_zip4_and_gives_the_address_back() {
    let mut mailbox = example_mailbox();
    mailbox.address.zip4 = Some("1234".into());
    let record = Record::new(mailbox, info("Commercial"), UspsResult::status("disabled"));
    assert_eq!(record.zip, "03301-1234");
    let a = record.address();
    assert_eq!(a.zip, "03301");
    assert_eq!(a.zip4.as_deref(), Some("1234"));
    assert_eq!(a.line1, "1 Main St");
    assert_eq!(a.line2, "Unit 2");
    assert_eq!(a.city, "Concord");
    assert_eq!(a.state, "NH");
    assert_eq!(record.usps_status, "disabled");
    assert_eq!(record.rdi, "Commercial");
    assert_eq!(record.csv_fields().len(), 21);
}

#[test]
fn rows_are_read_by_column_name() {
    let record = Record::new(example_mailbox(), info("Residential"), UspsResult::status("matched"));
    let mut headers: Vec<String> = HEADERS.iter().map(|h| h.to_string()).collect();
    let mut row = record.csv_fields();
    headers.swap(0, 3);
    row.swap(0, 3);
    headers.push("extra".into());
    row.push("ignored".into());
    let back = Record::from_csv_row(&headers, &row).unwrap();
    assert_eq!(back.csv_fields(), record.csv_fields());

    let short = row[..5].to_vec();
    assert_eq!(Record::from_csv_row(&headers, &short).unwrap_err(), RowError::LengthMismatch);
    let mut missing = headers.clone();
    missing[1] = "other".into();
    assert_eq!(
        Record::from_csv_row(&missing, &row).unwrap_err(),
        RowError::Missing { field: 1 }
    );
    let mut twice = headers.clone();
    twice[21] = "CMRA".into();
    assert_eq!(
        Record::from_csv_row(&twice, &row).unwrap_err(),
        RowError::Duplicate { field: 9 }
    );
}

#[test]
fn records_sort_by_rdi_state_city_link_and_keep_ties_in_order() {
    let make = |rdi: &str, state: &str, city: &str, link: &str, name: &str| {
        let mut m = example_mailbox();
        m.address.state = state.into();
        m.address.city = city.into();
        m.link = link.into();
        m.name = name.into();
        Record::new(m, info(rdi), UspsResult::status("matched"))
    };
    let records = vec![
        make("Unknown", "AK", "A", "l1", "first-unknown"),
        make("commercial", "AK", "A", "l1", "commercial"),
        make("RESIDENTIAL", "OR", "B", "l2", "res-or"),
        make("Residential", "AK", "Z", "l9", "res-ak-z"),
        make("Unknown", "AK", "A", "l1", "second-unknown"),
        make("Residential", "AK", "B", "l0", "res-ak-b"),
    ];
    let sorted = sort_records(records);
    let names: Vec<&str> = sorted.iter().map(|r| r.name.as_str()).collect();
    assert_eq!(
        names,
        vec!["res-ak-b", "res-ak-z", "res-or", "commercial", "first-unknown", "second-unknown"]
    );
    assert_eq!(sorted[0].sort_key(), (0, "AK", "B", "l0"));
}
