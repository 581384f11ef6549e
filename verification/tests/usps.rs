use atmb_us_non_cmra::json::Json;
use atmb_us_non_cmra::model::Address;
use atmb_us_non_cmra::usps::{
    failure_raw,
    field, form_fields, parse_response, UspsAction, UspsAttempts, UspsBreaker, UspsEvent, UspsResult,
};

fn obj(members: Vec<(&str, Json)>) -> Json {
    Json::Object(members.into_iter().map(|(k, v)| (k.to_string(), v)).collect())
}

fn s(v: &str) -> Json {
    Json::Str(v.into())
}

#[test]
fn form_preserves_unit_and_normalizes_state() {
    let address = Address {
        line1: "5953 Mabel Rd".into(),
        line2: "unit-236".into(),
        city: "Las Vegas".into(),
        state: "Nevada".into(),
        zip: "89110".into(),
        zip4: None,
    };
    let form = form_fields(&address).unwrap();
    assert!(form.contains(&("state", "NV")));
    assert!(form.contains(&("address2", "unit-236")));
}

#[test]
fn parses_results_without_inventing_cmra() {
    let result = parse_response(
        &obj(vec![
            ("resultStatus", s("SUCCESS")),
            (
                "addressList",
                Json::Array(vec![obj(vec![
                    ("addressLine1", s("5953 MABEL RD")),
                    ("zip5", s("89110")),
                    ("zip4", s("1234")),
                    ("DPVConfirmation", s("Y")),
                    ("business", s("N")),
                ])]),
            ),
        ]),
        r#"{"addressList":[{"DPVConfirmation":"Y","addressLine1":"5953 MABEL RD","business":"N","zip4":"1234","zip5":"89110"}],"resultStatus":"SUCCESS"}"#.into(),
    );
    assert_eq!(result.status, "matched");
    assert_eq!(result.zip4, "1234");
    assert!(result.cmra.is_empty());
    assert_eq!(
        parse_response(&obj(vec![("resultStatus", s("SUCCESS")), ("addressList", Json::Array(vec![]))]), String::new()).status,
        "no_match"
    );
    assert_eq!(
        parse_response(
            &obj(vec![("resultStatus", s("SUCCESS")), ("addressList", Json::Array(vec![obj(vec![]), obj(vec![])]))]),
            String::new()
        )
        .status,
        "multiple_matches"
    );
    assert!(parse_response(&obj(vec![("resultStatus", s("FAILURE"))]), String::new()).service_error());
    assert!(parse_response(&obj(vec![("resultStatus", s("SUCCESS"))]), String::new()).service_error());
}

#[test]
fn matched_address_fields_and_raw() {
    let a = obj(vec![
        ("addressLine1", s("1 MAIN ST")),
        ("addressLine2", s("")),
        ("city", s("RENO")),
        ("state", s("NV")),
        ("zip5", Json::Number("89501".into())),
        ("dpvConfirmation", s("D")),
        ("dpvCmra", Json::Bool(true)),
        ("carrierRoute", s("C001")),
    ]);
    let r = parse_response(&obj(vec![("resultStatus", s("success")), ("addressList", Json::Array(vec![a]))]), "raw".into());
    assert_eq!(r.status, "matched");
    assert_eq!(r.address, "1 MAIN ST, RENO, NV");
    assert_eq!(r.zip5, "89501");
    assert_eq!(r.dpv_confirmation, "D");
    assert_eq!(r.cmra, "true");
    assert_eq!(r.carrier_route, "C001");
    assert_eq!(r.business, "");
    assert_eq!(r.raw, "raw");
    assert!(!r.service_error());
    let bad = parse_response(&obj(vec![("resultStatus", s("SUCCESS")), ("addressList", s("x"))]), "t".into());
    assert_eq!(bad.status, "invalid_response");
    assert_eq!(bad.raw, "t");
    let failed = parse_response(&Json::Array(vec![]), String::new());
    assert_eq!(failed.status, "lookup_failed");
    assert_eq!(field(&obj(vec![("a", Json::Null), ("b", s("x"))]), &["a", "b"]), "x");
    assert_eq!(field(&Json::Null, &["a"]), "");
}

#[test]
fn form_refuses_unknown_states() {
    let address = Address {
        line1: "1 Main".into(),
        line2: "".into(),
        city: "Toronto".into(),
        state: "Ontario".into(),
        zip: "00000".into(),
        zip4: None,
    };
    assert!(form_fields(&address).is_none());
    let (_, action) = UspsAttempts::begin(&address);
    match action {
        UspsAction::Done { result } => assert_eq!(result.status, "invalid_state"),
        _ => panic!("expected invalid_state"),
    }
}

#[test]
fn usps_retries_and_statuses() {
    let address = Address {
        line1: "1 Main".into(),
        line2: "".into(),
        city: "Reno".into(),
        state: "NV".into(),
        zip: "89501".into(),
        zip4: None,
    };
    let (mut a, first) = UspsAttempts::begin(&address);
    assert!(matches!(first, UspsAction::Send { after_seconds: 0 }));
    assert!(matches!(a.on_event(UspsEvent::Response { status: 500, location: None }), UspsAction::Send { after_seconds: 2 }));
    assert!(matches!(a.on_event(UspsEvent::Response { status: 429, location: None }), UspsAction::Send { after_seconds: 4 }));
    match a.on_event(UspsEvent::Response { status: 500, location: None }) {
        UspsAction::Done { result } => {
            assert_eq!(result.status, "http_500");
            assert_eq!(result.raw, r#"{"http_status":500,"redirect":null}"#);
        },
        _ => panic!("expected the end of the lookup"),
    }
    let (mut b, _) = UspsAttempts::begin(&address);
    match b.on_event(UspsEvent::Response { status: 302, location: Some("https://www.usps.com/".into()) }) {
        UspsAction::Done { result } => {
            assert_eq!(result.status, "http_302");
            assert_eq!(result.raw, r#"{"http_status":302,"redirect":"https://www.usps.com/"}"#);
            assert_eq!(result.cmra, "");
        },
        _ => panic!("expected the end of the lookup"),
    }
    assert!(matches!(b.on_event(UspsEvent::Response { status: 200, location: None }), UspsAction::ReadBody));
    match b.on_event(UspsEvent::Body { value: None }) {
        UspsAction::Done { result } => assert_eq!(result.status, "invalid_json"),
        _ => panic!(),
    }
    let r = UspsResult::http_failure(302, "{\"http_status\":302}".into());
    assert_eq!(r.status, "http_302");
    assert!(r.service_error());
    assert!(!UspsResult::status("disabled").service_error());
}

#[test]
fn usps_stops_after_three_service_errors_in_a_row() {
    let mut breaker = UspsBreaker::new();
    let error = UspsResult::status("http_302");
    let ok = UspsResult::status("no_match");
    assert!(breaker.check().is_none());
    breaker.record(&error);
    breaker.record(&error);
    breaker.record(&ok);
    breaker.record(&error);
    breaker.record(&error);
    assert!(breaker.check().is_none());
    breaker.record(&error);
    assert_eq!(breaker.check().unwrap().status, "skipped_after_service_errors");
}

#[test]
fn cmra_flag_is_read_from_cmar() {
    let a = obj(vec![("addressLine1", s("1 MAIN ST")), ("cmar", s("Y")), ("dpvCmra", s("N"))]);
    let r = parse_response(&obj(vec![("resultStatus", s("SUCCESS")), ("addressList", Json::Array(vec![a]))]), "raw".into());
    assert_eq!(r.status, "matched");
    assert_eq!(r.cmra, "Y");
}

#[test]
fn failure_text_names_status_and_redirect() {
    assert_eq!(failure_raw(302, Some("/a\"b")), r#"{"http_status":302,"redirect":"/a\"b"}"#);
    assert_eq!(failure_raw(403, None), r#"{"http_status":403,"redirect":null}"#);
}
