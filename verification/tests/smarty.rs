use atmb_us_non_cmra::json::Json;
use atmb_us_non_cmra::model::Address;
use atmb_us_non_cmra::smarty::{
    smarty_query,
    http_status, parse_credentials, parse_response, select_credentials, AdditionalInfo,
    CredentialError, SmartyAction, SmartyEvent, SmartyRotation,
};

#[test]
fn credentials_are_validated_without_echoing_secrets() {
    assert_eq!(parse_credentials(" a=b, c=d ").unwrap().len(), 2);
    for raw in ["", "sensitive-value", "a=", "=b", "a=b,"] {
        let message = parse_credentials(raw).unwrap_err().message().to_string();
        assert!(!message.contains("sensitive-value"));
    }
}

#[test]
fn unknown_is_not_non_cmra() {
    let candidate = Json::Object(vec![
        ("analysis".into(), Json::Object(vec![])),
        ("metadata".into(), Json::Object(vec![])),
    ]);
    let result = parse_response(&Json::Array(vec![candidate]));
    assert_eq!(result.cmra, "Unknown");
    assert_eq!(parse_response(&Json::Array(vec![])).status, "no_match");
    assert!(parse_response(&Json::Object(vec![("error".into(), Json::Str("bad".into()))])).failed());
}

#[test]
fn credential_pairs_are_trimmed_and_split_at_the_first_equals() {
    let pairs = parse_credentials(" a = b=c ,d=e").unwrap();
    assert_eq!(pairs, vec![("a".to_string(), "b=c".to_string()), ("d".to_string(), "e".to_string())]);
    assert_eq!(parse_credentials("x").unwrap_err(), CredentialError::NoSeparator);
    assert_eq!(parse_credentials("x= ").unwrap_err(), CredentialError::EmptyPart);
    assert_eq!(
        select_credentials("  ", " id ", " tok "),
        Ok(vec![("id".to_string(), "tok".to_string())])
    );
    assert_eq!(select_credentials("", "id", ""), Err(CredentialError::Missing));
    assert_eq!(select_credentials("p=q", "id", "tok").unwrap(), vec![("p".to_string(), "q".to_string())]);
}

#[test]
fn smarty_answer_fields() {
    let candidate = Json::Object(vec![
        ("analysis".into(), Json::Object(vec![("dpv_cmra".into(), Json::Str("Y".into()))])),
        ("metadata".into(), Json::Object(vec![("rdi".into(), Json::Str("Residential".into()))])),
    ]);
    let r = parse_response(&Json::Array(vec![candidate]));
    assert_eq!((r.status.as_str(), r.cmra.as_str(), r.rdi.as_str()), ("matched", "Y", "Residential"));
    let odd = Json::Object(vec![
        ("analysis".into(), Json::Object(vec![("dpv_cmra".into(), Json::Str("maybe".into()))])),
        ("metadata".into(), Json::Object(vec![("rdi".into(), Json::Str("".into()))])),
    ]);
    let r = parse_response(&Json::Array(vec![odd]));
    assert_eq!((r.cmra.as_str(), r.rdi.as_str()), ("Unknown", "Unknown"));
    let r = parse_response(&Json::Null);
    assert_eq!(r.status, "invalid_response");
    assert!(r.failed());
    assert!(!AdditionalInfo::error("no_match").failed());
    assert_eq!(http_status(402), "http_402");
}

fn send_of(a: &SmartyAction) -> Option<(usize, u64)> {
    match a {
        SmartyAction::Send { credential, after_seconds } => Some((*credential, *after_seconds)),
        _ => None,
    }
}

fn done_status(a: SmartyAction) -> String {
    match a {
        SmartyAction::Done { info } => info.status,
        _ => panic!("not done"),
    }
}

#[test]
fn smarty_retries_switches_and_gives_up() {
    let mut r = SmartyRotation::new(2);
    assert_eq!(send_of(&r.begin()), Some((0, 0)));
    assert_eq!(send_of(&r.on_event(SmartyEvent::Response { status: 503 })), Some((0, 2)));
    assert_eq!(send_of(&r.on_event(SmartyEvent::NetworkFailure)), Some((0, 4)));
    assert_eq!(done_status(r.on_event(SmartyEvent::Response { status: 429 })), "http_429");
    assert_eq!(send_of(&r.begin()), Some((0, 0)));
    assert_eq!(send_of(&r.on_event(SmartyEvent::Response { status: 402 })), Some((1, 0)));
    assert!(matches!(r.on_event(SmartyEvent::Response { status: 200 }), SmartyAction::ReadBody));
    assert_eq!(done_status(r.on_event(SmartyEvent::Body { value: None })), "invalid_json");
    assert_eq!(r.current(), 1);
    assert_eq!(send_of(&r.begin()), Some((1, 0)));
    assert_eq!(done_status(r.on_event(SmartyEvent::Response { status: 402 })), "http_402_subscription_required");
    assert_eq!(done_status(r.begin()), "http_402_subscription_required");
    let mut n = SmartyRotation::new(1);
    n.begin();
    n.on_event(SmartyEvent::NetworkFailure);
    n.on_event(SmartyEvent::NetworkFailure);
    assert_eq!(done_status(n.on_event(SmartyEvent::NetworkFailure)), "network_error");
    let mut b = SmartyRotation::new(1);
    b.begin();
    assert_eq!(done_status(b.on_event(SmartyEvent::Body { value: Some(Json::Array(vec![])) })), "no_match");
}

#[test]
fn query_sends_the_address_with_enhanced_matching() {
    let address = Address {
        line1: "1 Main St".into(),
        line2: "Unit 2".into(),
        city: "Concord".into(),
        state: "NH".into(),
        zip: "03301".into(),
        zip4: Some("1234".into()),
    };
    let q = smarty_query("id", "token", &address);
    assert_eq!(
        q,
        [
            ("auth-id", "id"),
            ("auth-token", "token"),
            ("street", "1 Main St"),
            ("street2", "Unit 2"),
            ("city", "Concord"),
            ("state", "NH"),
            ("zipcode", "03301"),
            ("match", "enhanced"),
            ("candidates", "1"),
        ]
    );
}
