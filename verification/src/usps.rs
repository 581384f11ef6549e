//! The USPS ZIP code lookup: the form an address is sent as, what the answer
//! means, when to retry, and when to stop asking after repeated service errors.
use vstd::prelude::*;
use crate::config::{state_code, state_index_from, STATES};
use crate::json::{json_get, Json};
use crate::model::{copy_str, Address};
use crate::smarty::{http_status, http_status_text, is_retryable, is_success};
use crate::text::{chars_eq, chars_of, eq_ignore_ascii_case, eq_ignore_case, join, join_chars, views};

verus! {

/// What the USPS lookup says of an address. Fields that USPS did not give are empty.
#[derive(Debug)]
pub struct UspsResult {
    pub status: String,
    pub address: String,
    pub zip5: String,
    pub zip4: String,
    pub dpv_confirmation: String,
    pub cmra: String,
    pub business: String,
    pub carrier_route: String,
    pub raw: String,
}

/// The plain value of a `UspsResult`.
pub struct UspsView {
    pub status: Seq<char>,
    pub address: Seq<char>,
    pub zip5: Seq<char>,
    pub zip4: Seq<char>,
    pub dpv_confirmation: Seq<char>,
    pub cmra: Seq<char>,
    pub business: Seq<char>,
    pub carrier_route: Seq<char>,
    pub raw: Seq<char>,
}

impl View for UspsResult {
    type V = UspsView;

    open spec fn view(&self) -> UspsView {
        UspsView {
            status: self.status@,
            address: self.address@,
            zip5: self.zip5@,
            zip4: self.zip4@,
            dpv_confirmation: self.dpv_confirmation@,
            cmra: self.cmra@,
            business: self.business@,
            carrier_route: self.carrier_route@,
            raw: self.raw@,
        }
    }
}

/// A result with only a status and the raw answer.
pub open spec fn status_view(status: Seq<char>, raw: Seq<char>) -> UspsView {
    UspsView {
        status,
        address: Seq::empty(),
        zip5: Seq::empty(),
        zip4: Seq::empty(),
        dpv_confirmation: Seq::empty(),
        cmra: Seq::empty(),
        business: Seq::empty(),
        carrier_route: Seq::empty(),
        raw,
    }
}

/// The statuses that are answers of the service rather than failures of it.
pub open spec fn usps_answered(status: Seq<char>) -> bool {
    ||| status == "matched"@
    ||| status == "no_match"@
    ||| status == "multiple_matches"@
    ||| status == "disabled"@
}

impl Default for UspsResult {
    fn default() -> (r: UspsResult)
        ensures
            r@ == status_view(Seq::empty(), Seq::empty()),
    {
        UspsResult {
            status: String::new(),
            address: String::new(),
            zip5: String::new(),
            zip4: String::new(),
            dpv_confirmation: String::new(),
            cmra: String::new(),
            business: String::new(),
            carrier_route: String::new(),
            raw: String::new(),
        }
    }
}

impl UspsResult {
    /// A result with only a status.
    pub fn status(status: &str) -> (r: UspsResult)
        ensures
            r@ == status_view(status@, Seq::empty()),
    {
        let mut r = UspsResult::default();
        r.status = copy_str(status);
        r
    }

    /// The result of an answer with a failure HTTP status: `http_<code>`, with the
    /// diagnostic `raw` text.
    pub fn http_failure(code: u16, raw: String) -> (r: UspsResult)
        ensures
            r@ == status_view(http_status_text(code), raw@),
    {
        let mut r = UspsResult::default();
        r.status = http_status(code);
        r.raw = raw;
        r
    }

    /// Whether the lookup failed as a service: its status is none of `matched`,
    /// `no_match`, `multiple_matches` and `disabled`.
    pub fn service_error(&self) -> (r: bool)
        ensures
            r == !usps_answered(self@.status),
    {
        let s = chars_of(self.status.as_str());
        let a = chars_of("matched");
        let b = chars_of("no_match");
        let c = chars_of("multiple_matches");
        let d = chars_of("disabled");
        !(chars_eq(s.as_slice(), a.as_slice()) || chars_eq(s.as_slice(), b.as_slice())
            || chars_eq(s.as_slice(), c.as_slice()) || chars_eq(s.as_slice(), d.as_slice()))
    }
}

// ---------------------------------------------------------------------------
// The form
// ---------------------------------------------------------------------------

/// The form fields, by name and value, that an address is sent as: the state is
/// always its two-letter code; the second street line is sent as it is.
pub open spec fn form_of(a: Address, code: Seq<char>) -> Seq<(Seq<char>, Seq<char>)> {
    seq![
        ("companyName"@, ""@),
        ("address1"@, a.line1@),
        ("address2"@, a.line2@),
        ("city"@, a.city@),
        ("state"@, code),
        ("urbanCode"@, ""@),
        ("zip"@, a.zip@),
        ("zip4"@, ""@),
    ]
}

/// The plain value of the form fields.
pub open spec fn form_view(f: Seq<(&str, &str)>) -> Seq<(Seq<char>, Seq<char>)> {
    Seq::new(f.len(), |i: int| (f[i].0@, f[i].1@))
}

/// The form fields of an address; `None` when its state is not a US state.
pub fn form_fields<'a>(address: &'a Address) -> (r: Option<[(&'a str, &'a str); 8]>)
    ensures
        match state_index_from(address.state@, 0) {
            None => r is None,
            Some(i) => r is Some && form_view(r->Some_0@) == form_of(*address, STATES@[i].1@),
        },
{
    let code = match state_code(address.state.as_str()) {
        Some(c) => c,
        None => return None,
    };
    let f = [
        ("companyName", ""),
        ("address1", address.line1.as_str()),
        ("address2", address.line2.as_str()),
        ("city", address.city.as_str()),
        ("state", code),
        ("urbanCode", ""),
        ("zip", address.zip.as_str()),
        ("zip4", ""),
    ];
    assert(form_view(f@) =~= form_of(*address, code@));
    Some(f)
}

// ---------------------------------------------------------------------------
// The answer
// ---------------------------------------------------------------------------

/// The text of a scalar JSON value: a string as it is, `true`/`false`, a number as
/// written; `None` for anything else.
pub open spec fn scalar_text(v: Json) -> Option<Seq<char>> {
    match v {
        Json::Str(s) => Some(s@),
        Json::Bool(b) => Some(if b { "true"@ } else { "false"@ }),
        Json::Number(n) => Some(n@),
        _ => None,
    }
}

/// The text of the first of the members `names` (from `i` on) that is a scalar,
/// else empty.
pub open spec fn field_from(v: Json, names: Seq<Seq<char>>, i: int) -> Seq<char>
    decreases names.len() - i,
{
    if i < 0 || i >= names.len() {
        Seq::empty()
    } else {
        match json_get(v, names[i]) {
            Some(x) => match scalar_text(x) {
                Some(t) => t,
                None => field_from(v, names, i + 1),
            },
            None => field_from(v, names, i + 1),
        }
    }
}

/// The text of the first of the members `names` that is a scalar, else empty.
pub open spec fn field_of(v: Json, names: Seq<Seq<char>>) -> Seq<char> {
    field_from(v, names, 0)
}

/// The text of a scalar JSON value.
fn scalar(v: &Json) -> (r: Option<String>)
    ensures
        crate::model::opt_str(r) == scalar_text(*v),
{
    match v {
        Json::Str(s) => Some(copy_str(s.as_str())),
        Json::Bool(b) => Some(String::from_str(if *b { "true" } else { "false" })),
        Json::Number(n) => Some(copy_str(n.as_str())),
        _ => None,
    }
}

/// The text of the first of the members `names` that is a scalar, else empty.
pub fn field(value: &Json, names: &[&str]) -> (r: String)
    ensures
        r@ == field_of(*value, Seq::new(names@.len(), |i: int| names@[i]@)),
{
    let ghost ns = Seq::new(names@.len(), |i: int| names@[i]@);
    let mut i: usize = 0;
    while i < names.len()
        invariant
            i <= names@.len(),
            ns == Seq::new(names@.len(), |i: int| names@[i]@),
            field_from(*value, ns, 0) == field_from(*value, ns, i as int),
        decreases names@.len() - i,
    {
        match value.get(names[i]) {
            Some(x) => match scalar(x) {
                Some(t) => return t,
                None => {},
            },
            None => {},
        }
        i = i + 1;
    }
    String::new()
}

/// The nonempty texts, in order.
pub open spec fn nonempty(parts: Seq<Seq<char>>) -> Seq<Seq<char>>
    decreases parts.len(),
{
    if parts.len() == 0 {
        Seq::empty()
    } else if parts.last().len() > 0 {
        nonempty(parts.drop_last()).push(parts.last())
    } else {
        nonempty(parts.drop_last())
    }
}

/// The one-line address of a matched address: its two lines, city and state, those
/// that are not empty, joined by `, `.
pub open spec fn address_line_of(a: Json) -> Seq<char> {
    join(
        nonempty(
            seq![
                field_of(a, seq!["addressLine1"@]),
                field_of(a, seq!["addressLine2"@]),
                field_of(a, seq!["city"@]),
                field_of(a, seq!["state"@]),
            ],
        ),
        ", "@,
    )
}

/// What a USPS answer says: `lookup_failed` unless `resultStatus` is `SUCCESS` (in
/// any ASCII case), `invalid_response` without an address list, `no_match` or
/// `multiple_matches` for an empty or longer list, else `matched` with the fields of
/// the one address. The raw answer is kept in every case.
pub open spec fn usps_result_of(v: Json, raw: Seq<char>) -> UspsView {
    if !eq_ignore_ascii_case(field_of(v, seq!["resultStatus"@]), "SUCCESS"@) {
        status_view("lookup_failed"@, raw)
    } else {
        match json_get(v, "addressList"@) {
            Some(Json::Array(list)) => if list@.len() == 0 {
                status_view("no_match"@, raw)
            } else if list@.len() > 1 {
                status_view("multiple_matches"@, raw)
            } else {
                let a = list@[0];
                UspsView {
                    status: "matched"@,
                    address: address_line_of(a),
                    zip5: field_of(a, seq!["zip5"@]),
                    zip4: field_of(a, seq!["zip4"@]),
                    dpv_confirmation: field_of(a, seq!["DPVConfirmation"@, "dpvConfirmation"@]),
                    cmra: field_of(a, seq!["cmar"@, "DPVCMRA"@, "dpvCmra"@]),
                    business: field_of(a, seq!["business"@]),
                    carrier_route: field_of(a, seq!["carrierRoute"@]),
                    raw,
                }
            },
            _ => status_view("invalid_response"@, raw),
        }
    }
}

/// `field` with a single member name.
fn field1(value: &Json, name: &str) -> (r: String)
    ensures
        r@ == field_of(*value, seq![name@]),
{
    let names = [name];
    let r = field(value, &names);
    assert(Seq::new(names@.len(), |i: int| names@[i]@) =~= seq![name@]);
    r
}

/// `field` with two member names.
fn field2(value: &Json, first: &str, second: &str) -> (r: String)
    ensures
        r@ == field_of(*value, seq![first@, second@]),
{
    let names = [first, second];
    let r = field(value, &names);
    assert(Seq::new(names@.len(), |i: int| names@[i]@) =~= seq![first@, second@]);
    r
}

/// `field` with three member names.
fn field3(value: &Json, first: &str, second: &str, third: &str) -> (r: String)
    ensures
        r@ == field_of(*value, seq![first@, second@, third@]),
{
    let names = [first, second, third];
    let r = field(value, &names);
    assert(Seq::new(names@.len(), |i: int| names@[i]@) =~= seq![first@, second@, third@]);
    r
}

/// What a USPS answer says of the address; `raw` is the answer's JSON text.
pub fn parse_response(value: &Json, raw: String) -> (r: UspsResult)
    ensures
        r@ == usps_result_of(*value, raw@),
{
    let mut result = UspsResult::default();
    result.raw = raw;
    let status = field1(value, "resultStatus");
    let sc = chars_of(status.as_str());
    let success = chars_of("SUCCESS");
    if !eq_ignore_case(sc.as_slice(), success.as_slice()) {
        result.status = String::from_str("lookup_failed");
        return result;
    }
    let list = match value.get("addressList") {
        Some(l) => match l.as_array() {
            Some(v) => v,
            None => {
                result.status = String::from_str("invalid_response");
                return result;
            },
        },
        None => {
            result.status = String::from_str("invalid_response");
            return result;
        },
    };
    if list.len() == 0 {
        result.status = String::from_str("no_match");
        return result;
    }
    if list.len() > 1 {
        result.status = String::from_str("multiple_matches");
        return result;
    }
    let a = &list[0];
    result.status = String::from_str("matched");
    let parts = [
        field1(a, "addressLine1"),
        field1(a, "addressLine2"),
        field1(a, "city"),
        field1(a, "state"),
    ];
    let ghost pv = seq![parts@[0]@, parts@[1]@, parts@[2]@, parts@[3]@];
    let mut kept: Vec<Vec<char>> = Vec::new();
    let mut i: usize = 0;
    assert(pv.subrange(0, 0) =~= Seq::<Seq<char>>::empty());
    while i < 4
        invariant
            i <= 4,
            parts@.len() == 4,
            pv == seq![parts@[0]@, parts@[1]@, parts@[2]@, parts@[3]@],
            views(kept@) == nonempty(pv.subrange(0, i as int)),
        decreases 4 - i,
    {
        let c = chars_of(parts[i].as_str());
        assert(pv.subrange(0, i + 1).drop_last() =~= pv.subrange(0, i as int));
        assert(pv.subrange(0, i + 1).last() == c@);
        if c.len() > 0 {
            let ghost before = kept@;
            kept.push(c);
            assert(views(kept@) =~= views(before).push(pv[i as int]));
        }
        i = i + 1;
    }
    assert(pv.subrange(0, 4) =~= pv);
    let sep = chars_of(", ");
    let line = join_chars(&kept, sep.as_slice());
    result.address = crate::text::string_from_chars(line.as_slice());
    result.zip5 = field1(a, "zip5");
    result.zip4 = field1(a, "zip4");
    result.dpv_confirmation = field2(a, "DPVConfirmation", "dpvConfirmation");
    result.cmra = field3(a, "cmar", "DPVCMRA", "dpvCmra");
    result.business = field1(a, "business");
    result.carrier_route = field1(a, "carrierRoute");
    result
}

// ---------------------------------------------------------------------------
// The diagnostic text of a failed answer
// ---------------------------------------------------------------------------

/// The text `serde_json` writes for the object with the member `k1` holding the
/// number `n` and the member `k2` holding the string `v`, or `null` when there is none.
pub uninterp spec fn json_object_text_of(k1: Seq<char>, n: u16, k2: Seq<char>, v: Option<Seq<char>>) -> Seq<char>;

/// Calls `serde_json`: builds a `serde_json::Map` with `Map::insert` of `k1` (a
/// `Value::from(n)`) and of `k2` (a `Value::from(v)`, or `Value::Null`), and writes
/// the `Value::Object` with `ToString::to_string` (its `Display`). The contract
/// claims only that the text is the name `json_object_text_of` applied to the arguments.
#[verifier::external_body]
fn json_object_text(k1: &str, n: u16, k2: &str, v: Option<&str>) -> (r: String)
    ensures
        r@ == json_object_text_of(k1@, n, k2@, crate::config::opt_text(v)),
{
    let mut map = serde_json::Map::new();
    map.insert(k1.to_string(), serde_json::Value::from(n));
    map.insert(k2.to_string(), v.map_or(serde_json::Value::Null, serde_json::Value::from));
    serde_json::Value::Object(map).to_string()
}

/// The diagnostic text of an answer with a failure status: the JSON object with
/// `http_status` (the status) and `redirect` (the `Location` header, or `null`).
pub open spec fn failure_raw_of(status: u16, location: Option<Seq<char>>) -> Seq<char> {
    json_object_text_of("http_status"@, status, "redirect"@, location)
}

/// The diagnostic text of an answer with a failure status.
pub fn failure_raw(status: u16, location: Option<&str>) -> (r: String)
    ensures
        r@ == failure_raw_of(status, crate::config::opt_text(location)),
{
    json_object_text("http_status", status, "redirect", location)
}

// ---------------------------------------------------------------------------
// Retries, and stopping after repeated service errors
// ---------------------------------------------------------------------------

/// What happened to a request.
pub enum UspsEvent {
    /// the service answered with this HTTP status, and this `Location` header when
    /// it has one
    Response { status: u16, location: Option<String> },
    /// the request did not reach the service or got no answer
    NetworkFailure,
    /// the body of a successful answer when it is JSON, with its text
    Body { value: Option<(Json, String)> },
}

/// What to do next.
pub enum UspsAction {
    /// send the form after waiting this many seconds
    Send { after_seconds: u64 },
    /// read the body of the successful answer as JSON
    ReadBody,
    /// the lookup is over
    Done { result: UspsResult },
}

/// The action ends the lookup with this result.
pub open spec fn usps_done_with(a: UspsAction, v: UspsView) -> bool {
    match a {
        UspsAction::Done { result } => result@ == v,
        _ => false,
    }
}

/// The retries of one lookup: how many there have been.
pub struct UspsAttempts {
    attempt: u64,
}

impl View for UspsAttempts {
    type V = nat;

    closed spec fn view(&self) -> nat {
        self.attempt as nat
    }
}

impl UspsAttempts {
    /// The start of a lookup: send the form, or stop when the address has no US state.
    pub fn begin(address: &Address) -> (r: (UspsAttempts, UspsAction))
        ensures
            r.0@ == 0,
            match state_index_from(address.state@, 0) {
                None => usps_done_with(r.1, status_view("invalid_state"@, Seq::empty())),
                Some(_) => r.1 == (UspsAction::Send { after_seconds: 0 }),
            },
    {
        let a = UspsAttempts { attempt: 0 };
        match state_code(address.state.as_str()) {
            None => (a, UspsAction::Done { result: UspsResult::status("invalid_state") }),
            Some(_) => (a, UspsAction::Send { after_seconds: 0 }),
        }
    }

    /// The next step after `event`: a server error, a 429 or a network failure is
    /// retried up to twice, after 2 and then 4 seconds; any other failure status ends
    /// the lookup as `http_<status>`, with the status and the `Location` header as its
    /// diagnostic text: a redirect is never taken for an answer.
    pub fn on_event(&mut self, event: UspsEvent) -> (a: UspsAction)
        ensures
            old(self)@ <= 2 ==> final(self)@ <= 2,
            a is Send ==> final(self)@ == old(self)@ + 1,
            match event {
                UspsEvent::Response { status, location } => if is_retryable(status) && old(self)@ < 2 {
                    a == (UspsAction::Send { after_seconds: (2 * (old(self)@ + 1)) as u64 })
                } else if !is_success(status) {
                    final(self)@ == old(self)@ && usps_done_with(
                        a,
                        status_view(
                            http_status_text(status),
                            failure_raw_of(status, crate::model::opt_str(location)),
                        ),
                    )
                } else {
                    final(self)@ == old(self)@ && a is ReadBody
                },
                UspsEvent::NetworkFailure => if old(self)@ < 2 {
                    a == (UspsAction::Send { after_seconds: (2 * (old(self)@ + 1)) as u64 })
                } else {
                    final(self)@ == old(self)@ && usps_done_with(
                        a,
                        status_view("network_error"@, Seq::empty()),
                    )
                },
                UspsEvent::Body { value } => final(self)@ == old(self)@ && match value {
                    Some((v, raw)) => usps_done_with(a, usps_result_of(v, raw@)),
                    None => usps_done_with(a, status_view("invalid_json"@, Seq::empty())),
                },
            },
    {
        match event {
            UspsEvent::Response { status, location } => {
                if ((500 <= status && status <= 599) || status == 429) && self.attempt < 2 {
                    let wait = 2 * (self.attempt + 1);
                    self.attempt = self.attempt + 1;
                    UspsAction::Send { after_seconds: wait }
                } else if !(200 <= status && status <= 299) {
                    let raw = match &location {
                        Some(l) => failure_raw(status, Some(l.as_str())),
                        None => failure_raw(status, None),
                    };
                    UspsAction::Done { result: UspsResult::http_failure(status, raw) }
                } else {
                    UspsAction::ReadBody
                }
            },
            UspsEvent::NetworkFailure => {
                if self.attempt < 2 {
                    let wait = 2 * (self.attempt + 1);
                    self.attempt = self.attempt + 1;
                    UspsAction::Send { after_seconds: wait }
                } else {
                    UspsAction::Done { result: UspsResult::status("network_error") }
                }
            },
            UspsEvent::Body { value } => match value {
                Some((v, raw)) => UspsAction::Done { result: parse_response(&v, raw) },
                None => UspsAction::Done { result: UspsResult::status("invalid_json") },
            },
        }
    }
}

/// How many service errors in a row the lookups have had.
pub struct UspsBreaker {
    consecutive_errors: usize,
}

impl View for UspsBreaker {
    type V = nat;

    closed spec fn view(&self) -> nat {
        self.consecutive_errors as nat
    }
}

/// The number of service errors in a row after which no lookup is made.
pub open spec fn breaker_limit() -> nat {
    3
}

impl UspsBreaker {
    /// No errors yet.
    pub fn new() -> (r: UspsBreaker)
        ensures
            r@ == 0,
    {
        UspsBreaker { consecutive_errors: 0 }
    }

    /// The result of a lookup that is not made: after three service errors in a row,
    /// `skipped_after_service_errors`; else `None`, and the lookup is made.
    pub fn check(&self) -> (r: Option<UspsResult>)
        ensures
            self@ >= breaker_limit() ==> r is Some && r->Some_0@ == status_view(
                "skipped_after_service_errors"@,
                Seq::empty(),
            ),
            self@ < breaker_limit() ==> r is None,
    {
        if self.consecutive_errors >= 3 {
            Some(UspsResult::status("skipped_after_service_errors"))
        } else {
            None
        }
    }

    /// Counts the result of a lookup that was made: a service error adds one to the
    /// run of errors, anything else ends it.
    pub fn record(&mut self, result: &UspsResult)
        ensures
            result.service_error_spec() ==> final(self)@ == if old(self)@ < usize::MAX {
                old(self)@ + 1
            } else {
                old(self)@
            },
            !result.service_error_spec() ==> final(self)@ == 0,
    {
        if result.service_error() {
            if self.consecutive_errors < usize::MAX {
                self.consecutive_errors = self.consecutive_errors + 1;
            }
        } else {
            self.consecutive_errors = 0;
        }
    }
}

impl UspsResult {
    /// The status is none of the service's answers.
    pub open spec fn service_error_spec(&self) -> bool {
        !usps_answered(self@.status)
    }
}

} // verus!
