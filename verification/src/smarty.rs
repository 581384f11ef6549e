//! Smarty's US street address check: its credentials, what its answer means,
//! and when to retry, switch credentials or give up.
use vstd::prelude::*;
use crate::json::{json_get, Json};
use crate::model::{concat_str, copy_str};
use crate::text::{
    chars_eq, chars_of, decimal, decimal_chars, find_from, find_from_exec, split_char,
    split_chars, string_from_chars, trim, trim_chars,
};

verus! {

/// What Smarty says of an address: the status of the check, the CMRA flag and
/// the residential delivery indicator.
#[derive(Debug)]
pub struct AdditionalInfo {
    pub status: String,
    pub cmra: String,
    pub rdi: String,
}

impl View for AdditionalInfo {
    type V = (Seq<char>, Seq<char>, Seq<char>);

    open spec fn view(&self) -> (Seq<char>, Seq<char>, Seq<char>) {
        (self.status@, self.cmra@, self.rdi@)
    }
}

impl Default for AdditionalInfo {
    fn default() -> (r: AdditionalInfo)
        ensures
            r@ == (Seq::<char>::empty(), Seq::<char>::empty(), Seq::<char>::empty()),
    {
        AdditionalInfo { status: String::new(), cmra: String::new(), rdi: String::new() }
    }
}

/// A check that ended with `status` and found nothing.
pub open spec fn info_error(status: Seq<char>) -> (Seq<char>, Seq<char>, Seq<char>) {
    (status, Seq::empty(), Seq::empty())
}

/// The statuses of a check that Smarty answered: a match or no match.
pub open spec fn smarty_answered(status: Seq<char>) -> bool {
    status == "matched"@ || status == "no_match"@
}

impl AdditionalInfo {
    /// A check that ended with `status` and found nothing.
    pub fn error(status: &str) -> (r: AdditionalInfo)
        ensures
            r@ == info_error(status@),
    {
        AdditionalInfo { status: copy_str(status), cmra: String::new(), rdi: String::new() }
    }

    /// Whether the check failed: Smarty gave neither a match nor a no-match.
    pub fn failed(&self) -> (r: bool)
        ensures
            r == !smarty_answered(self@.0),
    {
        let s = chars_of(self.status.as_str());
        let m = chars_of("matched");
        let n = chars_of("no_match");
        !(chars_eq(s.as_slice(), m.as_slice()) || chars_eq(s.as_slice(), n.as_slice()))
    }
}

// ---------------------------------------------------------------------------
// Credentials
// ---------------------------------------------------------------------------

/// Why the credentials were refused. No variant holds any part of them.
#[derive(Debug, Clone, Copy, PartialEq, Eq, Structural)]
pub enum CredentialError {
    /// a comma-separated entry has no `=`
    NoSeparator,
    /// an entry has an empty ID or token
    EmptyPart,
    /// neither the list nor both single values are given
    Missing,
}

impl CredentialError {
    /// A message that names the problem without repeating the credentials.
    pub fn message(&self) -> (r: &'static str)
        ensures
            r@ == credential_message(*self),
    {
        match self {
            CredentialError::NoSeparator => "CREDENTIALS must contain ID=TOKEN pairs separated by commas",
            CredentialError::EmptyPart => "CREDENTIALS contains an empty ID or TOKEN",
            CredentialError::Missing => "Set CREDENTIALS or both SMARTY_AUTH_ID and SMARTY_AUTH_TOKEN",
        }
    }
}

/// The message of each credential error.
pub open spec fn credential_message(e: CredentialError) -> Seq<char> {
    match e {
        CredentialError::NoSeparator => "CREDENTIALS must contain ID=TOKEN pairs separated by commas"@,
        CredentialError::EmptyPart => "CREDENTIALS contains an empty ID or TOKEN"@,
        CredentialError::Missing => "Set CREDENTIALS or both SMARTY_AUTH_ID and SMARTY_AUTH_TOKEN"@,
    }
}

/// One `ID=TOKEN` entry, trimmed: the ID before the first `=` and the token after
/// it, each trimmed and nonempty.
pub open spec fn credential_of(entry: Seq<char>) -> Result<(Seq<char>, Seq<char>), CredentialError> {
    let t = trim(entry);
    match find_from(t, seq!['='], 0) {
        None => Err(CredentialError::NoSeparator),
        Some(j) => {
            let id = trim(t.subrange(0, j));
            let token = trim(t.subrange(j + 1, t.len() as int));
            if id.len() == 0 || token.len() == 0 {
                Err(CredentialError::EmptyPart)
            } else {
                Ok((id, token))
            }
        },
    }
}

/// The credentials of the comma-separated entries at and after `i`; the first
/// entry that is refused decides the error.
pub open spec fn credentials_from(entries: Seq<Seq<char>>, i: int) -> Result<
    Seq<(Seq<char>, Seq<char>)>,
    CredentialError,
>
    decreases entries.len() - i,
{
    if i < 0 || i >= entries.len() {
        Ok(Seq::empty())
    } else {
        match credential_of(entries[i]) {
            Err(e) => Err(e),
            Ok(c) => match credentials_from(entries, i + 1) {
                Err(e) => Err(e),
                Ok(rest) => Ok(seq![c] + rest),
            },
        }
    }
}

/// The plain value of each credential pair.
pub open spec fn pair_views(v: Seq<(String, String)>) -> Seq<(Seq<char>, Seq<char>)> {
    Seq::new(v.len(), |i: int| (v[i].0@, v[i].1@))
}

/// The credential pairs of a `ID1=TOKEN1,ID2=TOKEN2` list.
pub fn parse_credentials(raw: &str) -> (r: Result<Vec<(String, String)>, CredentialError>)
    ensures
        match r {
            Ok(v) => credentials_from(split_char(raw@, ','), 0) == Ok::<
                Seq<(Seq<char>, Seq<char>)>,
                CredentialError,
            >(pair_views(v@)),
            Err(e) => credentials_from(split_char(raw@, ','), 0) == Err::<
                Seq<(Seq<char>, Seq<char>)>,
                CredentialError,
            >(e),
        },
{
    let cs = chars_of(raw);
    let entries = split_chars(cs.as_slice(), ',');
    let ghost ev = crate::text::views(entries@);
    let mut out: Vec<(String, String)> = Vec::new();
    let mut i: usize = 0;
    while i < entries.len()
        invariant
            i <= entries@.len(),
            ev == crate::text::views(entries@),
            ev == split_char(raw@, ','),
            credentials_from(ev, 0) == match credentials_from(ev, i as int) {
                Ok(rest) => Ok(pair_views(out@) + rest),
                Err(e) => Err(e),
            },
        decreases entries@.len() - i,
    {
        let pair = match credential(entries[i].as_slice()) {
            Ok(p) => p,
            Err(e) => return Err(e),
        };
        let ghost before = out@;
        let ghost pv = (pair.0@, pair.1@);
        out.push(pair);
        proof {
            assert(pair_views(out@) =~= pair_views(before) + seq![pv]);
            match credentials_from(ev, i + 1) {
                Ok(rest) => {
                    assert(pair_views(before) + (seq![pv] + rest) =~= pair_views(out@) + rest);
                },
                Err(_) => {},
            }
        }
        i = i + 1;
    }
    assert(pair_views(out@) + Seq::<(Seq<char>, Seq<char>)>::empty() =~= pair_views(out@));
    Ok(out)
}

/// One `ID=TOKEN` entry.
fn credential(entry: &[char]) -> (r: Result<(String, String), CredentialError>)
    ensures
        match r {
            Ok(p) => credential_of(entry@) == Ok::<(Seq<char>, Seq<char>), CredentialError>(
                (p.0@, p.1@),
            ),
            Err(e) => credential_of(entry@) == Err::<(Seq<char>, Seq<char>), CredentialError>(e),
        },
{
    let t = trim_chars(entry);
    let mut eq: Vec<char> = Vec::new();
    eq.push('=');
    match find_from_exec(t.as_slice(), eq.as_slice(), 0) {
        None => Err(CredentialError::NoSeparator),
        Some(j) => {
            proof {
                crate::page::lemma_find_bounds(t@, eq@, 0);
            }
            let n = t.len();
            let before = crate::text::copy_range(t.as_slice(), 0, j);
            let after = crate::text::copy_range(t.as_slice(), j + 1, n);
            let id = trim_chars(before.as_slice());
            let token = trim_chars(after.as_slice());
            if id.len() == 0 || token.len() == 0 {
                Err(CredentialError::EmptyPart)
            } else {
                Ok((string_from_chars(id.as_slice()), string_from_chars(token.as_slice())))
            }
        },
    }
}

/// The credentials a run uses: the `CREDENTIALS` list when it is not blank, else
/// the single `SMARTY_AUTH_ID` / `SMARTY_AUTH_TOKEN` pair, trimmed (absent values
/// are empty).
pub open spec fn credentials_of(list: Seq<char>, id: Seq<char>, token: Seq<char>) -> Result<
    Seq<(Seq<char>, Seq<char>)>,
    CredentialError,
> {
    if trim(list).len() > 0 {
        credentials_from(split_char(list, ','), 0)
    } else if trim(id).len() == 0 || trim(token).len() == 0 {
        Err(CredentialError::Missing)
    } else {
        Ok(seq![(trim(id), trim(token))])
    }
}

/// The credentials a run uses, from the three settings.
pub fn select_credentials(list: &str, id: &str, token: &str) -> (r: Result<
    Vec<(String, String)>,
    CredentialError,
>)
    ensures
        match r {
            Ok(v) => credentials_of(list@, id@, token@) == Ok::<
                Seq<(Seq<char>, Seq<char>)>,
                CredentialError,
            >(pair_views(v@)),
            Err(e) => credentials_of(list@, id@, token@) == Err::<
                Seq<(Seq<char>, Seq<char>)>,
                CredentialError,
            >(e),
        },
{
    let l = chars_of(list);
    let lt = trim_chars(l.as_slice());
    if lt.len() > 0 {
        return parse_credentials(list);
    }
    let i = chars_of(id);
    let it = trim_chars(i.as_slice());
    let t = chars_of(token);
    let tt = trim_chars(t.as_slice());
    if it.len() == 0 || tt.len() == 0 {
        return Err(CredentialError::Missing);
    }
    let mut v: Vec<(String, String)> = Vec::new();
    v.push((string_from_chars(it.as_slice()), string_from_chars(tt.as_slice())));
    assert(pair_views(v@) =~= seq![(trim(id@), trim(token@))]);
    Ok(v)
}

// ---------------------------------------------------------------------------
// The answer
// ---------------------------------------------------------------------------

/// The string at `outer`/`inner` (`serde_json::Value::pointer` with two keys).
pub open spec fn str_at(v: Json, outer: Seq<char>, inner: Seq<char>) -> Option<Seq<char>> {
    match json_get(v, outer) {
        Some(a) => match json_get(a, inner) {
            Some(Json::Str(s)) => Some(s@),
            _ => None,
        },
        None => None,
    }
}

/// The CMRA flag of a candidate: `Y` or `N` as Smarty gives it, else `Unknown`.
pub open spec fn cmra_of(candidate: Json) -> Seq<char> {
    match str_at(candidate, "analysis"@, "dpv_cmra"@) {
        Some(s) => if s == "Y"@ || s == "N"@ {
            s
        } else {
            "Unknown"@
        },
        None => "Unknown"@,
    }
}

/// The residential delivery indicator of a candidate, else `Unknown`.
pub open spec fn rdi_of(candidate: Json) -> Seq<char> {
    match str_at(candidate, "metadata"@, "rdi"@) {
        Some(s) => if s.len() > 0 {
            s
        } else {
            "Unknown"@
        },
        None => "Unknown"@,
    }
}

/// What a Smarty answer says: `matched` with the first candidate's flags, `no_match`
/// for an empty list, `invalid_response` for anything that is not a list.
pub open spec fn smarty_info_of(v: Json) -> (Seq<char>, Seq<char>, Seq<char>) {
    match v {
        Json::Array(items) => if items@.len() == 0 {
            info_error("no_match"@)
        } else {
            ("matched"@, cmra_of(items@[0]), rdi_of(items@[0]))
        },
        _ => info_error("invalid_response"@),
    }
}

/// The string at `outer`/`inner`.
fn string_at<'a>(v: &'a Json, outer: &str, inner: &str) -> (r: Option<&'a String>)
    ensures
        match r {
            Some(s) => str_at(*v, outer@, inner@) == Some(s@),
            None => str_at(*v, outer@, inner@) is None,
        },
{
    match v.get(outer) {
        Some(a) => match a.get(inner) {
            Some(x) => match x.as_str() {
                Some(s) => Some(s),
                None => None,
            },
            None => None,
        },
        None => None,
    }
}

/// What a Smarty answer says of the address.
pub fn parse_response(value: &Json) -> (r: AdditionalInfo)
    ensures
        r@ == smarty_info_of(*value),
{
    let candidates = match value.as_array() {
        Some(c) => c,
        None => return AdditionalInfo::error("invalid_response"),
    };
    if candidates.len() == 0 {
        return AdditionalInfo::error("no_match");
    }
    let candidate = &candidates[0];
    let cmra = match string_at(candidate, "analysis", "dpv_cmra") {
        Some(s) => {
            let c = chars_of(s.as_str());
            let y = chars_of("Y");
            let n = chars_of("N");
            if chars_eq(c.as_slice(), y.as_slice()) || chars_eq(c.as_slice(), n.as_slice()) {
                copy_str(s.as_str())
            } else {
                String::from_str("Unknown")
            }
        },
        None => String::from_str("Unknown"),
    };
    let rdi = match string_at(candidate, "metadata", "rdi") {
        Some(s) => {
            if s.as_str().unicode_len() > 0 {
                copy_str(s.as_str())
            } else {
                String::from_str("Unknown")
            }
        },
        None => String::from_str("Unknown"),
    };
    AdditionalInfo { status: String::from_str("matched"), cmra, rdi }
}

// ---------------------------------------------------------------------------
// Retries and credential switching
// ---------------------------------------------------------------------------

/// A 2xx status.
pub open spec fn is_success(status: u16) -> bool {
    200 <= status <= 299
}

/// A status worth retrying: a server error (5xx) or too many requests (429).
pub open spec fn is_retryable(status: u16) -> bool {
    (500 <= status <= 599) || status == 429
}

/// The status text `http_<code>`.
pub open spec fn http_status_text(status: u16) -> Seq<char> {
    "http_"@ + decimal(status as nat)
}

/// `http_<code>` as a `String`.
pub fn http_status(status: u16) -> (r: String)
    ensures
        r@ == http_status_text(status),
{
    let digits = decimal_chars(status as u64);
    let d = string_from_chars(digits.as_slice());
    concat_str("http_", d.as_str())
}

/// What happened to a request.
pub enum SmartyEvent {
    /// the service answered with this HTTP status
    Response { status: u16 },
    /// the request did not reach the service or got no answer
    NetworkFailure,
    /// the body of a successful answer, when it is JSON
    Body { value: Option<Json> },
}

/// What to do next.
pub enum SmartyAction {
    /// send the request with this credential, after waiting this many seconds
    Send { credential: usize, after_seconds: u64 },
    /// read the body of the successful answer as JSON
    ReadBody,
    /// the check is over
    Done { info: AdditionalInfo },
}

/// The state of the checks of a run: how many credentials there are, which one is
/// in use (credentials that lack a subscription are passed over for good), and how
/// many retries the current request has had.
pub struct SmartyRotation {
    credentials: usize,
    current: usize,
    attempt: u64,
}

impl View for SmartyRotation {
    type V = (nat, nat, nat);

    closed spec fn view(&self) -> (nat, nat, nat) {
        (self.credentials as nat, self.current as nat, self.attempt as nat)
    }
}

/// The action ends the check with this result.
pub open spec fn done_with(a: SmartyAction, v: (Seq<char>, Seq<char>, Seq<char>)) -> bool {
    match a {
        SmartyAction::Done { info } => info@ == v,
        _ => false,
    }
}

/// How much work is left at most: the credentials still to try, three attempts each.
pub open spec fn rotation_budget(r: (nat, nat, nat)) -> int {
    (r.0 - r.1) * 3 - r.2
}

impl SmartyRotation {
    /// The state of a run with `credentials` credentials, starting with the first.
    pub fn new(credentials: usize) -> (r: SmartyRotation)
        ensures
            r@ == (credentials as nat, 0nat, 0nat),
    {
        SmartyRotation { credentials, current: 0, attempt: 0 }
    }

    /// The credential in use.
    pub fn current(&self) -> (r: usize)
        ensures
            r == self@.1,
    {
        self.current
    }

    /// The first step of checking an address: send with the credential in use, or
    /// give up when every credential has been passed over.
    pub fn begin(&mut self) -> (a: SmartyAction)
        ensures
            final(self)@ == (old(self)@.0, old(self)@.1, 0nat),
            old(self)@.1 < old(self)@.0 ==> a == (SmartyAction::Send {
                credential: old(self)@.1 as usize,
                after_seconds: 0,
            }),
            old(self)@.1 >= old(self)@.0 ==> done_with(a, info_error(
                "http_402_subscription_required"@,
            )),
    {
        self.attempt = 0;
        if self.current < self.credentials {
            SmartyAction::Send { credential: self.current, after_seconds: 0 }
        } else {
            SmartyAction::Done { info: AdditionalInfo::error("http_402_subscription_required") }
        }
    }

    /// The next step after `event`. A 402 answer passes over the credential for good,
    /// and nothing else changes the credential in use;
    /// a server error, a 429 or a network failure is retried up to twice, after 2
    /// and then 4 seconds; any other failure status ends the check. Once every
    /// credential has been passed over (each was answered 402: its account lacks a
    /// subscription), the check ends as `http_402_subscription_required`.
    pub fn on_event(&mut self, event: SmartyEvent) -> (a: SmartyAction)
        ensures
            final(self)@.0 == old(self)@.0,
            old(self)@.1 <= old(self)@.0 ==> final(self)@.1 <= final(self)@.0,
            final(self)@.1 != old(self)@.1 ==> (event matches SmartyEvent::Response { status }
                && status == 402),
            old(self)@.2 <= 2 ==> final(self)@.2 <= 2,
            a is Send ==> final(self)@.1 < final(self)@.0 && a->credential == final(self)@.1,
            a is Send && old(self)@.2 <= 2 ==> rotation_budget(final(self)@) < rotation_budget(
                old(self)@,
            ),
            old(self)@.1 >= old(self)@.0 ==> final(self)@ == old(self)@ && done_with(
                a,
                info_error("http_402_subscription_required"@),
            ),
            old(self)@.1 < old(self)@.0 ==> match event {
                SmartyEvent::Response { status } => if status == 402 {
                    final(self)@ == (old(self)@.0, old(self)@.1 + 1, 0nat) && if old(self)@.1 + 1
                        < old(self)@.0 {
                        a == (SmartyAction::Send { credential: final(self)@.1 as usize, after_seconds: 0 })
                    } else {
                        done_with(a, info_error("http_402_subscription_required"@))
                    }
                } else if is_retryable(status) && old(self)@.2 < 2 {
                    final(self)@ == (old(self)@.0, old(self)@.1, old(self)@.2 + 1) && a == (
                    SmartyAction::Send {
                        credential: old(self)@.1 as usize,
                        after_seconds: (2 * (old(self)@.2 + 1)) as u64,
                    })
                } else if !is_success(status) {
                    final(self)@ == old(self)@ && done_with(a, info_error(http_status_text(status)))
                } else {
                    final(self)@ == old(self)@ && a is ReadBody
                },
                SmartyEvent::NetworkFailure => if old(self)@.2 < 2 {
                    final(self)@ == (old(self)@.0, old(self)@.1, old(self)@.2 + 1) && a == (
                    SmartyAction::Send {
                        credential: old(self)@.1 as usize,
                        after_seconds: (2 * (old(self)@.2 + 1)) as u64,
                    })
                } else {
                    final(self)@ == old(self)@ && done_with(a, info_error("network_error"@))
                },
                SmartyEvent::Body { value } => final(self)@ == old(self)@ && match value {
                    Some(v) => done_with(a, smarty_info_of(v)),
                    None => done_with(a, info_error("invalid_json"@)),
                },
            },
    {
        if self.current >= self.credentials {
            return SmartyAction::Done { info: AdditionalInfo::error("http_402_subscription_required") };
        }
        match event {
            SmartyEvent::Response { status } => {
                if status == 402 {
                    self.current = self.current + 1;
                    self.attempt = 0;
                    if self.current < self.credentials {
                        SmartyAction::Send { credential: self.current, after_seconds: 0 }
                    } else {
                        SmartyAction::Done { info: AdditionalInfo::error("http_402_subscription_required") }
                    }
                } else if ((500 <= status && status <= 599) || status == 429) && self.attempt < 2 {
                    let wait = 2 * (self.attempt + 1);
                    self.attempt = self.attempt + 1;
                    SmartyAction::Send { credential: self.current, after_seconds: wait }
                } else if !(200 <= status && status <= 299) {
                    let text = http_status(status);
                    SmartyAction::Done { info: AdditionalInfo::error(text.as_str()) }
                } else {
                    SmartyAction::ReadBody
                }
            },
            SmartyEvent::NetworkFailure => {
                if self.attempt < 2 {
                    let wait = 2 * (self.attempt + 1);
                    self.attempt = self.attempt + 1;
                    SmartyAction::Send { credential: self.current, after_seconds: wait }
                } else {
                    SmartyAction::Done { info: AdditionalInfo::error("network_error") }
                }
            },
            SmartyEvent::Body { value } => match value {
                Some(v) => SmartyAction::Done { info: parse_response(&v) },
                None => SmartyAction::Done { info: AdditionalInfo::error("invalid_json") },
            },
        }
    }
}

// ---------------------------------------------------------------------------
// The query
// ---------------------------------------------------------------------------

/// The query of a street address check, by name and value: the credential, the
/// address's street lines, city, state and ZIP code, enhanced matching, and a
/// single candidate.
pub open spec fn query_of(id: Seq<char>, token: Seq<char>, a: crate::model::Address) -> Seq<
    (Seq<char>, Seq<char>),
> {
    seq![
        ("auth-id"@, id),
        ("auth-token"@, token),
        ("street"@, a.line1@),
        ("street2"@, a.line2@),
        ("city"@, a.city@),
        ("state"@, a.state@),
        ("zipcode"@, a.zip@),
        ("match"@, "enhanced"@),
        ("candidates"@, "1"@),
    ]
}

/// The query of a street address check with the credential `id`/`token`.
pub fn smarty_query<'a>(id: &'a str, token: &'a str, address: &'a crate::model::Address) -> (r: [(
    &'a str,
    &'a str,
); 9])
    ensures
        crate::usps::form_view(r@) == query_of(id@, token@, *address),
{
    let q = [
        ("auth-id", id),
        ("auth-token", token),
        ("street", address.line1.as_str()),
        ("street2", address.line2.as_str()),
        ("city", address.city.as_str()),
        ("state", address.state.as_str()),
        ("zipcode", address.zip.as_str()),
        ("match", "enhanced"),
        ("candidates", "1"),
    ];
    assert(crate::usps::form_view(q@) =~= query_of(id@, token@, *address));
    q
}

} // verus!
