//! The decisions of a run: which loaded results may be checked again, what the
//! summary says, where the files go, and whether the results may be published.
use vstd::prelude::*;
use crate::config::{scope_includes, scope_name, Scope};
use crate::model::copy_str;
use crate::record::{
    col_detail_status, col_smarty_status, col_state, col_street, col_usps_status, is_non_cmra,
    record_views, Record, RecordView,
};
use crate::smarty::smarty_answered;
use crate::text::{
    chars_eq, chars_of, decimal, decimal_chars, is_digit, lemma_lex_total, lemma_lex_trans,
    lex_less, lex_lt, string_from_chars, trim, trim_chars,
};
use crate::usps::usps_answered;

verus! {

/// Why a run did not publish its results.
#[derive(Debug, Clone, Copy, PartialEq, Eq, Structural)]
pub enum RunError {
    /// the loaded results are empty, out of scope, lack a street, or lack a Smarty answer
    InvalidInput,
    /// the USPS lookup failed as a service for this many addresses
    UspsUnavailable { count: usize },
    /// the Smarty check failed for this many addresses
    SmartyFailed { count: usize },
    /// this many addresses keep the street lines of the state listing
    DetailsMissing { count: usize },
}

/// A loaded record may be checked again: it lies in the scope, has a street, and
/// has a Smarty answer.
pub open spec fn loadable(r: RecordView, scope: Scope) -> bool {
    &&& scope_includes(scope, r[col_state()])
    &&& trim(r[col_street()]).len() > 0
    &&& smarty_answered(r[col_smarty_status()])
}

/// Whether results loaded from a file may be checked again: there is at least one,
/// and every one may.
pub fn check_loaded_records(records: &Vec<Record>, scope: Scope) -> (r: Result<(), RunError>)
    ensures
        r is Ok <==> (records@.len() > 0 && forall|i: int|
            0 <= i < records@.len() ==> loadable(#[trigger] records@[i]@, scope)),
        r is Err ==> r == Err::<(), RunError>(RunError::InvalidInput),
{
    if records.len() == 0 {
        return Err(RunError::InvalidInput);
    }
    let mut i: usize = 0;
    while i < records.len()
        invariant
            i <= records@.len(),
            forall|j: int| 0 <= j < i ==> loadable(#[trigger] records@[j]@, scope),
        decreases records@.len() - i,
    {
        let r = &records[i];
        let street = chars_of(r.street.as_str());
        let t = trim_chars(street.as_slice());
        assert(r@[col_state()] == r.state@);
        assert(r@[col_street()] == r.street@);
        assert(r@[col_smarty_status()] == r.smarty_status@);
        if !scope.includes(r.state.as_str()) || t.len() == 0 || !answered(r.smarty_status.as_str()) {
            return Err(RunError::InvalidInput);
        }
        i = i + 1;
    }
    Ok(())
}

/// Whether Smarty answered: a match or no match.
fn answered(status: &str) -> (r: bool)
    ensures
        r == smarty_answered(status@),
{
    let s = chars_of(status);
    let m = chars_of("matched");
    let n = chars_of("no_match");
    chars_eq(s.as_slice(), m.as_slice()) || chars_eq(s.as_slice(), n.as_slice())
}

// ---------------------------------------------------------------------------
// Counts
// ---------------------------------------------------------------------------

/// How many records satisfy `p`.
pub open spec fn count_where(s: Seq<RecordView>, p: spec_fn(RecordView) -> bool) -> nat
    decreases s.len(),
{
    if s.len() == 0 {
        0
    } else {
        count_where(s.drop_last(), p) + if p(s.last()) {
            1nat
        } else {
            0nat
        }
    }
}

/// Smarty did not answer.
pub open spec fn smarty_failed(r: RecordView) -> bool {
    !smarty_answered(r[col_smarty_status()])
}

/// The USPS lookup failed as a service.
pub open spec fn usps_failed(r: RecordView) -> bool {
    !usps_answered(r[col_usps_status()])
}

/// The street lines come from the state listing, not the detail page.
pub open spec fn listing_only(r: RecordView) -> bool {
    r[col_detail_status()] != "fetched"@
}

proof fn lemma_count_bound(s: Seq<RecordView>, p: spec_fn(RecordView) -> bool)
    ensures
        count_where(s, p) <= s.len(),
    decreases s.len(),
{
    if s.len() > 0 {
        lemma_count_bound(s.drop_last(), p);
    }
}

/// The counts of a run: records whose Smarty check failed, whose USPS lookup failed,
/// whose street lines come from the listing only, and that enter the preferred list.
pub fn run_counts(records: &Vec<Record>) -> (r: (usize, usize, usize, usize))
    ensures
        r.0 == count_where(record_views(records@), |x: RecordView| smarty_failed(x)),
        r.1 == count_where(record_views(records@), |x: RecordView| usps_failed(x)),
        r.2 == count_where(record_views(records@), |x: RecordView| listing_only(x)),
        r.3 == count_where(record_views(records@), |x: RecordView| is_non_cmra(x)),
{
    let ghost rv = record_views(records@);
    let mut c0: usize = 0;
    let mut c1: usize = 0;
    let mut c2: usize = 0;
    let mut c3: usize = 0;
    let mut i: usize = 0;
    assert(rv.subrange(0, 0) =~= Seq::<RecordView>::empty());
    while i < records.len()
        invariant
            i <= records@.len(),
            rv == record_views(records@),
            c0 == count_where(rv.subrange(0, i as int), |x: RecordView| smarty_failed(x)),
            c1 == count_where(rv.subrange(0, i as int), |x: RecordView| usps_failed(x)),
            c2 == count_where(rv.subrange(0, i as int), |x: RecordView| listing_only(x)),
            c3 == count_where(rv.subrange(0, i as int), |x: RecordView| is_non_cmra(x)),
        decreases records@.len() - i,
    {
        let r = &records[i];
        let ghost next = rv.subrange(0, i + 1);
        assert(next.drop_last() =~= rv.subrange(0, i as int));
        assert(next.last() == r@);
        proof {
            lemma_count_bound(rv.subrange(0, i as int), |x: RecordView| smarty_failed(x));
            lemma_count_bound(rv.subrange(0, i as int), |x: RecordView| usps_failed(x));
            lemma_count_bound(rv.subrange(0, i as int), |x: RecordView| listing_only(x));
            lemma_count_bound(rv.subrange(0, i as int), |x: RecordView| is_non_cmra(x));
        }
        assert(r@[col_smarty_status()] == r.smarty_status@);
        assert(r@[col_usps_status()] == r.usps_status@);
        if !answered(r.smarty_status.as_str()) {
            c0 = c0 + 1;
        }
        let u = crate::usps::UspsResult::status(r.usps_status.as_str());
        assert(u@.status == r.usps_status@);
        if u.service_error() {
            c1 = c1 + 1;
        }
        let d = chars_of(r.detail_status.as_str());
        let fetched = chars_of("fetched");
        if !chars_eq(d.as_slice(), fetched.as_slice()) {
            c2 = c2 + 1;
        }
        if r.non_cmra() {
            c3 = c3 + 1;
        }
        i = i + 1;
    }
    assert(rv.subrange(0, records@.len() as int) =~= rv);
    (c0, c1, c2, c3)
}

// ---------------------------------------------------------------------------
// Status tables
// ---------------------------------------------------------------------------

/// How many times `x` occurs in `s`.
pub open spec fn occurrences(s: Seq<Seq<char>>, x: Seq<char>) -> nat
    decreases s.len(),
{
    if s.len() == 0 {
        0
    } else {
        occurrences(s.drop_last(), x) + if s.last() == x {
            1nat
        } else {
            0nat
        }
    }
}

/// Some row of `t` is for `x`.
pub open spec fn lists_status(t: Seq<(Seq<char>, nat)>, x: Seq<char>) -> bool {
    exists|i: int| 0 <= i < t.len() && t[i].0 == x
}

/// `t` is the table of `s`: one row per distinct status, by increasing status,
/// each with the number of times it occurs.
pub open spec fn is_tally(s: Seq<Seq<char>>, t: Seq<(Seq<char>, nat)>) -> bool {
    &&& forall|i: int, j: int| 0 <= i < j < t.len() ==> lex_lt(#[trigger] t[i].0, #[trigger] t[j].0)
    &&& forall|i: int| 0 <= i < t.len() ==> #[trigger] t[i].1 == occurrences(s, t[i].0) && t[i].1 > 0
    &&& forall|k: int| 0 <= k < s.len() ==> lists_status(t, #[trigger] s[k])
}

/// A status occurs at most once per element, and occurs somewhere when it occurs at all.
pub proof fn lemma_occurrences_bound(s: Seq<Seq<char>>, x: Seq<char>)
    ensures
        occurrences(s, x) <= s.len(),
        occurrences(s, x) > 0 ==> exists|k: int| 0 <= k < s.len() && s[k] == x,
    decreases s.len(),
{
    if s.len() > 0 {
        lemma_occurrences_bound(s.drop_last(), x);
        if occurrences(s.drop_last(), x) > 0 {
            let k = choose|k: int| 0 <= k < s.drop_last().len() && s.drop_last()[k] == x;
            assert(s[k] == x);
        }
    }
}

/// The plain value of each table row.
pub open spec fn tally_views(t: Seq<(String, usize)>) -> Seq<(Seq<char>, nat)> {
    Seq::new(t.len(), |i: int| (t[i].0@, t[i].1 as nat))
}

/// The table of the statuses.
pub fn status_tally(statuses: &Vec<String>) -> (t: Vec<(String, usize)>)
    ensures
        is_tally(crate::scrape::string_views(statuses@), tally_views(t@)),
{
    let ghost sv = crate::scrape::string_views(statuses@);
    let n = statuses.len();
    let mut t: Vec<(String, usize)> = Vec::new();
    let mut k: usize = 0;
    assert(sv.subrange(0, 0) =~= Seq::<Seq<char>>::empty());
    while k < statuses.len()
        invariant
            k <= n == statuses@.len(),
            sv == crate::scrape::string_views(statuses@),
            is_tally(sv.subrange(0, k as int), tally_views(t@)),
        decreases n - k,
    {
        let ghost pre = sv.subrange(0, k as int);
        let ghost next = sv.subrange(0, k + 1);
        let ghost tv = tally_views(t@);
        assert(next.drop_last() =~= pre);
        let x = chars_of(statuses[k].as_str());
        assert(x@ == sv[k as int]);
        assert(next.last() == x@);
        let mut p: usize = 0;
        while p < t.len() && status_precedes(&t[p].0, x.as_slice())
            invariant
                p <= t@.len(),
                tv == tally_views(t@),
                k < sv.len(),
                x@ == sv[k as int],
                forall|q: int| 0 <= q < p ==> lex_lt(#[trigger] tv[q].0, x@),
            decreases t@.len() - p,
        {
            p = p + 1;
        }
        let mut found = false;
        if p < t.len() {
            let name = chars_of(t[p].0.as_str());
            found = chars_eq(name.as_slice(), x.as_slice());
            proof {
                lemma_lex_total(tv[p as int].0, x@);
            }
        }
        proof {
            lemma_occurrences_bound(pre, x@);
            assert(next =~= pre.push(x@));
        }
        if found {
            let c = t[p].1;
            assert(tv[p as int] == (t@[p as int].0@, t@[p as int].1 as nat));
            assert(tv[p as int].1 == occurrences(pre, tv[p as int].0));
            assert(c == occurrences(pre, x@));
            let entry = (copy_str(t[p].0.as_str()), c + 1);
            t.set(p, entry);
            proof {
                lemma_tally_bump(pre, tv, x@, p as int);
                assert(tally_views(t@) =~= tv.update(p as int, (x@, (c + 1) as nat)));
            }
        } else {
            proof {
                lemma_tally_insert(pre, tv, x@, p as int);
            }
            t.insert(p, (string_from_chars(x.as_slice()), 1));
            assert(tally_views(t@) =~= tv.insert(p as int, (x@, 1nat)));
        }
        k = k + 1;
    }
    assert(sv.subrange(0, n as int) =~= sv);
    t
}

/// Whether `name` comes strictly before `x`.
fn status_precedes(name: &String, x: &[char]) -> (r: bool)
    ensures
        r == lex_lt(name@, x@),
{
    let c = chars_of(name.as_str());
    lex_less(c.as_slice(), x)
}

proof fn lemma_tally_bump(s: Seq<Seq<char>>, t: Seq<(Seq<char>, nat)>, x: Seq<char>, p: int)
    requires
        is_tally(s, t),
        0 <= p < t.len(),
        t[p].0 == x,
    ensures
        is_tally(s.push(x), t.update(p, (x, t[p].1 + 1))),
{
    let s2 = s.push(x);
    let t2 = t.update(p, (x, t[p].1 + 1));
    assert(s2.drop_last() =~= s);
    assert forall|i: int, j: int| 0 <= i < j < t2.len() implies lex_lt(#[trigger] t2[i].0, #[trigger] t2[j].0) by {
        assert(lex_lt(t[i].0, t[j].0));
    }
    assert forall|i: int| 0 <= i < t2.len() implies #[trigger] t2[i].1 == occurrences(s2, t2[i].0) && t2[i].1 > 0 by {
        if i != p {
            assert(t[i].1 == occurrences(s, t[i].0));
            if i < p {
                assert(lex_lt(t[i].0, t[p].0));
            } else {
                assert(lex_lt(t[p].0, t[i].0));
            }
            lemma_lex_total(t[i].0, x);
        }
    }
    assert forall|k: int| 0 <= k < s2.len() implies lists_status(t2, #[trigger] s2[k]) by {
        if k < s.len() {
            assert(s2[k] == s[k]);
            assert(lists_status(t, s[k]));
            let i = choose|i: int| 0 <= i < t.len() && t[i].0 == s[k];
            assert(t2[i].0 == t[i].0);
        } else {
            assert(t2[p].0 == x);
        }
    }
}

proof fn lemma_tally_insert(s: Seq<Seq<char>>, t: Seq<(Seq<char>, nat)>, x: Seq<char>, p: int)
    requires
        is_tally(s, t),
        0 <= p <= t.len(),
        forall|q: int| 0 <= q < p ==> lex_lt(#[trigger] t[q].0, x),
        p < t.len() ==> lex_lt(x, t[p].0),
    ensures
        is_tally(s.push(x), t.insert(p, (x, 1nat))),
{
    let s2 = s.push(x);
    let t2 = t.insert(p, (x, 1nat));
    assert(s2.drop_last() =~= s);
    assert forall|q: int| p <= q < t.len() implies lex_lt(x, #[trigger] t[q].0) by {
        if q > p {
            assert(lex_lt(t[p].0, t[q].0));
            lemma_lex_trans(x, t[p].0, t[q].0);
        }
    }
    assert forall|q: int| 0 <= q < t.len() implies #[trigger] t[q].0 != x by {
        if q < p {
            lemma_lex_total(t[q].0, x);
        } else {
            lemma_lex_total(x, t[q].0);
        }
    }
    lemma_occurrences_bound(s, x);
    if occurrences(s, x) > 0 {
        let k = choose|k: int| 0 <= k < s.len() && s[k] == x;
        assert(lists_status(t, s[k]));
    }
    assert forall|i: int, j: int| 0 <= i < j < t2.len() implies lex_lt(#[trigger] t2[i].0, #[trigger] t2[j].0) by {
        if j < p {
            assert(t2[i] == t[i] && t2[j] == t[j]);
        } else if j == p {
            assert(t2[i] == t[i]);
        } else if i < p {
            assert(t2[i] == t[i] && t2[j] == t[j - 1]);
            lemma_lex_trans(t[i].0, x, t[j - 1].0);
        } else if i == p {
            assert(t2[j] == t[j - 1]);
        } else {
            assert(t2[i] == t[i - 1] && t2[j] == t[j - 1]);
        }
    }
    assert forall|i: int| 0 <= i < t2.len() implies #[trigger] t2[i].1 == occurrences(s2, t2[i].0) && t2[i].1 > 0 by {
        if i < p {
            assert(t2[i] == t[i]);
            assert(t[i].1 == occurrences(s, t[i].0));
        } else if i > p {
            assert(t2[i] == t[i - 1]);
            assert(t[i - 1].1 == occurrences(s, t[i - 1].0));
        }
    }
    assert forall|k: int| 0 <= k < s2.len() implies lists_status(t2, #[trigger] s2[k]) by {
        if k < s.len() {
            assert(s2[k] == s[k]);
            assert(lists_status(t, s[k]));
            let i = choose|i: int| 0 <= i < t.len() && t[i].0 == s[k];
            if i < p {
                assert(t2[i] == t[i]);
            } else {
                assert(t2[i + 1] == t[i]);
            }
        } else {
            assert(t2[p].0 == x);
        }
    }
}

// ---------------------------------------------------------------------------
// The summary
// ---------------------------------------------------------------------------

/// `true` or `false`.
pub open spec fn bool_text(b: bool) -> Seq<char> {
    if b {
        "true"@
    } else {
        "false"@
    }
}

/// The rows of a status table.
pub open spec fn rows_text(t: Seq<(Seq<char>, nat)>) -> Seq<char>
    decreases t.len(),
{
    if t.len() == 0 {
        Seq::empty()
    } else {
        rows_text(t.drop_last()) + "| "@ + t.last().0 + " | "@ + decimal(t.last().1) + " |\n"@
    }
}

/// A status table with its heading.
pub open spec fn table_text(service: Seq<char>, t: Seq<(Seq<char>, nat)>) -> Seq<char> {
    "\n## "@ + service + " statuses\n\n| Status | Count |\n| --- | --- |\n"@ + rows_text(t)
}

/// A run identifier: one or more ASCII digits.
pub open spec fn is_run_id(s: Seq<char>) -> bool {
    s.len() > 0 && forall|i: int| 0 <= i < s.len() ==> is_digit(#[trigger] s[i])
}

/// The values of one column.
pub open spec fn column_values(records: Seq<RecordView>, c: int) -> Seq<Seq<char>> {
    Seq::new(records.len(), |i: int| records[i][c])
}

/// Some record has Smarty's subscription status.
pub open spec fn any_subscription_error(records: Seq<RecordView>) -> bool {
    exists|i: int| 0 <= i < records.len() && #[trigger] records[i][col_smarty_status()] == "http_402_subscription_required"@
}

/// The opening lines of the summary.
pub open spec fn head_text(scope: Scope, records: Seq<RecordView>, max_addresses: usize) -> Seq<char> {
    "# Address check: "@ + scope_name(scope) + "\n\n- Checked: "@ + decimal(records.len())
        + "\n- Smarty non-CMRA: "@ + decimal(count_where(records, |x: RecordView| is_non_cmra(x)))
        + "\n- Smarty errors: "@ + decimal(count_where(records, |x: RecordView| smarty_failed(x)))
        + "\n- USPS errors/unavailable: "@ + decimal(count_where(records, |x: RecordView| usps_failed(x)))
        + "\n- Limited smoke test: "@ + bool_text(max_addresses > 0)
        + "\n\nFull per-address results, including USPS fields and raw JSON, are in `checks.csv`. USPS failures are not validation passes.\n"@
}

/// The line that says the results were reused, when `source` is a run identifier.
pub open spec fn reuse_text(source: Option<Seq<char>>) -> Seq<char> {
    match source {
        Some(s) => if is_run_id(s) {
            "\n- ATMB / Smarty data reused from prior run: "@ + s + " (not a fresh crawl)\n"@
        } else {
            Seq::empty()
        },
        None => Seq::empty(),
    }
}

/// The line that counts the listing-only street lines.
pub open spec fn detail_text(records: Seq<RecordView>) -> Seq<char> {
    "\n- State-listing addresses used (detail enrichment unavailable): "@ + decimal(
        count_where(records, |x: RecordView| listing_only(x)),
    ) + "\n"@
}

/// The advice given when Smarty refused a credential for want of a subscription.
pub open spec fn subscription_text(records: Seq<RecordView>) -> Seq<char> {
    if any_subscription_error(records) {
        "\nSmarty returned HTTP 402: activate a US Street Address API subscription or select another credential Secret, then rerun.\n"@
    } else {
        Seq::empty()
    }
}

/// The summary of a run, with the two status tables `smarty` and `usps`.
pub open spec fn summary_text(
    scope: Scope,
    records: Seq<RecordView>,
    max_addresses: usize,
    source: Option<Seq<char>>,
    smarty: Seq<(Seq<char>, nat)>,
    usps: Seq<(Seq<char>, nat)>,
) -> Seq<char> {
    head_text(scope, records, max_addresses) + reuse_text(source) + detail_text(records) + table_text(
        "Smarty"@,
        smarty,
    ) + table_text("USPS"@, usps) + subscription_text(records)
}

/// The decimal text of a count.
fn decimal_string(n: usize) -> (r: String)
    ensures
        r@ == decimal(n as nat),
{
    let d = decimal_chars(n as u64);
    string_from_chars(d.as_slice())
}

/// Appends a status table to `out`.
fn append_table(out: &mut String, service: &str, t: &Vec<(String, usize)>)
    ensures
        final(out)@ == old(out)@ + table_text(service@, tally_views(t@)),
{
    let ghost start = out@;
    out.append("\n## ");
    out.append(service);
    out.append(" statuses\n\n| Status | Count |\n| --- | --- |\n");
    let ghost head = out@;
    let ghost tv = tally_views(t@);
    let mut i: usize = 0;
    assert(tv.subrange(0, 0) =~= Seq::<(Seq<char>, nat)>::empty());
    assert(head =~= head + rows_text(tv.subrange(0, 0)));
    while i < t.len()
        invariant
            i <= t@.len(),
            tv == tally_views(t@),
            out@ == head + rows_text(tv.subrange(0, i as int)),
        decreases t@.len() - i,
    {
        let ghost next = tv.subrange(0, i + 1);
        assert(next.drop_last() =~= tv.subrange(0, i as int));
        assert(next.last() == (t@[i as int].0@, t@[i as int].1 as nat));
        out.append("| ");
        out.append(t[i].0.as_str());
        out.append(" | ");
        let count = decimal_string(t[i].1);
        out.append(count.as_str());
        out.append(" |\n");
        i = i + 1;
    }
    assert(tv.subrange(0, t@.len() as int) =~= tv);
}

/// The values of one column.
fn column_strings(records: &Vec<Record>, smarty: bool) -> (r: Vec<String>)
    ensures
        crate::scrape::string_views(r@) == column_values(
            record_views(records@),
            if smarty { col_smarty_status() } else { col_usps_status() },
        ),
{
    let ghost c = if smarty { col_smarty_status() } else { col_usps_status() };
    let mut out: Vec<String> = Vec::new();
    let mut i: usize = 0;
    while i < records.len()
        invariant
            i <= records@.len(),
            c == if smarty { col_smarty_status() } else { col_usps_status() },
            crate::scrape::string_views(out@) == column_values(record_views(records@), c).subrange(0, i as int),
        decreases records@.len() - i,
    {
        let r = &records[i];
        let v = if smarty {
            copy_str(r.smarty_status.as_str())
        } else {
            copy_str(r.usps_status.as_str())
        };
        assert(v@ == record_views(records@)[i as int][c]);
        let ghost before = out@;
        out.push(v);
        assert(crate::scrape::string_views(out@) =~= crate::scrape::string_views(before).push(v@));
        assert(column_values(record_views(records@), c)[i as int] == v@);
        assert(crate::scrape::string_views(out@) =~= column_values(record_views(records@), c).subrange(0, i + 1));
        i = i + 1;
    }
    assert(column_values(record_views(records@), c).subrange(0, records@.len() as int) =~= column_values(record_views(records@), c));
    out
}

/// Whether `s` is a run identifier.
fn run_id(s: &str) -> (r: bool)
    ensures
        r == is_run_id(s@),
{
    let c = chars_of(s);
    if c.len() == 0 {
        return false;
    }
    let mut i: usize = 0;
    while i < c.len()
        invariant
            i <= c@.len(),
            c@ == s@,
            forall|j: int| 0 <= j < i ==> is_digit(#[trigger] c@[j]),
        decreases c@.len() - i,
    {
        if !('0' <= c[i] && c[i] <= '9') {
            return false;
        }
        i = i + 1;
    }
    true
}

/// Whether some record has Smarty's subscription status.
fn subscription_error(records: &Vec<Record>) -> (r: bool)
    ensures
        r == any_subscription_error(record_views(records@)),
{
    let target = chars_of("http_402_subscription_required");
    let mut i: usize = 0;
    while i < records.len()
        invariant
            i <= records@.len(),
            target@ == "http_402_subscription_required"@,
            forall|j: int| 0 <= j < i ==> #[trigger] record_views(records@)[j][col_smarty_status()] != "http_402_subscription_required"@,
        decreases records@.len() - i,
    {
        let s = chars_of(records[i].smarty_status.as_str());
        assert(record_views(records@)[i as int][col_smarty_status()] == records@[i as int].smarty_status@);
        if chars_eq(s.as_slice(), target.as_slice()) {
            return true;
        }
        i = i + 1;
    }
    false
}

/// The opening lines of the summary.
fn head_string(scope: Scope, records: &Vec<Record>, max_addresses: usize) -> (r: String)
    ensures
        r@ == head_text(scope, record_views(records@), max_addresses),
{
    let (smarty_errors, usps_errors, _listing, non_cmra) = run_counts(records);
    let mut out = String::from_str("# Address check: ");
    out.append(scope.name());
    out.append("\n\n- Checked: ");
    let n = decimal_string(records.len());
    out.append(n.as_str());
    out.append("\n- Smarty non-CMRA: ");
    let a = decimal_string(non_cmra);
    out.append(a.as_str());
    out.append("\n- Smarty errors: ");
    let b = decimal_string(smarty_errors);
    out.append(b.as_str());
    out.append("\n- USPS errors/unavailable: ");
    let c = decimal_string(usps_errors);
    out.append(c.as_str());
    out.append("\n- Limited smoke test: ");
    out.append(if max_addresses > 0 { "true" } else { "false" });
    out.append("\n\nFull per-address results, including USPS fields and raw JSON, are in `checks.csv`. USPS failures are not validation passes.\n");
    out
}

/// Appends the reuse line and the listing-only count.
fn append_middle(out: &mut String, records: &Vec<Record>, source_run_id: Option<&str>)
    ensures
        final(out)@ == old(out)@ + reuse_text(crate::config::opt_text(source_run_id)) + detail_text(
            record_views(records@),
        ),
{
    let ghost start = out@;
    match source_run_id {
        Some(s) => {
            if run_id(s) {
                out.append("\n- ATMB / Smarty data reused from prior run: ");
                out.append(s);
                out.append(" (not a fresh crawl)\n");
            }
        },
        None => {},
    }
    assert(out@ == start + reuse_text(crate::config::opt_text(source_run_id)));
    let (_s, _u, listing, _n) = run_counts(records);
    out.append("\n- State-listing addresses used (detail enrichment unavailable): ");
    let d = decimal_string(listing);
    out.append(d.as_str());
    out.append("\n");
}

/// The summary of a run: its counts, whether it reused earlier results, and the
/// tables of the Smarty and USPS statuses.
pub fn summary(scope: Scope, records: &Vec<Record>, max_addresses: usize, source_run_id: Option<&str>) -> (r: String)
    ensures
        exists|smarty: Seq<(Seq<char>, nat)>, usps: Seq<(Seq<char>, nat)>|
            is_tally(column_values(record_views(records@), col_smarty_status()), smarty) && is_tally(
                column_values(record_views(records@), col_usps_status()),
                usps,
            ) && r@ == summary_text(
                scope,
                record_views(records@),
                max_addresses,
                crate::config::opt_text(source_run_id),
                smarty,
                usps,
            ),
{
    let mut out = head_string(scope, records, max_addresses);
    append_middle(&mut out, records, source_run_id);
    let smarty_statuses = column_strings(records, true);
    let usps_statuses = column_strings(records, false);
    let st = status_tally(&smarty_statuses);
    let ut = status_tally(&usps_statuses);
    append_table(&mut out, "Smarty", &st);
    append_table(&mut out, "USPS", &ut);
    if subscription_error(records) {
        out.append("\nSmarty returned HTTP 402: activate a US Street Address API subscription or select another credential Secret, then rerun.\n");
    }
    assert(out@ == summary_text(
        scope,
        record_views(records@),
        max_addresses,
        crate::config::opt_text(source_run_id),
        tally_views(st@),
        tally_views(ut@),
    ));
    out
}

/// The directory of a run's files: `result/<scope>`, or `result/smoke/<scope>` for
/// a limited run, so that a limited run never replaces a full one.
pub open spec fn output_dir_of(scope: Scope, max_addresses: usize) -> Seq<char> {
    if max_addresses > 0 {
        "result/smoke/"@ + scope_name(scope)
    } else {
        "result/"@ + scope_name(scope)
    }
}

/// The directory of a run's files.
pub fn output_dir(scope: Scope, max_addresses: usize) -> (r: String)
    ensures
        r@ == output_dir_of(scope, max_addresses),
{
    if max_addresses > 0 {
        crate::model::concat_str("result/smoke/", scope.name())
    } else {
        crate::model::concat_str("result/", scope.name())
    }
}

/// Whether the results may be published: not when a USPS lookup failed as a
/// service, else not when a Smarty check failed, else not when some street lines
/// come from the state listing only (the detail page could not be read).
pub fn publication(usps_errors: usize, smarty_errors: usize, listing_only: usize) -> (r: Result<(), RunError>)
    ensures
        usps_errors > 0 ==> r == Err::<(), RunError>(RunError::UspsUnavailable { count: usps_errors }),
        usps_errors == 0 && smarty_errors > 0 ==> r == Err::<(), RunError>(RunError::SmartyFailed { count: smarty_errors }),
        usps_errors == 0 && smarty_errors == 0 && listing_only > 0 ==> r == Err::<(), RunError>(
            RunError::DetailsMissing { count: listing_only },
        ),
        usps_errors == 0 && smarty_errors == 0 && listing_only == 0 ==> r is Ok,
{
    if usps_errors > 0 {
        Err(RunError::UspsUnavailable { count: usps_errors })
    } else if smarty_errors > 0 {
        Err(RunError::SmartyFailed { count: smarty_errors })
    } else if listing_only > 0 {
        Err(RunError::DetailsMissing { count: listing_only })
    } else {
        Ok(())
    }
}

// ---------------------------------------------------------------------------
// Which records the files hold
// ---------------------------------------------------------------------------

/// The records of the preferred list, in order: those that `non_cmra` accepts.
pub fn preferred_records<'a>(records: &'a Vec<Record>) -> (r: Vec<&'a Record>)
    ensures
        Seq::new(r@.len(), |i: int| r@[i]@) == crate::crawl::keep_where(
            record_views(records@),
            |x: RecordView| is_non_cmra(x),
        ),
{
    let ghost rv = record_views(records@);
    let mut out: Vec<&'a Record> = Vec::new();
    let mut i: usize = 0;
    assert(rv.subrange(0, 0) =~= Seq::<RecordView>::empty());
    while i < records.len()
        invariant
            i <= records@.len(),
            rv == record_views(records@),
            Seq::new(out@.len(), |k: int| out@[k]@) == crate::crawl::keep_where(
                rv.subrange(0, i as int),
                |x: RecordView| is_non_cmra(x),
            ),
        decreases records@.len() - i,
    {
        let ghost before = out@;
        let ghost next = rv.subrange(0, i + 1);
        assert(next.drop_last() =~= rv.subrange(0, i as int));
        assert(next.last() == records@[i as int]@);
        if records[i].non_cmra() {
            out.push(&records[i]);
            assert(Seq::new(out@.len(), |k: int| out@[k]@) =~= Seq::new(before.len(), |k: int| before[k]@).push(
                records@[i as int]@,
            ));
        } else {
            assert(Seq::new(out@.len(), |k: int| out@[k]@) =~= Seq::new(before.len(), |k: int| before[k]@));
        }
        i = i + 1;
    }
    assert(rv.subrange(0, records@.len() as int) =~= rv);
    out
}

/// The records a limited run checks: the first `max_addresses` when that is not
/// zero, else all of them.
pub fn limit_records(records: Vec<Record>, max_addresses: usize) -> (r: Vec<Record>)
    ensures
        record_views(r@) == if max_addresses > 0 && max_addresses < records@.len() {
            record_views(records@).take(max_addresses as int)
        } else {
            record_views(records@)
        },
{
    let mut records = records;
    let ghost all = records@;
    if max_addresses > 0 {
        records.truncate(max_addresses);
    }
    proof {
        if max_addresses > 0 && max_addresses < all.len() {
            assert(record_views(records@) =~= record_views(all).take(max_addresses as int));
        }
    }
    records
}

} // verus!
