//! Properties that hold across the library's functions.
use vstd::prelude::*;
use crate::config::{
    scope_includes, scope_name, scope_named, state_code_of, state_entry_matches,
    state_index_from, Scope,
};
use crate::crawl::{first_with_link, keep_where, lists_link, mailbox_in_scope, no_earlier_link, sorted_unique_by_link};
use crate::model::MailboxView;
use crate::record::{is_non_cmra, record_address, record_of, with_usps, RecordView};
use crate::report::{is_tally, lemma_occurrences_bound, output_dir_of};
use crate::smarty::{smarty_info_of, str_at};
use crate::text::{ascii_lower, eq_ignore_ascii_case, find_from, lemma_lex_total, lemma_lex_trans, trim};
use crate::usps::{field_of, UspsView};

verus! {

/// The `tax-free-nv` scope holds exactly the states of the `tax-free` scope and Nevada.
pub proof fn law_nevada_scope(state: Seq<char>)
    ensures
        scope_includes(Scope::TaxFreeNv, state) == (scope_includes(Scope::TaxFree, state)
            || state_code_of(state) == Some("NV"@)),
{
}

/// The scopes nest: every state of `tax-free` is in `tax-free-nv`, and every state
/// of `tax-free-nv` is in `all`.
pub proof fn law_scopes_nest(state: Seq<char>)
    ensures
        scope_includes(Scope::TaxFree, state) ==> scope_includes(Scope::TaxFreeNv, state),
        scope_includes(Scope::TaxFreeNv, state) ==> scope_includes(Scope::All, state),
{
}

/// The `all` scope holds exactly the states, districts and territories that have a code.
pub proof fn law_all_scope(state: Seq<char>)
    ensures
        scope_includes(Scope::All, state) == (state_code_of(state) is Some),
{
}

/// A scope's name reads back as that scope.
pub proof fn law_scope_name_round_trip(scope: Scope)
    ensures
        scope_named(scope_name(scope)) == Some(scope),
{
    reveal_strlit("tax-free-nv");
    reveal_strlit("tax-free");
    reveal_strlit("all");
    assert("tax-free"@.len() != "tax-free-nv"@.len());
    assert("all"@.len() != "tax-free-nv"@.len());
    assert("all"@.len() != "tax-free"@.len());
}

proof fn lemma_eq_ignore_case_trans(a: Seq<char>, b: Seq<char>, c: Seq<char>)
    requires
        eq_ignore_ascii_case(a, b),
        eq_ignore_ascii_case(b, c),
    ensures
        eq_ignore_ascii_case(a, c),
{
    assert forall|i: int| 0 <= i < a.len() implies ascii_lower(#[trigger] a[i]) == ascii_lower(c[i]) by {
        assert(ascii_lower(a[i]) == ascii_lower(b[i]));
        assert(ascii_lower(b[i]) == ascii_lower(c[i]));
    }
}

proof fn lemma_state_index_same(v1: Seq<char>, v2: Seq<char>, i: int)
    requires
        eq_ignore_ascii_case(trim(v1), trim(v2)),
    ensures
        state_index_from(v1, i) == state_index_from(v2, i),
    decreases 57 - i,
{
    if 0 <= i < 57 {
        let e = crate::config::STATES@[i];
        assert(eq_ignore_ascii_case(trim(v2), trim(v1))) by {
            assert forall|k: int| 0 <= k < trim(v2).len() implies ascii_lower(#[trigger] trim(v2)[k])
                == ascii_lower(trim(v1)[k]) by {
                assert(ascii_lower(trim(v1)[k]) == ascii_lower(trim(v2)[k]));
            }
        }
        if eq_ignore_ascii_case(e.0@, trim(v1)) {
            lemma_eq_ignore_case_trans(e.0@, trim(v1), trim(v2));
        }
        if eq_ignore_ascii_case(e.0@, trim(v2)) {
            lemma_eq_ignore_case_trans(e.0@, trim(v2), trim(v1));
        }
        if eq_ignore_ascii_case(e.1@, trim(v1)) {
            lemma_eq_ignore_case_trans(e.1@, trim(v1), trim(v2));
        }
        if eq_ignore_ascii_case(e.1@, trim(v2)) {
            lemma_eq_ignore_case_trans(e.1@, trim(v2), trim(v1));
        }
        assert(state_entry_matches(i, v1) == state_entry_matches(i, v2));
        lemma_state_index_same(v1, v2, i + 1);
    }
}

/// A state is recognised the same way whatever its ASCII case and surrounding
/// whitespace: two values that agree once trimmed, up to ASCII case, give the same
/// code, and belong to the same scopes.
pub proof fn law_state_case_and_space(v1: Seq<char>, v2: Seq<char>, scope: Scope)
    requires
        eq_ignore_ascii_case(trim(v1), trim(v2)),
    ensures
        state_code_of(v1) == state_code_of(v2),
        scope_includes(scope, v1) == scope_includes(scope, v2),
{
    lemma_state_index_same(v1, v2, 0);
}

/// A listed mailbox has a state code from the table of states, and is marked as
/// known from the listing only.
pub proof fn law_listing_mailbox(loc: crate::page::LocationView)
    ensures
        crate::page::mailbox_of(loc) matches Ok(m) ==> (exists|i: int|
            0 <= i < 57 && #[trigger] crate::config::STATES@[i].1@ == m.1.3) && m.4
            == "listing_fallback"@ && m.1.1 == Seq::<char>::empty(),
{
    if let Ok(m) = crate::page::mailbox_of(loc) {
        let st = crate::page::state_text_of(loc.2)->Some_0;
        let i = state_index_from(st, 0)->Some_0;
        lemma_state_index_bounds(st, 0);
        assert(crate::config::STATES@[i].1@ == m.1.3);
    }
}

proof fn lemma_state_index_bounds(v: Seq<char>, i: int)
    ensures
        state_index_from(v, i) matches Some(k) ==> i <= k < 57,
    decreases 57 - i,
{
    if 0 <= i < 57 && !state_entry_matches(i, v) {
        lemma_state_index_bounds(v, i + 1);
    }
}

proof fn lemma_links_prefix(caps: Seq<Seq<Option<Seq<char>>>>, i: int)
    ensures
        crate::page::links_from(caps, i) matches Ok(links) ==> forall|k: int|
            0 <= k < links.len() ==> crate::text::starts_with(
                #[trigger] links[k].0,
                crate::page::US_STATE_PREFIX@,
            ),
    decreases caps.len() - i,
{
    if 0 <= i < caps.len() {
        lemma_links_prefix(caps, i + 1);
        if let Ok(links) = crate::page::links_from(caps, i) {
            if let Ok(rest) = crate::page::links_from(caps, i + 1) {
                if crate::text::starts_with(caps[i][1]->Some_0, crate::page::US_STATE_PREFIX@) {
                    assert forall|k: int| 0 <= k < links.len() implies crate::text::starts_with(
                        #[trigger] links[k].0,
                        crate::page::US_STATE_PREFIX@,
                    ) by {
                        if k > 0 {
                            assert(links[k] == rest[k - 1]);
                        }
                    }
                }
            }
        }
    }
}

/// The country page yields only US state pages: every link it keeps starts with
/// `/l/usa/`.
pub proof fn law_only_us_states(caps: Option<Seq<Seq<Option<Seq<char>>>>>)
    ensures
        crate::page::country_page_from(caps) matches Ok(links) ==> forall|k: int|
            0 <= k < links.len() ==> crate::text::starts_with(
                #[trigger] links[k].0,
                crate::page::US_STATE_PREFIX@,
            ),
{
    if let Some(c) = caps {
        lemma_links_prefix(c, 0);
    }
}

proof fn lemma_mailboxes_count(locs: Seq<crate::page::LocationView>, i: int)
    requires
        0 <= i <= locs.len(),
    ensures
        crate::page::mailboxes_from(locs, i) matches Ok(m) ==> m.len() == locs.len() - i,
    decreases locs.len() - i,
{
    if i < locs.len() {
        lemma_mailboxes_count(locs, i + 1);
    }
}

/// A state page that gives its mailboxes gives one per listed location.
pub proof fn law_one_mailbox_per_location(locs: Seq<crate::page::LocationView>)
    ensures
        crate::page::mailboxes_from(locs, 0) matches Ok(m) ==> m.len() == locs.len(),
{
    lemma_mailboxes_count(locs, 0);
}

proof fn lemma_keep_where_holds<A>(s: Seq<A>, keep: spec_fn(A) -> bool)
    ensures
        forall|k: int| 0 <= k < keep_where(s, keep).len() ==> keep(#[trigger] keep_where(s, keep)[k]),
    decreases s.len(),
{
    if s.len() > 0 {
        lemma_keep_where_holds(s.drop_last(), keep);
        let rest = keep_where(s.drop_last(), keep);
        if keep(s.last()) {
            assert forall|k: int| 0 <= k < keep_where(s, keep).len() implies keep(
                #[trigger] keep_where(s, keep)[k],
            ) by {
                if k < rest.len() {
                    assert(keep_where(s, keep)[k] == rest[k]);
                }
            }
        }
    }
}

/// The mailboxes a crawl keeps all lie in the scope, and no two share a link.
pub proof fn law_crawl_in_scope_and_unique(all: Seq<MailboxView>, scope: Scope, full: Seq<MailboxView>)
    requires
        sorted_unique_by_link(keep_where(all, mailbox_in_scope(scope)), full),
    ensures
        forall|j: int| 0 <= j < full.len() ==> scope_includes(scope, (#[trigger] full[j]).1.3),
        forall|i: int, j: int| 0 <= i < j < full.len() ==> (#[trigger] full[i]).3 != (#[trigger] full[j]).3,
{
    let s = keep_where(all, mailbox_in_scope(scope));
    lemma_keep_where_holds(all, mailbox_in_scope(scope));
    assert forall|j: int| 0 <= j < full.len() implies scope_includes(scope, (#[trigger] full[j]).1.3) by {
        assert(first_with_link(s, full[j]));
        let i = choose|i: int| 0 <= i < s.len() && s[i] == full[j] && crate::crawl::no_earlier_link(s, i, full[j].3);
        assert(mailbox_in_scope(scope)(s[i]));
    }
    assert forall|i: int, j: int| 0 <= i < j < full.len() implies (#[trigger] full[i]).3 != (#[trigger] full[j]).3 by {
        assert(crate::text::lex_lt(full[i].3, full[j].3));
        crate::text::lemma_lex_total(full[i].3, full[j].3);
    }
}

/// The USPS lookup does not decide the preferred list: replacing the USPS fields of
/// a record leaves `non_cmra` as it was.
pub proof fn law_usps_does_not_decide(r: RecordView, u: UspsView)
    requires
        r.len() == 21,
    ensures
        is_non_cmra(with_usps(r, u)) == is_non_cmra(r),
{
    assert(with_usps(r, u)[9] == r[9]);
    assert(with_usps(r, u)[10] == r[10]);
    assert(with_usps(r, u)[11] == r[11]);
}

/// A new USPS lookup replaces the old one: setting the USPS fields of a record gives
/// the record made with the new lookup.
pub proof fn law_set_usps_replaces(m: MailboxView, info: (Seq<char>, Seq<char>, Seq<char>), u1: UspsView, u2: UspsView)
    ensures
        with_usps(record_of(m, info, u1), u2) == record_of(m, info, u2),
{
    assert(with_usps(record_of(m, info, u1), u2) =~= record_of(m, info, u2));
}

proof fn lemma_find_dash(zip: Seq<char>, rest: Seq<char>, i: int)
    requires
        0 <= i <= zip.len(),
        forall|k: int| 0 <= k < zip.len() ==> zip[k] != '-',
    ensures
        find_from(zip + seq!['-'] + rest, seq!['-'], i) == Some(zip.len() as int),
    decreases zip.len() - i,
{
    let s = zip + seq!['-'] + rest;
    if i < zip.len() {
        assert(s[i] == zip[i]);
        assert(s.subrange(i, i + 1)[0] != seq!['-'][0]);
        assert(!crate::text::matches_at(s, seq!['-'], i));
        lemma_find_dash(zip, rest, i + 1);
    } else {
        assert(s.subrange(i, i + 1) =~= seq!['-']);
    }
}

proof fn lemma_no_dash(zip: Seq<char>, i: int)
    requires
        0 <= i <= zip.len(),
        forall|k: int| 0 <= k < zip.len() ==> zip[k] != '-',
    ensures
        find_from(zip, seq!['-'], i) is None,
    decreases zip.len() - i,
{
    if i < zip.len() {
        assert(zip.subrange(i, i + 1)[0] != seq!['-'][0]);
        assert(!crate::text::matches_at(zip, seq!['-'], i));
        lemma_no_dash(zip, i + 1);
    }
}

/// A record gives back the address it was made from, when the ZIP code has no `-`
/// of its own (the record's ZIP column is `ZIP-ZIP4`).
pub proof fn law_record_address_round_trip(m: MailboxView, info: (Seq<char>, Seq<char>, Seq<char>), u: UspsView)
    requires
        forall|k: int| 0 <= k < m.1.4.len() ==> m.1.4[k] != '-',
    ensures
        record_address(record_of(m, info, u)) == m.1,
{
    let r = record_of(m, info, u);
    let zip = m.1.4;
    match m.1.5 {
        Some(z4) => {
            lemma_find_dash(zip, z4, 0);
            let full = zip + seq!['-'] + z4;
            assert(full.subrange(0, zip.len() as int) =~= zip);
            assert(full.subrange(zip.len() as int + 1, full.len() as int) =~= z4);
        },
        None => {
            lemma_no_dash(zip, 0);
        },
    }
}

/// Smarty's CMRA flag is never invented: a matched answer says `Y`, `N` or `Unknown`,
/// and `Unknown` whenever the answer does not carry the flag.
pub proof fn law_smarty_cmra_values(v: crate::json::Json)
    ensures
        smarty_info_of(v).0 == "matched"@ ==> (smarty_info_of(v).1 == "Y"@ || smarty_info_of(v).1
            == "N"@ || smarty_info_of(v).1 == "Unknown"@),
        (v matches crate::json::Json::Array(items) && items@.len() > 0 && str_at(
            items@[0],
            "analysis"@,
            "dpv_cmra"@,
        ) is None) ==> smarty_info_of(v).1 == "Unknown"@,
{
    reveal_strlit("matched");
    reveal_strlit("no_match");
    reveal_strlit("invalid_response");
    assert("matched"@.len() != "no_match"@.len());
    assert("matched"@.len() != "invalid_response"@.len());
}

/// The USPS CMRA field is never invented: when the matched address carries none of
/// `cmar`, `DPVCMRA` and `dpvCmra`, it is empty.
pub proof fn law_usps_cmra_not_invented(a: crate::json::Json)
    requires
        crate::json::json_get(a, "cmar"@) is None,
        crate::json::json_get(a, "DPVCMRA"@) is None,
        crate::json::json_get(a, "dpvCmra"@) is None,
    ensures
        field_of(a, seq!["cmar"@, "DPVCMRA"@, "dpvCmra"@]) == Seq::<char>::empty(),
{
    reveal_with_fuel(crate::usps::field_from, 4);
}

/// USPS gives its CMRA flag in `cmar`: when the matched address carries it as a
/// string, a boolean or a number, that text is the CMRA field.
pub proof fn law_usps_cmra_from_cmar(a: crate::json::Json, x: crate::json::Json)
    requires
        crate::json::json_get(a, "cmar"@) == Some(x),
        crate::usps::scalar_text(x) is Some,
    ensures
        field_of(a, seq!["cmar"@, "DPVCMRA"@, "dpvCmra"@]) == crate::usps::scalar_text(x)->Some_0,
{
}

/// A limited run never writes where a full run publishes.
pub proof fn law_smoke_runs_apart(s1: Scope, s2: Scope, max_addresses: usize)
    requires
        max_addresses > 0,
    ensures
        output_dir_of(s1, max_addresses) != output_dir_of(s2, 0),
{
    reveal_strlit("result/smoke/");
    reveal_strlit("result/");
    reveal_strlit("tax-free-nv");
    reveal_strlit("tax-free");
    reveal_strlit("all");
    let a = output_dir_of(s1, max_addresses);
    let b = output_dir_of(s2, 0);
    assert(a[7] == 's');
    assert(b[7] != 's');
}

/// The column names of the result files are all different.
pub proof fn lemma_headers_distinct()
    ensures
        forall|i: int, j: int| 0 <= i < j < 21 ==> crate::record::header_names()[i] != crate::record::header_names()[j],
{
    reveal_strlit("name");
    reveal_strlit("street");
    reveal_strlit("street2");
    reveal_strlit("city");
    reveal_strlit("state");
    reveal_strlit("zip");
    reveal_strlit("price");
    reveal_strlit("link");
    reveal_strlit("rdi");
    reveal_strlit("CMRA");
    reveal_strlit("smarty_status");
    reveal_strlit("detail_status");
    reveal_strlit("usps_status");
    reveal_strlit("usps_address");
    reveal_strlit("usps_zip5");
    reveal_strlit("usps_zip4");
    reveal_strlit("usps_dpv_confirmation");
    reveal_strlit("usps_cmra");
    reveal_strlit("usps_business");
    reveal_strlit("usps_carrier_route");
    reveal_strlit("usps_raw");
    let h = crate::record::header_names();
    assert(h[0].len() != h[1].len());
    assert(h[0].len() != h[2].len());
    assert(h[0][0] != h[3][0]);
    assert(h[0].len() != h[4].len());
    assert(h[0].len() != h[5].len());
    assert(h[0].len() != h[6].len());
    assert(h[0][0] != h[7][0]);
    assert(h[0].len() != h[8].len());
    assert(h[0][0] != h[9][0]);
    assert(h[0].len() != h[10].len());
    assert(h[0].len() != h[11].len());
    assert(h[0].len() != h[12].len());
    assert(h[0].len() != h[13].len());
    assert(h[0].len() != h[14].len());
    assert(h[0].len() != h[15].len());
    assert(h[0].len() != h[16].len());
    assert(h[0].len() != h[17].len());
    assert(h[0].len() != h[18].len());
    assert(h[0].len() != h[19].len());
    assert(h[0].len() != h[20].len());
    assert(h[1].len() != h[2].len());
    assert(h[1].len() != h[3].len());
    assert(h[1].len() != h[4].len());
    assert(h[1].len() != h[5].len());
    assert(h[1].len() != h[6].len());
    assert(h[1].len() != h[7].len());
    assert(h[1].len() != h[8].len());
    assert(h[1].len() != h[9].len());
    assert(h[1].len() != h[10].len());
    assert(h[1].len() != h[11].len());
    assert(h[1].len() != h[12].len());
    assert(h[1].len() != h[13].len());
    assert(h[1].len() != h[14].len());
    assert(h[1].len() != h[15].len());
    assert(h[1].len() != h[16].len());
    assert(h[1].len() != h[17].len());
    assert(h[1].len() != h[18].len());
    assert(h[1].len() != h[19].len());
    assert(h[1].len() != h[20].len());
    assert(h[2].len() != h[3].len());
    assert(h[2].len() != h[4].len());
    assert(h[2].len() != h[5].len());
    assert(h[2].len() != h[6].len());
    assert(h[2].len() != h[7].len());
    assert(h[2].len() != h[8].len());
    assert(h[2].len() != h[9].len());
    assert(h[2].len() != h[10].len());
    assert(h[2].len() != h[11].len());
    assert(h[2].len() != h[12].len());
    assert(h[2].len() != h[13].len());
    assert(h[2].len() != h[14].len());
    assert(h[2].len() != h[15].len());
    assert(h[2].len() != h[16].len());
    assert(h[2].len() != h[17].len());
    assert(h[2].len() != h[18].len());
    assert(h[2].len() != h[19].len());
    assert(h[2].len() != h[20].len());
    assert(h[3].len() != h[4].len());
    assert(h[3].len() != h[5].len());
    assert(h[3].len() != h[6].len());
    assert(h[3][0] != h[7][0]);
    assert(h[3].len() != h[8].len());
    assert(h[3][0] != h[9][0]);
    assert(h[3].len() != h[10].len());
    assert(h[3].len() != h[11].len());
    assert(h[3].len() != h[12].len());
    assert(h[3].len() != h[13].len());
    assert(h[3].len() != h[14].len());
    assert(h[3].len() != h[15].len());
    assert(h[3].len() != h[16].len());
    assert(h[3].len() != h[17].len());
    assert(h[3].len() != h[18].len());
    assert(h[3].len() != h[19].len());
    assert(h[3].len() != h[20].len());
    assert(h[4].len() != h[5].len());
    assert(h[4][0] != h[6][0]);
    assert(h[4].len() != h[7].len());
    assert(h[4].len() != h[8].len());
    assert(h[4].len() != h[9].len());
    assert(h[4].len() != h[10].len());
    assert(h[4].len() != h[11].len());
    assert(h[4].len() != h[12].len());
    assert(h[4].len() != h[13].len());
    assert(h[4].len() != h[14].len());
    assert(h[4].len() != h[15].len());
    assert(h[4].len() != h[16].len());
    assert(h[4].len() != h[17].len());
    assert(h[4].len() != h[18].len());
    assert(h[4].len() != h[19].len());
    assert(h[4].len() != h[20].len());
    assert(h[5].len() != h[6].len());
    assert(h[5].len() != h[7].len());
    assert(h[5][0] != h[8][0]);
    assert(h[5].len() != h[9].len());
    assert(h[5].len() != h[10].len());
    assert(h[5].len() != h[11].len());
    assert(h[5].len() != h[12].len());
    assert(h[5].len() != h[13].len());
    assert(h[5].len() != h[14].len());
    assert(h[5].len() != h[15].len());
    assert(h[5].len() != h[16].len());
    assert(h[5].len() != h[17].len());
    assert(h[5].len() != h[18].len());
    assert(h[5].len() != h[19].len());
    assert(h[5].len() != h[20].len());
    assert(h[6].len() != h[7].len());
    assert(h[6].len() != h[8].len());
    assert(h[6].len() != h[9].len());
    assert(h[6].len() != h[10].len());
    assert(h[6].len() != h[11].len());
    assert(h[6].len() != h[12].len());
    assert(h[6].len() != h[13].len());
    assert(h[6].len() != h[14].len());
    assert(h[6].len() != h[15].len());
    assert(h[6].len() != h[16].len());
    assert(h[6].len() != h[17].len());
    assert(h[6].len() != h[18].len());
    assert(h[6].len() != h[19].len());
    assert(h[6].len() != h[20].len());
    assert(h[7].len() != h[8].len());
    assert(h[7][0] != h[9][0]);
    assert(h[7].len() != h[10].len());
    assert(h[7].len() != h[11].len());
    assert(h[7].len() != h[12].len());
    assert(h[7].len() != h[13].len());
    assert(h[7].len() != h[14].len());
    assert(h[7].len() != h[15].len());
    assert(h[7].len() != h[16].len());
    assert(h[7].len() != h[17].len());
    assert(h[7].len() != h[18].len());
    assert(h[7].len() != h[19].len());
    assert(h[7].len() != h[20].len());
    assert(h[8].len() != h[9].len());
    assert(h[8].len() != h[10].len());
    assert(h[8].len() != h[11].len());
    assert(h[8].len() != h[12].len());
    assert(h[8].len() != h[13].len());
    assert(h[8].len() != h[14].len());
    assert(h[8].len() != h[15].len());
    assert(h[8].len() != h[16].len());
    assert(h[8].len() != h[17].len());
    assert(h[8].len() != h[18].len());
    assert(h[8].len() != h[19].len());
    assert(h[8].len() != h[20].len());
    assert(h[9].len() != h[10].len());
    assert(h[9].len() != h[11].len());
    assert(h[9].len() != h[12].len());
    assert(h[9].len() != h[13].len());
    assert(h[9].len() != h[14].len());
    assert(h[9].len() != h[15].len());
    assert(h[9].len() != h[16].len());
    assert(h[9].len() != h[17].len());
    assert(h[9].len() != h[18].len());
    assert(h[9].len() != h[19].len());
    assert(h[9].len() != h[20].len());
    assert(h[10][0] != h[11][0]);
    assert(h[10].len() != h[12].len());
    assert(h[10].len() != h[13].len());
    assert(h[10].len() != h[14].len());
    assert(h[10].len() != h[15].len());
    assert(h[10].len() != h[16].len());
    assert(h[10].len() != h[17].len());
    assert(h[10][0] != h[18][0]);
    assert(h[10].len() != h[19].len());
    assert(h[10].len() != h[20].len());
    assert(h[11].len() != h[12].len());
    assert(h[11].len() != h[13].len());
    assert(h[11].len() != h[14].len());
    assert(h[11].len() != h[15].len());
    assert(h[11].len() != h[16].len());
    assert(h[11].len() != h[17].len());
    assert(h[11][0] != h[18][0]);
    assert(h[11].len() != h[19].len());
    assert(h[11].len() != h[20].len());
    assert(h[12].len() != h[13].len());
    assert(h[12].len() != h[14].len());
    assert(h[12].len() != h[15].len());
    assert(h[12].len() != h[16].len());
    assert(h[12].len() != h[17].len());
    assert(h[12].len() != h[18].len());
    assert(h[12].len() != h[19].len());
    assert(h[12].len() != h[20].len());
    assert(h[13].len() != h[14].len());
    assert(h[13].len() != h[15].len());
    assert(h[13].len() != h[16].len());
    assert(h[13].len() != h[17].len());
    assert(h[13].len() != h[18].len());
    assert(h[13].len() != h[19].len());
    assert(h[13].len() != h[20].len());
    assert(h[14][8] != h[15][8]);
    assert(h[14].len() != h[16].len());
    assert(h[14][5] != h[17][5]);
    assert(h[14].len() != h[18].len());
    assert(h[14].len() != h[19].len());
    assert(h[14].len() != h[20].len());
    assert(h[15].len() != h[16].len());
    assert(h[15][5] != h[17][5]);
    assert(h[15].len() != h[18].len());
    assert(h[15].len() != h[19].len());
    assert(h[15].len() != h[20].len());
    assert(h[16].len() != h[17].len());
    assert(h[16].len() != h[18].len());
    assert(h[16].len() != h[19].len());
    assert(h[16].len() != h[20].len());
    assert(h[17].len() != h[18].len());
    assert(h[17].len() != h[19].len());
    assert(h[17].len() != h[20].len());
    assert(h[18].len() != h[19].len());
    assert(h[18].len() != h[20].len());
    assert(h[19].len() != h[20].len());
    assert forall|i: int, j: int| 0 <= i < j < 21 implies h[i] != h[j] by {
        assert(i == 0 || i == 1 || i == 2 || i == 3 || i == 4 || i == 5 || i == 6 || i == 7 || i == 8 || i == 9 || i == 10 || i == 11 || i == 12 || i == 13 || i == 14 || i == 15 || i == 16 || i == 17 || i == 18 || i == 19 || i == 20);
        assert(j == 0 || j == 1 || j == 2 || j == 3 || j == 4 || j == 5 || j == 6 || j == 7 || j == 8 || j == 9 || j == 10 || j == 11 || j == 12 || j == 13 || j == 14 || j == 15 || j == 16 || j == 17 || j == 18 || j == 19 || j == 20);
    }
}

proof fn lemma_column_of_header(f: int, c: int)
    requires
        0 <= c <= f < 21,
        forall|i: int, j: int| 0 <= i < j < 21 ==> crate::record::header_names()[i] != crate::record::header_names()[j],
    ensures
        crate::record::column_of(crate::record::header_names(), crate::record::header_names()[f], c) == Some(f),
        crate::record::field_index_from(crate::record::header_names()[f], c) == Some(f),
    decreases f - c,
{
    if c < f {
        lemma_column_of_header(f, c + 1);
    }
}

proof fn lemma_no_repeat(c: int)
    requires
        0 <= c <= 21,
        forall|i: int, j: int| 0 <= i < j < 21 ==> crate::record::header_names()[i] != crate::record::header_names()[j],
    ensures
        crate::record::first_repeat(crate::record::header_names(), c) is None,
        crate::record::first_missing(crate::record::header_names(), c) is None,
    decreases 21 - c,
{
    if c < 21 {
        lemma_column_of_header(c, 0);
        lemma_no_repeat(c + 1);
    }
}

/// What a record writes as a row of a result file, under the file's header line,
/// reads back as the same record.
pub proof fn law_csv_round_trip(r: RecordView)
    requires
        r.len() == 21,
    ensures
        crate::record::record_from_row(crate::record::header_names(), r) == Ok::<RecordView, crate::record::RowError>(r),
{
    lemma_headers_distinct();
    lemma_no_repeat(0);
    assert forall|f: int| 0 <= f < 21 implies crate::record::column_of(
        crate::record::header_names(),
        #[trigger] crate::record::header_names()[f],
        0,
    ) == Some(f) by {
        lemma_column_of_header(f, 0);
    }
    let got = Seq::new(21, |f: int| r[crate::record::column_of(crate::record::header_names(), crate::record::header_names()[f], 0)->Some_0]);
    assert(got =~= r);
}

/// A table of statuses is determined by the statuses: two tables of the same
/// statuses are equal, so the summary of a run is determined by its records.
pub proof fn law_status_table_unique(s: Seq<Seq<char>>, t1: Seq<(Seq<char>, nat)>, t2: Seq<(Seq<char>, nat)>)
    requires
        is_tally(s, t1),
        is_tally(s, t2),
    ensures
        t1 == t2,
{
    lemma_tables_agree_from(s, t1, t2, 0);
}

/// A status of `s` has a row in every table of `s`.
proof fn lemma_status_listed(s: Seq<Seq<char>>, t: Seq<(Seq<char>, nat)>, x: Seq<char>)
    requires
        is_tally(s, t),
        crate::report::occurrences(s, x) > 0,
    ensures
        exists|j: int| 0 <= j < t.len() && t[j].0 == x,
{
    lemma_occurrences_bound(s, x);
    let k = choose|k: int| 0 <= k < s.len() && s[k] == x;
    assert(crate::report::lists_status(t, s[k]));
}

/// Two tables of `s` that agree before `i` agree everywhere.
proof fn lemma_tables_agree_from(s: Seq<Seq<char>>, t1: Seq<(Seq<char>, nat)>, t2: Seq<(Seq<char>, nat)>, i: int)
    requires
        is_tally(s, t1),
        is_tally(s, t2),
        0 <= i <= t1.len(),
        i <= t2.len(),
        forall|j: int| 0 <= j < i ==> t1[j] == t2[j],
    ensures
        t1 == t2,
    decreases t1.len() + t2.len() - 2 * i,
{
    if i == t1.len() && i == t2.len() {
        assert(t1 =~= t2);
    } else if i < t1.len() {
        let x = t1[i].0;
        assert(t1[i].1 == crate::report::occurrences(s, x) && t1[i].1 > 0);
        lemma_status_listed(s, t2, x);
        let j = choose|j: int| 0 <= j < t2.len() && t2[j].0 == x;
        lemma_lex_total(x, x);
        if j < i {
            assert(t1[j] == t2[j]);
            assert(lex_lt_at(t1, j, i));
        } else if j > i {
            let y = t2[i].0;
            assert(t2[i].1 == crate::report::occurrences(s, y) && t2[i].1 > 0);
            lemma_status_listed(s, t1, y);
            let m = choose|m: int| 0 <= m < t1.len() && t1[m].0 == y;
            lemma_lex_total(y, y);
            if m < i {
                assert(t1[m] == t2[m]);
                assert(lex_lt_at(t2, m, i));
            } else if m == i {
                assert(lex_lt_at(t2, i, j));
            } else {
                assert(lex_lt_at(t1, i, m));
                assert(lex_lt_at(t2, i, j));
                lemma_lex_trans(x, y, x);
            }
        }
        assert(t2[i].0 == x);
        assert(t1[i].1 == crate::report::occurrences(s, x));
        assert(t2[i].1 == crate::report::occurrences(s, x));
        lemma_tables_agree_from(s, t1, t2, i + 1);
    } else {
        let y = t2[i].0;
        assert(t2[i].1 == crate::report::occurrences(s, y) && t2[i].1 > 0);
        lemma_status_listed(s, t1, y);
        let m = choose|m: int| 0 <= m < t1.len() && t1[m].0 == y;
        lemma_lex_total(y, y);
        assert(t1[m] == t2[m]);
        assert(lex_lt_at(t2, m, i));
    }
}

/// The rows `a` and `b` of `t` are in increasing order of status.
spec fn lex_lt_at(t: Seq<(Seq<char>, nat)>, a: int, b: int) -> bool {
    crate::text::lex_lt(t[a].0, t[b].0)
}

/// The list of mailboxes a crawl gives is determined by the mailboxes found: two
/// lists that each hold, by increasing link, the first mailbox of every link are
/// equal.
pub proof fn law_crawl_list_unique(s: Seq<MailboxView>, r1: Seq<MailboxView>, r2: Seq<MailboxView>)
    requires
        sorted_unique_by_link(s, r1),
        sorted_unique_by_link(s, r2),
    ensures
        r1 == r2,
{
    lemma_lists_agree_from(s, r1, r2, 0);
}

/// A link of a mailbox of a list is a link of `s`, and so has a mailbox in every list.
proof fn lemma_link_listed(s: Seq<MailboxView>, r: Seq<MailboxView>, q: Seq<MailboxView>, j: int)
    requires
        sorted_unique_by_link(s, r),
        sorted_unique_by_link(s, q),
        0 <= j < r.len(),
    ensures
        exists|m: int| 0 <= m < q.len() && q[m].3 == r[j].3,
{
    assert(first_with_link(s, r[j]));
    let a = choose|a: int| 0 <= a < s.len() && s[a] == r[j] && no_earlier_link(s, a, r[j].3);
    assert(lists_link(q, s[a].3));
}

/// Two mailboxes of `s` that are each the first with their link, and share it, are equal.
proof fn lemma_first_with_link_unique(s: Seq<MailboxView>, x: MailboxView, y: MailboxView)
    requires
        first_with_link(s, x),
        first_with_link(s, y),
        x.3 == y.3,
    ensures
        x == y,
{
    let a = choose|a: int| 0 <= a < s.len() && s[a] == x && no_earlier_link(s, a, x.3);
    let b = choose|b: int| 0 <= b < s.len() && s[b] == y && no_earlier_link(s, b, y.3);
    if a < b {
        assert(s[a].3 != y.3);
    } else if b < a {
        assert(s[b].3 != x.3);
    }
}

/// Two such lists that agree before `i` agree everywhere.
proof fn lemma_lists_agree_from(s: Seq<MailboxView>, r1: Seq<MailboxView>, r2: Seq<MailboxView>, i: int)
    requires
        sorted_unique_by_link(s, r1),
        sorted_unique_by_link(s, r2),
        0 <= i <= r1.len(),
        i <= r2.len(),
        forall|j: int| 0 <= j < i ==> r1[j] == r2[j],
    ensures
        r1 == r2,
    decreases r1.len() + r2.len() - 2 * i,
{
    if i == r1.len() && i == r2.len() {
        assert(r1 =~= r2);
    } else if i < r1.len() {
        let x = r1[i].3;
        lemma_link_listed(s, r1, r2, i);
        let j = choose|j: int| 0 <= j < r2.len() && r2[j].3 == x;
        lemma_lex_total(x, x);
        if j < i {
            assert(r1[j] == r2[j]);
            assert(link_lt_at(r1, j, i));
        } else if j > i {
            let y = r2[i].3;
            lemma_link_listed(s, r2, r1, i);
            let m = choose|m: int| 0 <= m < r1.len() && r1[m].3 == y;
            lemma_lex_total(y, y);
            if m < i {
                assert(r1[m] == r2[m]);
                assert(link_lt_at(r2, m, i));
            } else if m == i {
                assert(link_lt_at(r2, i, j));
            } else {
                assert(link_lt_at(r1, i, m));
                assert(link_lt_at(r2, i, j));
                lemma_lex_trans(x, y, x);
            }
        }
        assert(r2[i].3 == x);
        assert(first_with_link(s, r1[i]));
        assert(first_with_link(s, r2[i]));
        lemma_first_with_link_unique(s, r1[i], r2[i]);
        lemma_lists_agree_from(s, r1, r2, i + 1);
    } else {
        let y = r2[i].3;
        lemma_link_listed(s, r2, r1, i);
        let m = choose|m: int| 0 <= m < r1.len() && r1[m].3 == y;
        lemma_lex_total(y, y);
        assert(r1[m] == r2[m]);
        assert(link_lt_at(r2, m, i));
    }
}

/// The mailboxes `a` and `b` of `r` are in increasing order of link.
spec fn link_lt_at(r: Seq<MailboxView>, a: int, b: int) -> bool {
    crate::text::lex_lt(r[a].3, r[b].3)
}

/// The result files list residential addresses first, then commercial ones, then
/// the rest: in records sorted as `sort_records` sorts them, the RDI rank never
/// decreases.
pub proof fn law_residential_first(r: Seq<RecordView>, i: int, j: int)
    requires
        crate::record::sorted_by_key(r),
        0 <= i < j < r.len(),
    ensures
        crate::record::rdi_rank(r[i][crate::record::col_rdi()]) <= crate::record::rdi_rank(
            r[j][crate::record::col_rdi()],
        ),
{
    assert(!crate::record::key_lt(crate::record::key_of(r[j]), crate::record::key_of(r[i])));
}

/// A mailbox that keeps the street lines of the state listing never enters the
/// preferred list, and counts against publication, whatever Smarty and USPS say.
pub proof fn law_fallback_not_preferred(m: MailboxView, info: (Seq<char>, Seq<char>, Seq<char>), u: UspsView)
    requires
        m.4 == crate::page::listing_status(),
    ensures
        !is_non_cmra(record_of(m, info, u)),
        crate::report::listing_only(record_of(m, info, u)),
{
    reveal_strlit("listing_fallback");
    reveal_strlit("fetched");
    assert(crate::page::listing_status().len() != "fetched"@.len());
}

} // verus!
