//! What the readers of pages and answers, and the summary, give, stated over their
//! inputs: the city of a listed address, the mailbox words of a detail line, the
//! flags of a Smarty answer, the fields of a USPS answer and the counts of a summary.
use vstd::prelude::*;
use crate::json::{json_get, Json};
use crate::page::{clean_line, mailbox_of, remove_markers, LocationView};
use crate::record::{col_cmra, col_detail_status, col_smarty_status, col_usps_status, is_non_cmra, RecordView};
use crate::scrape::ChildView;
use crate::text::{ascii_lower, decimal, eq_ignore_ascii_case, split_char, trim, trim_end_char};

verus! {

// ---------------------------------------------------------------------------
// The city of a listed address
// ---------------------------------------------------------------------------

/// A text without `c` is a single piece.
proof fn lemma_split_free(a: Seq<char>, c: char)
    requires
        !a.contains(c),
    ensures
        split_char(a, c) == seq![a],
    decreases a.len(),
{
    if a.len() > 0 {
        assert(!a.drop_last().contains(c)) by {
            if a.drop_last().contains(c) {
                let k = choose|k: int| 0 <= k < a.drop_last().len() && a.drop_last()[k] == c;
                assert(a[k] == c);
            }
        }
        lemma_split_free(a.drop_last(), c);
        assert(a.last() != c);
        assert(a.drop_last().push(a.last()) =~= a);
    } else {
        assert(a =~= Seq::<char>::empty());
    }
}

/// The first piece of `a + [c] + b`, for `a` without `c`, is `a`.
proof fn lemma_split_first(a: Seq<char>, c: char, b: Seq<char>)
    requires
        !a.contains(c),
    ensures
        split_char(a + seq![c] + b, c).len() >= 2,
        split_char(a + seq![c] + b, c)[0] == a,
        !b.contains(c) ==> split_char(a + seq![c] + b, c).len() == 2 && split_char(a + seq![c] + b, c)[1]
            == b,
    decreases b.len(),
{
    let s = a + seq![c] + b;
    if b.len() == 0 {
        assert(s.drop_last() =~= a);
        lemma_split_free(a, c);
        assert(b =~= Seq::<char>::empty());
    } else {
        assert(s.drop_last() =~= a + seq![c] + b.drop_last());
        if !b.contains(c) {
            assert(!b.drop_last().contains(c)) by {
                if b.drop_last().contains(c) {
                    let k = choose|k: int| 0 <= k < b.drop_last().len() && b.drop_last()[k] == c;
                    assert(b[k] == c);
                }
            }
            assert(b.last() != c);
            assert(b.drop_last().push(b.last()) =~= b);
        }
        lemma_split_first(a, c, b.drop_last());
    }
}

/// The city of a listed address is the whole text before the first comma of its
/// city/state/ZIP line: for a line `city, rest` with no comma in `city`, a mailbox
/// read from the listing has `city` as its city, spaces and all.
pub proof fn law_listing_city(loc: LocationView, city: Seq<char>, rest: Seq<char>)
    requires
        !city.contains(','),
        loc.2 == city + ", "@ + rest,
    ensures
        mailbox_of(loc) is Ok ==> mailbox_of(loc)->Ok_0.1.2 == city,
{
    reveal_strlit(", ");
    assert(city + ", "@ + rest =~= city + seq![','] + (seq![' '] + rest));
    lemma_split_first(city, ',', seq![' '] + rest);
}

// ---------------------------------------------------------------------------
// Mailbox words on a detail line
// ---------------------------------------------------------------------------

/// `w` is one of the words that announce the customer's mailbox number.
pub open spec fn is_mailbox_word(w: Seq<char>) -> bool {
    w == "PMB"@ || w == "Suite"@ || w == "Ste"@ || w == "Unit"@ || w == "Apt"@
}

/// The text of a detail line with a placeholder, once the placeholder texts, the
/// surrounding whitespace and a trailing `#` are removed.
pub open spec fn bare_line(child: ChildView) -> Seq<char> {
    trim(trim_end_char(trim(remove_markers(child.0, child.1)), '#'))
}

/// Every character of a mailbox word is a letter.
proof fn lemma_word_letters(w: Seq<char>)
    requires
        is_mailbox_word(w),
    ensures
        w.len() >= 3,
        forall|j: int| 0 <= j < w.len() ==> ascii_lower(#[trigger] w[j]) != ' ',
{
    reveal_strlit("PMB");
    reveal_strlit("Suite");
    reveal_strlit("Ste");
    reveal_strlit("Unit");
    reveal_strlit("Apt");
    assert forall|j: int| 0 <= j < w.len() implies ascii_lower(#[trigger] w[j]) != ' ' by {
        assert(j == 0 || j == 1 || j == 2 || j == 3 || j == 4);
    }
}

/// A text that agrees with a mailbox word up to ASCII case has no space.
proof fn lemma_no_space(t: Seq<char>, w: Seq<char>)
    requires
        is_mailbox_word(w),
        eq_ignore_ascii_case(t, w),
    ensures
        forall|j: int| 0 <= j < t.len() ==> ascii_lower(#[trigger] t[j]) != ' ',
{
    lemma_word_letters(w);
    assert forall|j: int| 0 <= j < t.len() implies ascii_lower(#[trigger] t[j]) != ' ' by {
        assert(ascii_lower(t[j]) == ascii_lower(w[j]));
    }
}

/// A text whose characters are not spaces does not end with ` ` and a word.
proof fn lemma_no_spaced_end(t: Seq<char>, p: Seq<char>)
    requires
        p.len() > 0,
        p[0] == ' ',
        forall|j: int| 0 <= j < t.len() ==> ascii_lower(#[trigger] t[j]) != ' ',
    ensures
        !crate::text::ends_with_ignore_ascii_case(t, p),
{
    if p.len() <= t.len() {
        let q = t.subrange(t.len() - p.len(), t.len() as int);
        assert(q[0] == t[t.len() - p.len()]);
        assert(ascii_lower(q[0]) != ascii_lower(p[0]));
    }
}

/// Past a word that the text is not and does not end with after a space.
proof fn lemma_skip_word(t: Seq<char>, k: int)
    requires
        0 <= k < 5,
        !eq_ignore_ascii_case(t, crate::page::mailbox_words()[k]),
        forall|j: int| 0 <= j < t.len() ==> ascii_lower(#[trigger] t[j]) != ' ',
    ensures
        crate::page::strip_mailbox_word(t, k) == crate::page::strip_mailbox_word(t, k + 1),
{
    lemma_no_spaced_end(t, seq![' '] + crate::page::mailbox_words()[k]);
}

/// A detail line with a placeholder that is nothing but one of the words PMB, Suite,
/// Ste, Unit or Apt (in any ASCII case) is the unassigned mailbox, and gives no
/// street line.
pub proof fn law_mailbox_word_line_dropped(child: ChildView, w: Seq<char>)
    requires
        child.1.len() > 0,
        is_mailbox_word(w),
        eq_ignore_ascii_case(bare_line(child), w),
    ensures
        clean_line(child) == Seq::<char>::empty(),
{
    reveal_strlit("PMB");
    reveal_strlit("Suite");
    reveal_strlit("Ste");
    reveal_strlit("Unit");
    reveal_strlit("Apt");
    let t = bare_line(child);
    let ws = crate::page::mailbox_words();
    lemma_no_space(t, w);
    assert(ascii_lower(t[0]) == ascii_lower(w[0]));
    if w != "PMB"@ {
        lemma_skip_word(t, 0);
        if w != "Suite"@ {
            lemma_skip_word(t, 1);
            if w != "Ste"@ {
                lemma_skip_word(t, 2);
                if w != "Unit"@ {
                    lemma_skip_word(t, 3);
                }
            }
        }
    }
    assert(trim(Seq::<char>::empty()) =~= Seq::<char>::empty());
}

/// Past a word that the text neither is nor ends with after a space.
proof fn lemma_pass_word(t: Seq<char>, k: int)
    requires
        0 <= k < 5,
        !eq_ignore_ascii_case(t, crate::page::mailbox_words()[k]),
        !crate::text::ends_with_ignore_ascii_case(t, seq![' '] + crate::page::mailbox_words()[k]),
    ensures
        crate::page::strip_mailbox_word(t, k) == crate::page::strip_mailbox_word(t, k + 1),
{
}

/// A text with a space is no mailbox word.
proof fn lemma_spaced_not_word(t: Seq<char>, i: int, word: Seq<char>)
    requires
        0 <= i < t.len(),
        t[i] == ' ',
        is_mailbox_word(word),
    ensures
        !eq_ignore_ascii_case(t, word),
{
    lemma_word_letters(word);
    if t.len() == word.len() {
        assert(ascii_lower(word[i]) != ' ');
    }
}

/// `t` does not end with `p`: they differ at position `j` of `p`.
proof fn lemma_end_differs(t: Seq<char>, p: Seq<char>, j: int)
    requires
        p.len() <= t.len() ==> 0 <= j < p.len() && ascii_lower(t[t.len() - p.len() + j]) != ascii_lower(
            p[j],
        ),
    ensures
        !crate::text::ends_with_ignore_ascii_case(t, p),
{
    if p.len() <= t.len() {
        let q = t.subrange(t.len() - p.len(), t.len() as int);
        assert(q[j] == t[t.len() - p.len() + j]);
    }
}

/// A line with a placeholder that ends with one of the words PMB, Suite, Ste, Unit
/// or Apt (in any ASCII case) after a space loses that word: what is left is the
/// text before it, trimmed.
pub proof fn law_mailbox_word_cut(child: ChildView, w: Seq<char>, u: Seq<char>, v: Seq<char>)
    requires
        child.1.len() > 0,
        is_mailbox_word(w),
        eq_ignore_ascii_case(v, w),
        bare_line(child) == u + seq![' '] + v,
    ensures
        clean_line(child) == trim(u + seq![' ']),
{
    reveal_strlit("PMB");
    reveal_strlit("Suite");
    reveal_strlit("Ste");
    reveal_strlit("Unit");
    reveal_strlit("Apt");
    let t = bare_line(child);
    let n = t.len();
    let lw = w.len();
    let ws = crate::page::mailbox_words();
    lemma_word_letters(w);
    lemma_no_space(v, w);
    assert(t[u.len() as int] == ' ');
    assert(t[n - lw - 1] == ' ');
    assert forall|i: int| 0 <= i < lw implies #[trigger] t[n - lw + i] == v[i] by {}
    assert(ascii_lower(v[0]) == ascii_lower(w[0]));
    assert(ascii_lower(v[1]) == ascii_lower(w[1]));
    assert(ascii_lower(t[n - lw]) == ascii_lower(w[0]));
    assert(ascii_lower(t[n - lw + 1]) == ascii_lower(w[1]));
    // The step that cuts the word.
    let p = seq![' '] + w;
    assert(crate::text::ends_with_ignore_ascii_case(t, p)) by {
        let q = t.subrange(n - p.len(), n as int);
        assert forall|i: int| 0 <= i < q.len() implies ascii_lower(#[trigger] q[i]) == ascii_lower(p[i]) by {
            if i > 0 {
                assert(q[i] == v[i - 1]);
                assert(ascii_lower(v[i - 1]) == ascii_lower(w[i - 1]));
            }
        }
    }
    lemma_spaced_not_word(t, u.len() as int, w);
    assert(t.subrange(0, n - lw) =~= u + seq![' ']);
    if w == "PMB"@ {
    } else if w == "Suite"@ {
        lemma_spaced_not_word(t, u.len() as int, ws[0]);
        lemma_end_differs(t, seq![' '] + ws[0], 0);
        lemma_pass_word(t, 0);
    } else if w == "Ste"@ {
        lemma_spaced_not_word(t, u.len() as int, ws[0]);
        lemma_end_differs(t, seq![' '] + ws[0], 1);
        lemma_pass_word(t, 0);
        lemma_spaced_not_word(t, u.len() as int, ws[1]);
        lemma_end_differs(t, seq![' '] + ws[1], 2);
        lemma_pass_word(t, 1);
    } else if w == "Unit"@ {
        lemma_spaced_not_word(t, u.len() as int, ws[0]);
        lemma_end_differs(t, seq![' '] + ws[0], 0);
        lemma_pass_word(t, 0);
        lemma_spaced_not_word(t, u.len() as int, ws[1]);
        lemma_end_differs(t, seq![' '] + ws[1], 1);
        lemma_pass_word(t, 1);
        lemma_spaced_not_word(t, u.len() as int, ws[2]);
        lemma_end_differs(t, seq![' '] + ws[2], 0);
        lemma_pass_word(t, 2);
    } else {
        lemma_spaced_not_word(t, u.len() as int, ws[0]);
        lemma_end_differs(t, seq![' '] + ws[0], 1);
        lemma_pass_word(t, 0);
        lemma_spaced_not_word(t, u.len() as int, ws[1]);
        lemma_end_differs(t, seq![' '] + ws[1], 2);
        lemma_pass_word(t, 1);
        lemma_spaced_not_word(t, u.len() as int, ws[2]);
        lemma_end_differs(t, seq![' '] + ws[2], 1);
        lemma_pass_word(t, 2);
        lemma_spaced_not_word(t, u.len() as int, ws[3]);
        lemma_end_differs(t, seq![' '] + ws[3], 1);
        lemma_pass_word(t, 3);
    }
}

// ---------------------------------------------------------------------------
// Smarty's answer
// ---------------------------------------------------------------------------

/// Smarty's CMRA flag is taken as given: when the first candidate's
/// `analysis.dpv_cmra` is the string `Y` or `N`, the check is `matched` with that
/// flag; when it is any other string, the flag is `Unknown`.
pub proof fn law_smarty_cmra_flag(items: Vec<Json>, analysis: Json, flag: String)
    requires
        items@.len() > 0,
        json_get(items@[0], "analysis"@) == Some(analysis),
        json_get(analysis, "dpv_cmra"@) == Some(Json::Str(flag)),
    ensures
        crate::smarty::smarty_info_of(Json::Array(items)).0 == "matched"@,
        flag@ == "Y"@ || flag@ == "N"@ ==> crate::smarty::smarty_info_of(Json::Array(items)).1 == flag@,
        !(flag@ == "Y"@ || flag@ == "N"@) ==> crate::smarty::smarty_info_of(Json::Array(items)).1
            == "Unknown"@,
{
}

/// Smarty's residential delivery indicator is taken as given: when the first
/// candidate's `metadata.rdi` is a nonempty string, that is the indicator; when it is
/// empty or absent, it is `Unknown`.
pub proof fn law_smarty_rdi(items: Vec<Json>, metadata: Json)
    requires
        items@.len() > 0,
        json_get(items@[0], "metadata"@) == Some(metadata),
    ensures
        forall|rdi: String| json_get(metadata, "rdi"@) == Some(Json::Str(rdi)) && rdi@.len() > 0
            ==> crate::smarty::smarty_info_of(Json::Array(items)).2 == rdi@,
        forall|rdi: String| json_get(metadata, "rdi"@) == Some(Json::Str(rdi)) && rdi@.len() == 0
            ==> crate::smarty::smarty_info_of(Json::Array(items)).2 == "Unknown"@,
        json_get(metadata, "rdi"@) is None ==> crate::smarty::smarty_info_of(Json::Array(items)).2
            == "Unknown"@,
{
}

/// An empty list of candidates is `no_match`, and an answer that is not a list is
/// `invalid_response`; neither has a CMRA flag or indicator.
pub proof fn law_smarty_no_candidate(v: Json)
    ensures
        v matches Json::Array(items) && items@.len() == 0 ==> crate::smarty::smarty_info_of(v) == (
            "no_match"@,
            Seq::<char>::empty(),
            Seq::<char>::empty(),
        ),
        !(v is Array) ==> crate::smarty::smarty_info_of(v) == (
            "invalid_response"@,
            Seq::<char>::empty(),
            Seq::<char>::empty(),
        ),
{
}

// ---------------------------------------------------------------------------
// The USPS answer
// ---------------------------------------------------------------------------

/// What a USPS answer with `resultStatus` `SUCCESS` says by the size of its
/// address list, and that a list that is not a list is `invalid_response`; an
/// answer without `resultStatus` is `lookup_failed`. The raw text is always kept.
pub proof fn law_usps_status(v: Json, ok: String, raw: Seq<char>)
    requires
        ok@ == "SUCCESS"@,
    ensures
        crate::usps::usps_result_of(v, raw).raw == raw,
        json_get(v, "resultStatus"@) is None ==> crate::usps::usps_result_of(v, raw).status
            == "lookup_failed"@,
        json_get(v, "resultStatus"@) == Some(Json::Str(ok)) ==> match json_get(v, "addressList"@) {
            Some(Json::Array(list)) => crate::usps::usps_result_of(v, raw).status == if list@.len() == 0 {
                "no_match"@
            } else if list@.len() == 1 {
                "matched"@
            } else {
                "multiple_matches"@
            },
            _ => crate::usps::usps_result_of(v, raw).status == "invalid_response"@,
        },
{
    reveal_strlit("SUCCESS");
    reveal_with_fuel(crate::usps::field_from, 2);
    if json_get(v, "resultStatus"@) == Some(Json::Str(ok)) {
        assert(crate::usps::field_of(v, seq!["resultStatus"@]) == ok@);
        assert(eq_ignore_ascii_case(ok@, "SUCCESS"@));
    }
    if json_get(v, "resultStatus"@) is None {
        assert(crate::usps::field_of(v, seq!["resultStatus"@]) == Seq::<char>::empty());
    }
}

/// The fields of a matched USPS address are those USPS gives, as strings: `zip5`,
/// `zip4`, `business` and `carrierRoute`; the DPV confirmation from
/// `DPVConfirmation`, or `dpvConfirmation` when that is absent; and the CMRA flag
/// from `cmar`, then `DPVCMRA`, then `dpvCmra`.
pub proof fn law_usps_matched_fields(v: Json, ok: String, list: Vec<Json>, raw: Seq<char>)
    requires
        ok@ == "SUCCESS"@,
        json_get(v, "resultStatus"@) == Some(Json::Str(ok)),
        json_get(v, "addressList"@) == Some(Json::Array(list)),
        list@.len() == 1,
    ensures
        ({
            let a = list@[0];
            let r = crate::usps::usps_result_of(v, raw);
            &&& forall|x: String| json_get(a, "zip5"@) == Some(Json::Str(x)) ==> r.zip5 == x@
            &&& forall|x: String| json_get(a, "zip4"@) == Some(Json::Str(x)) ==> r.zip4 == x@
            &&& forall|x: String| json_get(a, "business"@) == Some(Json::Str(x)) ==> r.business == x@
            &&& forall|x: String| json_get(a, "carrierRoute"@) == Some(Json::Str(x)) ==> r.carrier_route
                == x@
            &&& forall|x: String| json_get(a, "DPVConfirmation"@) == Some(Json::Str(x))
                ==> r.dpv_confirmation == x@
            &&& forall|x: String| json_get(a, "DPVConfirmation"@) is None && json_get(
                a,
                "dpvConfirmation"@,
            ) == Some(Json::Str(x)) ==> r.dpv_confirmation == x@
            &&& forall|x: String| json_get(a, "cmar"@) == Some(Json::Str(x)) ==> r.cmra == x@
            &&& forall|x: String| json_get(a, "cmar"@) is None && json_get(a, "DPVCMRA"@) == Some(
                Json::Str(x),
            ) ==> r.cmra == x@
            &&& forall|x: String| json_get(a, "cmar"@) is None && json_get(a, "DPVCMRA"@) is None
                && json_get(a, "dpvCmra"@) == Some(Json::Str(x)) ==> r.cmra == x@
        }),
{
    reveal_strlit("SUCCESS");
    reveal_with_fuel(crate::usps::field_from, 4);
    assert(crate::usps::field_of(v, seq!["resultStatus"@]) == ok@);
    assert(eq_ignore_ascii_case(ok@, "SUCCESS"@));
}

// ---------------------------------------------------------------------------
// The counts of a summary
// ---------------------------------------------------------------------------

/// Counting the records that satisfy a condition is the length of the list of them.
proof fn lemma_count_is_kept_len(
    s: Seq<RecordView>,
    p: spec_fn(RecordView) -> bool,
    q: spec_fn(RecordView) -> bool,
)
    requires
        forall|x: RecordView| #[trigger] p(x) == q(x),
    ensures
        crate::report::count_where(s, p) == crate::crawl::keep_where(s, q).len(),
    decreases s.len(),
{
    if s.len() > 0 {
        assert(p(s.last()) == q(s.last()));
        lemma_count_is_kept_len(s.drop_last(), p, q);
    }
}

/// A record enters the preferred list: its detail page was read, Smarty matched it
/// and says it is not a CMRA.
pub open spec fn preferred_row(x: RecordView) -> bool {
    x[col_detail_status()] == "fetched"@ && x[col_smarty_status()] == "matched"@ && x[col_cmra()]
        == "N"@
}

/// Smarty gave neither a match nor a no-match.
pub open spec fn smarty_error_row(x: RecordView) -> bool {
    !(x[col_smarty_status()] == "matched"@ || x[col_smarty_status()] == "no_match"@)
}

/// USPS gave none of its answers.
pub open spec fn usps_error_row(x: RecordView) -> bool {
    !(x[col_usps_status()] == "matched"@ || x[col_usps_status()] == "no_match"@ || x[col_usps_status()]
        == "multiple_matches"@ || x[col_usps_status()] == "disabled"@)
}

/// The opening of a summary: the scope, the number of records checked, the number
/// of records of the preferred list, of Smarty errors and of USPS errors.
pub open spec fn opening_counts(scope: crate::config::Scope, records: Seq<RecordView>) -> Seq<char> {
    "# Address check: "@ + crate::config::scope_name(scope) + "\n\n- Checked: "@ + decimal(records.len())
        + "\n- Smarty non-CMRA: "@ + decimal(
        crate::crawl::keep_where(records, |x: RecordView| preferred_row(x)).len(),
    ) + "\n- Smarty errors: "@ + decimal(
        crate::crawl::keep_where(records, |x: RecordView| smarty_error_row(x)).len(),
    ) + "\n- USPS errors/unavailable: "@ + decimal(
        crate::crawl::keep_where(records, |x: RecordView| usps_error_row(x)).len(),
    ) + "\n- Limited smoke test: "@
}

/// The summary opens with the scope, the number of records checked, the number of
/// records of the preferred list (those whose detail page was read, which Smarty
/// matched and says are not CMRAs, the records `preferred_records` gives), the
/// number of Smarty errors and the number of USPS errors, in that order.
pub proof fn law_summary_counts(
    scope: crate::config::Scope,
    records: Seq<RecordView>,
    max_addresses: usize,
    source: Option<Seq<char>>,
    smarty: Seq<(Seq<char>, nat)>,
    usps: Seq<(Seq<char>, nat)>,
)
    ensures
        ({
            let text = crate::report::summary_text(scope, records, max_addresses, source, smarty, usps);
            let open = opening_counts(scope, records);
            open.len() <= text.len() && text.subrange(0, open.len() as int) == open
        }),
{
    lemma_count_is_kept_len(
        records,
        |x: RecordView| is_non_cmra(x),
        |x: RecordView| preferred_row(x),
    );
    lemma_count_is_kept_len(
        records,
        |x: RecordView| crate::report::smarty_failed(x),
        |x: RecordView| smarty_error_row(x),
    );
    lemma_count_is_kept_len(
        records,
        |x: RecordView| crate::report::usps_failed(x),
        |x: RecordView| usps_error_row(x),
    );
    let rest = crate::report::bool_text(max_addresses > 0)
        + "\n\nFull per-address results, including USPS fields and raw JSON, are in `checks.csv`. USPS failures are not validation passes.\n"@
        + crate::report::reuse_text(source) + crate::report::detail_text(records)
        + crate::report::table_text("Smarty"@, smarty) + crate::report::table_text("USPS"@, usps)
        + crate::report::subscription_text(records);
    let text = crate::report::summary_text(scope, records, max_addresses, source, smarty, usps);
    let open = opening_counts(scope, records);
    assert(text =~= open + rest);
    assert(text.subrange(0, open.len() as int) =~= open);
}

// ---------------------------------------------------------------------------
// The state and ZIP code of a listed address
// ---------------------------------------------------------------------------

/// A text that is one word: nonempty, without whitespace.
pub open spec fn is_word(w: Seq<char>) -> bool {
    w.len() > 0 && forall|i: int| 0 <= i < w.len() ==> !crate::text::is_ws(#[trigger] w[i])
}

/// A word stops where the text's first whitespace is.
proof fn lemma_skip_word_to(s: Seq<char>, i: int, j: int)
    requires
        0 <= i <= j <= s.len(),
        forall|k: int| i <= k < j ==> !crate::text::is_ws(#[trigger] s[k]),
        j == s.len() || crate::text::is_ws(s[j]),
    ensures
        crate::text::skip_word(s, i) == j,
    decreases j - i,
{
    if i < j {
        lemma_skip_word_to(s, i + 1, j);
    }
}

/// The listed ZIP code, with its extension: the state word and the ZIP word of a
/// city/state/ZIP line `city, ST ZIP` give the state `ST` (read as its code) and the
/// ZIP code, split at its dash. A leading zero is kept.
pub proof fn law_listing_state_and_zip(
    loc: LocationView,
    city: Seq<char>,
    st: Seq<char>,
    zip5: Seq<char>,
    zip4: Option<Seq<char>>,
)
    requires
        !city.contains(','),
        is_word(st) && !st.contains(','),
        is_word(zip5) && !zip5.contains(',') && !zip5.contains('-'),
        zip4 matches Some(z4) ==> is_word(z4) && !z4.contains(',') && !z4.contains('-'),
        loc.2 == city + ", "@ + st + " "@ + crate::model::full_zip_of(zip5, zip4),
    ensures
        crate::config::state_code_of(st) is None ==> mailbox_of(loc) == Err::<
            crate::model::MailboxView,
            crate::page::PageFault,
        >(crate::page::PageFault::InvalidState),
        crate::config::state_code_of(st) matches Some(code) ==> mailbox_of(loc) is Ok && mailbox_of(
            loc,
        )->Ok_0.1 == (loc.1, Seq::<char>::empty(), city, code, zip5, zip4),
{
    reveal_strlit(", ");
    reveal_strlit(" ");
    let z = crate::model::full_zip_of(zip5, zip4);
    let piece = seq![' '] + st + seq![' '] + z;
    assert(loc.2 =~= city + seq![','] + piece);
    assert(!z.contains(',')) by {
        if z.contains(',') {
            let k = choose|k: int| 0 <= k < z.len() && z[k] == ',';
            if k < zip5.len() {
                assert(zip5[k] == ',');
            } else if k > zip5.len() {
                let z4 = zip4->Some_0;
                assert(z4[k - zip5.len() - 1] == ',');
            }
        }
    }
    assert(!piece.contains(',')) by {
        if piece.contains(',') {
            let k = choose|k: int| 0 <= k < piece.len() && piece[k] == ',';
            if 1 <= k < 1 + st.len() {
                assert(st[k - 1] == ',');
            } else if k > st.len() + 1 {
                assert(z[k - st.len() - 2] == ',');
            }
        }
    }
    lemma_split_first(city, ',', piece);
    assert(is_word(z)) by {
        assert forall|i: int| 0 <= i < z.len() implies !crate::text::is_ws(#[trigger] z[i]) by {
            if i < zip5.len() {
                assert(z[i] == zip5[i]);
            } else if i > zip5.len() {
                let z4 = zip4->Some_0;
                assert(z[i] == z4[i - zip5.len() - 1]);
            }
        }
    }
    let t = st + seq![' '] + z;
    assert(crate::text::trim_start(piece) == t) by {
        assert(piece.drop_first() =~= t);
        assert(t[0] == st[0]);
        assert(!crate::text::is_ws(t[0]));
        assert(crate::text::trim_start(t) == t);
        assert(piece[0] == ' ');
        assert(crate::text::is_ws(piece[0]));
    }
    assert(crate::text::trim_end(t) == t) by {
        assert(t.last() == z.last());
    }
    assert(trim(piece) == t);
    // The first word is the state, the second the ZIP code.
    assert(crate::text::skip_ws(t, 0) == 0);
    lemma_skip_word_to(t, 0, st.len() as int);
    assert(t.subrange(0, st.len() as int) =~= st);
    assert(crate::text::skip_ws(t, st.len() as int) == st.len() + 1) by {
        assert(t[st.len() as int] == ' ');
        assert(crate::text::is_ws(t[st.len() as int]));
        assert(t[st.len() as int + 1] == z[0]);
        assert(!crate::text::is_ws(t[st.len() as int + 1]));
        assert(crate::text::skip_ws(t, st.len() as int + 1) == st.len() + 1);
    }
    lemma_skip_word_to(t, st.len() as int + 1, t.len() as int);
    assert(t.subrange(st.len() as int + 1, t.len() as int) =~= z);
    // The ZIP code splits at its dash.
    match zip4 {
        Some(z4) => {
            lemma_split_first(zip5, '-', z4);
        },
        None => {
            lemma_split_free(zip5, '-');
        },
    }
}

// ---------------------------------------------------------------------------
// The order of the result files
// ---------------------------------------------------------------------------

/// Residential addresses come before commercial ones, and commercial ones before
/// the rest, whatever their states, cities and links (`residential` and
/// `commercial` in any ASCII case).
pub proof fn law_rdi_order(r1: RecordView, r2: RecordView)
    ensures
        eq_ignore_ascii_case(r1[crate::record::col_rdi()], "residential"@) && !eq_ignore_ascii_case(
            r2[crate::record::col_rdi()],
            "residential"@,
        ) ==> crate::record::key_lt(crate::record::key_of(r1), crate::record::key_of(r2)),
        eq_ignore_ascii_case(r1[crate::record::col_rdi()], "commercial"@) && !eq_ignore_ascii_case(
            r2[crate::record::col_rdi()],
            "residential"@,
        ) && !eq_ignore_ascii_case(r2[crate::record::col_rdi()], "commercial"@)
            ==> crate::record::key_lt(crate::record::key_of(r1), crate::record::key_of(r2)),
{
    reveal_strlit("residential");
    reveal_strlit("commercial");
    if eq_ignore_ascii_case(r1[crate::record::col_rdi()], "commercial"@) {
        assert(!eq_ignore_ascii_case(r1[crate::record::col_rdi()], "residential"@)) by {
            assert("residential"@.len() != "commercial"@.len());
        }
    }
}

// ---------------------------------------------------------------------------
// The street lines of a detail page
// ---------------------------------------------------------------------------

/// The search for the city/state/ZIP line passes lines that are not one.
proof fn lemma_city_line_after(lines: Seq<(Seq<char>, Option<bool>)>, i: int, ci: int)
    requires
        0 <= i <= ci < lines.len(),
        forall|k: int| i <= k < ci ==> #[trigger] lines[k].1 == Some(false),
        lines[ci].1 == Some(true),
    ensures
        crate::page::city_line_at(lines, i) == Ok::<int, crate::page::PageFault>(ci),
    decreases ci - i,
{
    if i < ci {
        lemma_city_line_after(lines, i + 1, ci);
    }
}

/// A detail page's street lines: its first line, then the lines up to the first
/// city/state/ZIP line joined by single spaces, when there are any.
pub proof fn law_street_lines(
    first: Seq<char>,
    middle: Seq<Seq<char>>,
    city: Seq<char>,
    after: Seq<(Seq<char>, Option<bool>)>,
)
    ensures
        ({
            let lines = seq![(first, Some(false))] + Seq::new(middle.len(), |k: int| (middle[k], Some(false)))
                + seq![(city, Some(true))] + after;
            crate::page::street_lines_of(lines) == Ok::<(Seq<char>, Option<Seq<char>>), crate::page::PageFault>(
                (first, if middle.len() > 0 {
                    Some(crate::text::join(middle, " "@))
                } else {
                    None
                }),
            )
        }),
{
    let lines = seq![(first, Some(false))] + Seq::new(middle.len(), |k: int| (middle[k], Some(false)))
        + seq![(city, Some(true))] + after;
    let ci: int = middle.len() as int + 1;
    assert(lines[ci].1 == Some(true));
    assert forall|k: int| 0 <= k < ci implies #[trigger] lines[k].1 == Some(false) by {
        if k > 0 {
            assert(lines[k] == (middle[k - 1], Some(false)));
        }
    }
    lemma_city_line_after(lines, 0, ci);
    assert(Seq::new((ci - 1) as nat, |k: int| lines[k + 1].0) =~= middle);
}

/// The one-line address of a matched USPS address: its lines, city and state joined
/// by `, `, an empty second line left out.
pub proof fn law_usps_address_line(a: Json, l1: String, l2: String, city: String, st: String)
    requires
        json_get(a, "addressLine1"@) == Some(Json::Str(l1)),
        json_get(a, "addressLine2"@) == Some(Json::Str(l2)),
        json_get(a, "city"@) == Some(Json::Str(city)),
        json_get(a, "state"@) == Some(Json::Str(st)),
        l1@.len() > 0,
        city@.len() > 0,
        st@.len() > 0,
    ensures
        l2@.len() > 0 ==> crate::usps::address_line_of(a) == l1@ + ", "@ + l2@ + ", "@ + city@ + ", "@ + st@,
        l2@.len() == 0 ==> crate::usps::address_line_of(a) == l1@ + ", "@ + city@ + ", "@ + st@,
{
    reveal_with_fuel(crate::usps::field_from, 2);
    reveal_with_fuel(crate::usps::nonempty, 5);
    reveal_with_fuel(crate::text::join, 5);
    let parts = seq![l1@, l2@, city@, st@];
    assert(parts.drop_last().drop_last().drop_last().drop_last() =~= Seq::<Seq<char>>::empty());
    if l2@.len() > 0 {
        assert(crate::usps::nonempty(parts) =~= seq![l1@, l2@, city@, st@]);
    } else {
        assert(crate::usps::nonempty(parts) =~= seq![l1@, city@, st@]);
    }
}

} // verus!
