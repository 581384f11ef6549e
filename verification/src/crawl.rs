//! The decisions of a crawl of Anytime Mailbox: which pages to fetch, how the
//! fetched pages combine into the list of mailboxes, and what a detail page
//! changes in a mailbox. Fetching the pages is left to the caller.
use vstd::prelude::*;
use crate::config::{scope_includes, Scope};
use crate::model::{concat_str, copy_str, mailbox_views, Mailbox, MailboxView};
use crate::page::{
    mailboxes_from, LocationDetailPage, PageError, PageFault, StateHtmlInfo, StatePage, BASE_URL,
};
use crate::text::{chars_of, lemma_lex_total, lemma_lex_trans, lex_less, lex_lt, starts_with, starts_with_exec};

verus! {

/// Why a crawl stopped.
#[derive(Debug, Clone)]
pub enum CrawlError {
    /// no state of the country page belongs to the scope
    NoStatesInScope,
    /// some state pages gave no mailboxes (their errors, in page order)
    MailboxesFailed { errors: Vec<PageError> },
    /// no mailbox is left after filtering
    NoMailboxes,
}

/// The address of a page: `url_path` itself when it starts with `http`, else the
/// site's address followed by `url_path`.
pub open spec fn page_url_of(url_path: Seq<char>) -> Seq<char> {
    if starts_with(url_path, "http"@) {
        url_path
    } else {
        BASE_URL@ + url_path
    }
}

/// The address of a page, from a full address or a path on the site.
pub fn page_url(url_path: &str) -> (r: String)
    ensures
        r@ == page_url_of(url_path@),
{
    let p = chars_of(url_path);
    let h = chars_of("http");
    if starts_with_exec(p.as_slice(), h.as_slice()) {
        copy_str(url_path)
    } else {
        concat_str(BASE_URL, url_path)
    }
}

/// The elements of `s` that `keep` accepts, in order.
pub open spec fn keep_where<A>(s: Seq<A>, keep: spec_fn(A) -> bool) -> Seq<A>
    decreases s.len(),
{
    if s.len() == 0 {
        Seq::empty()
    } else {
        let rest = keep_where(s.drop_last(), keep);
        if keep(s.last()) {
            rest.push(s.last())
        } else {
            rest
        }
    }
}

/// A state belongs to the scope by its name.
pub open spec fn state_in_scope(scope: Scope) -> spec_fn((Seq<char>, Seq<char>)) -> bool {
    |s: (Seq<char>, Seq<char>)| scope_includes(scope, s.1)
}

/// The states of the country page that a crawl visits: those of the scope, in order.
pub fn select_states(states: Vec<StateHtmlInfo>, scope: Scope) -> (r: Result<
    Vec<StateHtmlInfo>,
    CrawlError,
>)
    ensures
        match r {
            Ok(v) => crate::page::state_views(v@) == keep_where(
                crate::page::state_views(states@),
                state_in_scope(scope),
            ) && v@.len() > 0,
            Err(e) => e is NoStatesInScope && keep_where(
                crate::page::state_views(states@),
                state_in_scope(scope),
            ).len() == 0,
        },
{
    let ghost sv = crate::page::state_views(states@);
    let mut out: Vec<StateHtmlInfo> = Vec::new();
    let mut i: usize = 0;
    assert(sv.subrange(0, 0) =~= Seq::<(Seq<char>, Seq<char>)>::empty());
    while i < states.len()
        invariant
            i <= states@.len(),
            sv == crate::page::state_views(states@),
            crate::page::state_views(out@) == keep_where(sv.subrange(0, i as int), state_in_scope(scope)),
        decreases states@.len() - i,
    {
        let s = &states[i];
        let ghost pre = sv.subrange(0, i as int);
        let ghost next = sv.subrange(0, i + 1);
        assert(next.drop_last() =~= pre);
        assert(next.last() == s@);
        if scope.includes(s.name()) {
            let ghost before = out@;
            out.push(StateHtmlInfo::new(copy_str(s.url()), copy_str(s.name())));
            assert(crate::page::state_views(out@) =~= crate::page::state_views(before).push(s@));
        }
        i = i + 1;
    }
    assert(sv.subrange(0, states@.len() as int) =~= sv);
    if out.len() == 0 {
        Err(CrawlError::NoStatesInScope)
    } else {
        Ok(out)
    }
}

/// The successful results, in order.
pub open spec fn oks<T, E>(s: Seq<Result<T, E>>) -> Seq<T>
    decreases s.len(),
{
    if s.len() == 0 {
        Seq::empty()
    } else {
        match s.last() {
            Ok(t) => oks(s.drop_last()).push(t),
            Err(_) => oks(s.drop_last()),
        }
    }
}

/// The failed results, in order.
pub open spec fn errs<T, E>(s: Seq<Result<T, E>>) -> Seq<E>
    decreases s.len(),
{
    if s.len() == 0 {
        Seq::empty()
    } else {
        match s.last() {
            Ok(_) => errs(s.drop_last()),
            Err(e) => errs(s.drop_last()).push(e),
        }
    }
}

/// All the values when every result succeeded, else all the errors (both in order).
pub fn collect_all<T, E>(results: Vec<Result<T, E>>) -> (r: Result<Vec<T>, Vec<E>>)
    ensures
        match r {
            Ok(v) => errs(results@).len() == 0 && v@ == oks(results@),
            Err(v) => errs(results@).len() > 0 && v@ == errs(results@),
        },
{
    let ghost all = results@;
    let n = results.len();
    let mut good: Vec<T> = Vec::new();
    let mut bad: Vec<E> = Vec::new();
    let mut rest = results;
    let mut k: usize = 0;
    assert(all.subrange(0, 0) =~= Seq::<Result<T, E>>::empty());
    assert(all.subrange(0, all.len() as int) =~= all);
    while rest.len() > 0
        invariant
            k <= all.len(),
            all.len() == n,
            rest@ == all.subrange(k as int, all.len() as int),
            good@ == oks(all.subrange(0, k as int)),
            bad@ == errs(all.subrange(0, k as int)),
        decreases rest@.len(),
    {
        let item = rest.remove(0);
        assert(rest@ =~= all.subrange(k + 1, all.len() as int));
        assert(all.subrange(0, k + 1).drop_last() =~= all.subrange(0, k as int));
        assert(all.subrange(0, k + 1).last() == item);
        match item {
            Ok(t) => good.push(t),
            Err(e) => bad.push(e),
        }
        k = k + 1;
    }
    assert(all.subrange(0, k as int) =~= all);
    if bad.len() > 0 {
        Err(bad)
    } else {
        Ok(good)
    }
}

/// A mailbox's address lies in the scope by its state.
pub open spec fn mailbox_in_scope(scope: Scope) -> spec_fn(MailboxView) -> bool {
    |m: MailboxView| scope_includes(scope, m.1.3)
}

/// The mailboxes of all pages, in page order, when every page gives its mailboxes.
pub open spec fn all_mailboxes(pages: Seq<Seq<crate::page::LocationView>>) -> Seq<MailboxView>
    decreases pages.len(),
{
    if pages.len() == 0 {
        Seq::empty()
    } else {
        match mailboxes_from(pages.last(), 0) {
            Ok(m) => all_mailboxes(pages.drop_last()) + m,
            Err(_) => all_mailboxes(pages.drop_last()),
        }
    }
}

/// The errors of the pages that give no mailboxes, in page order.
pub open spec fn page_faults(pages: Seq<Seq<crate::page::LocationView>>) -> Seq<PageFault>
    decreases pages.len(),
{
    if pages.len() == 0 {
        Seq::empty()
    } else {
        match mailboxes_from(pages.last(), 0) {
            Ok(_) => page_faults(pages.drop_last()),
            Err(e) => page_faults(pages.drop_last()).push(e),
        }
    }
}

/// The links of `r` increase strictly.
pub open spec fn links_increasing(r: Seq<MailboxView>) -> bool {
    forall|i: int, j: int| 0 <= i < j < r.len() ==> lex_lt(#[trigger] r[i].3, #[trigger] r[j].3)
}

/// Some mailbox of `r` has the link `link`.
pub open spec fn lists_link(r: Seq<MailboxView>, link: Seq<char>) -> bool {
    exists|j: int| 0 <= j < r.len() && r[j].3 == link
}

/// No mailbox of `s` before position `i` has the link `link`.
pub open spec fn no_earlier_link(s: Seq<MailboxView>, i: int, link: Seq<char>) -> bool {
    forall|k: int| 0 <= k < i ==> #[trigger] s[k].3 != link
}

/// `m` is the first mailbox of `s` with its link.
pub open spec fn first_with_link(s: Seq<MailboxView>, m: MailboxView) -> bool {
    exists|i: int| 0 <= i < s.len() && s[i] == m && no_earlier_link(s, i, m.3)
}

/// `r` lists, by strictly increasing link, one mailbox for each link of `s`: the
/// first mailbox of `s` with that link (what a stable sort by link followed by
/// removing later duplicates gives).
pub open spec fn sorted_unique_by_link(s: Seq<MailboxView>, r: Seq<MailboxView>) -> bool {
    &&& links_increasing(r)
    &&& forall|i: int| 0 <= i < s.len() ==> lists_link(r, #[trigger] s[i].3)
    &&& forall|j: int| 0 <= j < r.len() ==> first_with_link(s, #[trigger] r[j])
}

/// The plain value of each page.
pub open spec fn page_views(pages: Seq<StatePage>) -> Seq<Seq<crate::page::LocationView>> {
    Seq::new(pages.len(), |i: int| pages[i]@)
}

/// The plain value of each page error.
pub open spec fn fault_views(v: Seq<PageError>) -> Seq<PageFault> {
    Seq::new(v.len(), |i: int| v[i]@)
}

/// The mailboxes a crawl gives for the fetched state pages: when every page gives
/// its mailboxes, those of the scope, sorted by link with one mailbox per link,
/// the first `max_addresses` of them when `max_addresses` is not zero.
pub fn gather_mailboxes(pages: &Vec<StatePage>, scope: Scope, max_addresses: usize) -> (r: Result<
    Vec<Mailbox>,
    CrawlError,
>)
    ensures
        ({
            let pv = page_views(pages@);
            let s = keep_where(all_mailboxes(pv), mailbox_in_scope(scope));
            match r {
                Ok(v) => page_faults(pv).len() == 0 && v@.len() > 0 && (exists|full: Seq<MailboxView>|
                    sorted_unique_by_link(s, full) && mailbox_views(v@) == if max_addresses > 0
                        && max_addresses < full.len() {
                        full.take(max_addresses as int)
                    } else {
                        full
                    }),
                Err(CrawlError::MailboxesFailed { errors }) => page_faults(pv).len() > 0
                    && fault_views(errors@) == page_faults(pv),
                Err(CrawlError::NoMailboxes) => page_faults(pv).len() == 0 && s.len() == 0,
                Err(CrawlError::NoStatesInScope) => false,
            }
        }),
{
    let ghost pv = page_views(pages@);
    let mut all: Vec<Mailbox> = Vec::new();
    let mut errors: Vec<PageError> = Vec::new();
    let mut i: usize = 0;
    assert(pv.subrange(0, 0) =~= Seq::<Seq<crate::page::LocationView>>::empty());
    while i < pages.len()
        invariant
            i <= pages@.len(),
            pv == page_views(pages@),
            mailbox_views(all@) == all_mailboxes(pv.subrange(0, i as int)),
            fault_views(errors@) == page_faults(pv.subrange(0, i as int)),
        decreases pages@.len() - i,
    {
        let ghost pre = pv.subrange(0, i as int);
        let ghost next = pv.subrange(0, i + 1);
        assert(next.drop_last() =~= pre);
        assert(next.last() == pages@[i as int]@);
        match pages[i].to_mailboxes() {
            Ok(v) => {
                let ghost before = all@;
                let mut v = v;
                let ghost added = v@;
                all.append(&mut v);
                assert(mailbox_views(all@) =~= mailbox_views(before) + mailbox_views(added));
            },
            Err(e) => {
                let ghost before = errors@;
                errors.push(e);
                assert(fault_views(errors@) =~= fault_views(before).push(e@));
            },
        }
        i = i + 1;
    }
    assert(pv.subrange(0, pages@.len() as int) =~= pv);
    if errors.len() > 0 {
        return Err(CrawlError::MailboxesFailed { errors });
    }
    let ghost everything = mailbox_views(all@);
    let mut sorted: Vec<Mailbox> = Vec::new();
    let mut j: usize = 0;
    assert(everything.subrange(0, 0) =~= Seq::<MailboxView>::empty());
    while j < all.len()
        invariant
            j <= all@.len(),
            everything == mailbox_views(all@),
            sorted_unique_by_link(
                keep_where(everything.subrange(0, j as int), mailbox_in_scope(scope)),
                mailbox_views(sorted@),
            ),
        decreases all@.len() - j,
    {
        let ghost pre = everything.subrange(0, j as int);
        let ghost next = everything.subrange(0, j + 1);
        assert(next.drop_last() =~= pre);
        assert(next.last() == all@[j as int]@);
        if scope.includes(all[j].address.state.as_str()) {
            insert_unique_by_link(&mut sorted, &all[j], Ghost(keep_where(pre, mailbox_in_scope(scope))));
        }
        j = j + 1;
    }
    assert(everything.subrange(0, all@.len() as int) =~= everything);
    let ghost full = mailbox_views(sorted@);
    if sorted.len() == 0 {
        proof {
            lemma_empty_sorted_unique(keep_where(everything, mailbox_in_scope(scope)), full);
        }
        return Err(CrawlError::NoMailboxes);
    }
    if max_addresses > 0 && max_addresses < sorted.len() {
        sorted.truncate(max_addresses);
        assert(mailbox_views(sorted@) =~= full.take(max_addresses as int));
    }
    Ok(sorted)
}

proof fn lemma_empty_sorted_unique(s: Seq<MailboxView>, r: Seq<MailboxView>)
    requires
        sorted_unique_by_link(s, r),
        r.len() == 0,
    ensures
        s.len() == 0,
{
    if s.len() > 0 {
        assert(lists_link(r, s[0].3));
    }
}

/// Whether `m`'s link comes strictly before `link`.
fn link_precedes(m: &Mailbox, link: &[char]) -> (r: bool)
    ensures
        r == lex_lt(m@.3, link@),
{
    let other = chars_of(m.link.as_str());
    lex_less(other.as_slice(), link)
}

/// Inserts a copy of `m` into `sorted`, which lists the mailboxes of `prefix` sorted
/// by link with one per link, so that it does the same for `prefix` followed by `m`.
fn insert_unique_by_link(sorted: &mut Vec<Mailbox>, m: &Mailbox, Ghost(prefix): Ghost<Seq<MailboxView>>)
    requires
        sorted_unique_by_link(prefix, mailbox_views(old(sorted)@)),
    ensures
        sorted_unique_by_link(prefix.push(m@), mailbox_views(final(sorted)@)),
{
    let link = chars_of(m.link.as_str());
    let ghost r = mailbox_views(sorted@);
    let mut p: usize = 0;
    while p < sorted.len() && link_precedes(&sorted[p], link.as_slice())
        invariant
            p <= sorted@.len(),
            r == mailbox_views(sorted@),
            link@ == m@.3,
            forall|k: int| 0 <= k < p ==> lex_lt(#[trigger] r[k].3, m@.3),
        decreases sorted@.len() - p,
    {
        assert(sorted@[p as int]@ == r[p as int]);
        p = p + 1;
    }
    let mut same = false;
    if p < sorted.len() {
        assert(sorted@[p as int]@ == r[p as int]);
        let other = chars_of(sorted[p].link.as_str());
        same = crate::text::chars_eq(other.as_slice(), link.as_slice());
        proof {
            lemma_lex_total(r[p as int].3, m@.3);
        }
    }
    if same {
        // A mailbox with this link came earlier; it stays.
        proof {
            lemma_keep_sorted_unique(prefix, r, m@, p as int);
        }
        return;
    }
    let copy = crate::model::copy_mailbox(m);
    sorted.insert(p, copy);
    proof {
        lemma_insert_sorted_unique(prefix, r, m@, p as int);
        assert(mailbox_views(sorted@) =~= r.insert(p as int, m@));
    }
}

/// Keeping the list as it is, when a mailbox with the same link is listed.
proof fn lemma_keep_sorted_unique(s: Seq<MailboxView>, r: Seq<MailboxView>, m: MailboxView, p: int)
    requires
        sorted_unique_by_link(s, r),
        0 <= p < r.len(),
        r[p].3 == m.3,
    ensures
        sorted_unique_by_link(s.push(m), r),
{
    let t = s.push(m);
    assert forall|i: int| 0 <= i < t.len() implies lists_link(r, #[trigger] t[i].3) by {
        if i < s.len() {
            assert(t[i] == s[i]);
            assert(lists_link(r, s[i].3));
        } else {
            assert(r[p].3 == t[i].3);
        }
    }
    assert forall|j: int| 0 <= j < r.len() implies first_with_link(t, #[trigger] r[j]) by {
        assert(first_with_link(s, r[j]));
        let i = choose|i: int| 0 <= i < s.len() && s[i] == r[j] && no_earlier_link(s, i, r[j].3);
        assert(t[i] == r[j]);
        assert forall|k: int| 0 <= k < i implies #[trigger] t[k].3 != r[j].3 by {
            assert(t[k] == s[k]);
        }
    }
}

/// Inserting a mailbox whose link is new, at its place in link order.
proof fn lemma_insert_sorted_unique(s: Seq<MailboxView>, r: Seq<MailboxView>, m: MailboxView, p: int)
    requires
        sorted_unique_by_link(s, r),
        0 <= p <= r.len(),
        forall|k: int| 0 <= k < p ==> lex_lt(#[trigger] r[k].3, m.3),
        p < r.len() ==> lex_lt(m.3, r[p].3),
    ensures
        sorted_unique_by_link(s.push(m), r.insert(p, m)),
{
    let t = s.push(m);
    let q = r.insert(p, m);
    assert forall|k: int| p <= k < r.len() implies lex_lt(m.3, #[trigger] r[k].3) by {
        if k > p {
            assert(lex_lt(r[p].3, r[k].3));
            lemma_lex_trans(m.3, r[p].3, r[k].3);
        }
    }
    assert forall|i: int, j: int| 0 <= i < j < q.len() implies lex_lt(
        #[trigger] q[i].3,
        #[trigger] q[j].3,
    ) by {
        if j < p {
            assert(q[i] == r[i] && q[j] == r[j]);
        } else if j == p {
            assert(q[i] == r[i]);
        } else if i < p {
            assert(q[i] == r[i] && q[j] == r[j - 1]);
            assert(lex_lt(m.3, r[j - 1].3));
            lemma_lex_trans(r[i].3, m.3, r[j - 1].3);
        } else if i == p {
            assert(q[j] == r[j - 1]);
        } else {
            assert(q[i] == r[i - 1] && q[j] == r[j - 1]);
        }
    }
    assert(links_increasing(q));
    assert forall|i: int| 0 <= i < s.len() implies #[trigger] s[i].3 != m.3 by {
        assert(lists_link(r, s[i].3));
        let j = choose|j: int| 0 <= j < r.len() && r[j].3 == s[i].3;
        if j < p {
            lemma_lex_total(r[j].3, m.3);
        } else {
            lemma_lex_total(m.3, r[j].3);
        }
    }
    assert forall|i: int| 0 <= i < t.len() implies lists_link(q, #[trigger] t[i].3) by {
        if i < s.len() {
            assert(t[i] == s[i]);
            assert(lists_link(r, s[i].3));
            let j = choose|j: int| 0 <= j < r.len() && r[j].3 == s[i].3;
            if j < p {
                assert(q[j] == r[j]);
            } else {
                assert(q[j + 1] == r[j]);
            }
        } else {
            assert(q[p] == m);
        }
    }
    assert forall|j: int| 0 <= j < q.len() implies first_with_link(t, #[trigger] q[j]) by {
        if j == p {
            let i = s.len() as int;
            assert(t[i] == m);
            assert forall|k: int| 0 <= k < i implies #[trigger] t[k].3 != q[j].3 by {
                assert(t[k] == s[k]);
                assert(s[k].3 != m.3);
            }
        } else {
            let jj = if j < p {
                j
            } else {
                j - 1
            };
            assert(q[j] == r[jj]);
            assert(first_with_link(s, r[jj]));
            let i = choose|i: int| 0 <= i < s.len() && s[i] == r[jj] && no_earlier_link(s, i, r[jj].3);
            assert(t[i] == q[j]);
            assert forall|k: int| 0 <= k < i implies #[trigger] t[k].3 != q[j].3 by {
                assert(t[k] == s[k]);
            }
        }
    }
}

/// What a detail page changes in a mailbox: its street lines (an absent second line
/// becomes empty), and its status, which becomes `fetched`.
pub fn apply_detail(mailbox: &mut Mailbox, detail: LocationDetailPage)
    ensures
        final(mailbox).address.line1@ == detail.line1@,
        final(mailbox).address.line2@ == match detail.line2 {
            Some(l) => l@,
            None => Seq::<char>::empty(),
        },
        final(mailbox).detail_status@ == "fetched"@,
        final(mailbox).name@ == old(mailbox).name@,
        final(mailbox).price@ == old(mailbox).price@,
        final(mailbox).link@ == old(mailbox).link@,
        final(mailbox).address.city@ == old(mailbox).address.city@,
        final(mailbox).address.state@ == old(mailbox).address.state@,
        final(mailbox).address.zip@ == old(mailbox).address.zip@,
        crate::model::opt_str(final(mailbox).address.zip4) == crate::model::opt_str(
            old(mailbox).address.zip4,
        ),
{
    mailbox.address.line1 = detail.line1;
    mailbox.address.line2 = match detail.line2 {
        Some(l) => l,
        None => String::new(),
    };
    mailbox.detail_status = String::from_str("fetched");
}

/// What a detail page, or the failure to read it, makes of a listed mailbox: with the
/// page, its street lines as `apply_detail` sets them; without it, the mailbox keeps
/// the listing's address and is marked `listing_fallback`.
pub fn settle_detail(mailbox: &mut Mailbox, detail: Result<LocationDetailPage, PageError>)
    ensures
        match detail {
            Ok(d) => {
                &&& final(mailbox).address.line1@ == d.line1@
                &&& final(mailbox).address.line2@ == match d.line2 {
                    Some(l) => l@,
                    None => Seq::<char>::empty(),
                }
                &&& final(mailbox).detail_status@ == "fetched"@
            },
            Err(_) => {
                &&& final(mailbox).address.line1@ == old(mailbox).address.line1@
                &&& final(mailbox).address.line2@ == old(mailbox).address.line2@
                &&& final(mailbox).detail_status@ == crate::page::listing_status()
            },
        },
        final(mailbox).name@ == old(mailbox).name@,
        final(mailbox).price@ == old(mailbox).price@,
        final(mailbox).link@ == old(mailbox).link@,
        final(mailbox).address.city@ == old(mailbox).address.city@,
        final(mailbox).address.state@ == old(mailbox).address.state@,
        final(mailbox).address.zip@ == old(mailbox).address.zip@,
        crate::model::opt_str(final(mailbox).address.zip4) == crate::model::opt_str(
            old(mailbox).address.zip4,
        ),
{
    match detail {
        Ok(d) => apply_detail(mailbox, d),
        Err(_) => {
            mailbox.detail_status = String::from_str("listing_fallback");
        },
    }
}

} // verus!
