//! One checked mailbox as the result files list it, and the order of the list.
use vstd::prelude::*;
use crate::model::{copy_str, full_zip_of, Address, Mailbox};
use crate::smarty::AdditionalInfo;
use crate::text::{
    chars_eq, chars_of, copy_range, eq_ignore_ascii_case, eq_ignore_case, find_from,
    find_from_exec, lemma_lex_total, lemma_lex_trans, lex_less, lex_lt, string_from_chars,
};
use crate::usps::UspsResult;

verus! {

/// The column names of the result files, in order.
pub const HEADERS: [&'static str; 21] = [
    "name",
    "street",
    "street2",
    "city",
    "state",
    "zip",
    "price",
    "link",
    "rdi",
    "CMRA",
    "smarty_status",
    "detail_status",
    "usps_status",
    "usps_address",
    "usps_zip5",
    "usps_zip4",
    "usps_dpv_confirmation",
    "usps_cmra",
    "usps_business",
    "usps_carrier_route",
    "usps_raw",
];

/// The column names of the result files, in order.
pub open spec fn header_names() -> Seq<Seq<char>> {
    seq![
        "name"@,
        "street"@,
        "street2"@,
        "city"@,
        "state"@,
        "zip"@,
        "price"@,
        "link"@,
        "rdi"@,
        "CMRA"@,
        "smarty_status"@,
        "detail_status"@,
        "usps_status"@,
        "usps_address"@,
        "usps_zip5"@,
        "usps_zip4"@,
        "usps_dpv_confirmation"@,
        "usps_cmra"@,
        "usps_business"@,
        "usps_carrier_route"@,
        "usps_raw"@
    ]
}

/// One checked mailbox: its listing and address, Smarty's verdict and the USPS lookup.
#[derive(Debug)]
pub struct Record {
    pub name: String,
    pub street: String,
    pub street2: String,
    pub city: String,
    pub state: String,
    pub zip: String,
    pub price: String,
    pub link: String,
    pub rdi: String,
    pub cmra: String,
    pub smarty_status: String,
    pub detail_status: String,
    pub usps_status: String,
    pub usps_address: String,
    pub usps_zip5: String,
    pub usps_zip4: String,
    pub usps_dpv_confirmation: String,
    pub usps_cmra: String,
    pub usps_business: String,
    pub usps_carrier_route: String,
    pub usps_raw: String,
}

/// The plain value of a record: its fields in the order of the columns.
pub type RecordView = Seq<Seq<char>>;

impl View for Record {
    type V = RecordView;

    open spec fn view(&self) -> RecordView {
        seq![
            self.name@,
            self.street@,
            self.street2@,
            self.city@,
            self.state@,
            self.zip@,
            self.price@,
            self.link@,
            self.rdi@,
            self.cmra@,
            self.smarty_status@,
            self.detail_status@,
            self.usps_status@,
            self.usps_address@,
            self.usps_zip5@,
            self.usps_zip4@,
            self.usps_dpv_confirmation@,
            self.usps_cmra@,
            self.usps_business@,
            self.usps_carrier_route@,
            self.usps_raw@
        ]
    }
}

/// The column positions of the fields.
pub open spec fn col_street() -> int { 1 }
pub open spec fn col_street2() -> int { 2 }
pub open spec fn col_city() -> int { 3 }
pub open spec fn col_state() -> int { 4 }
pub open spec fn col_zip() -> int { 5 }
pub open spec fn col_link() -> int { 7 }
pub open spec fn col_rdi() -> int { 8 }
pub open spec fn col_cmra() -> int { 9 }
pub open spec fn col_smarty_status() -> int { 10 }
pub open spec fn col_detail_status() -> int { 11 }
pub open spec fn col_usps_status() -> int { 12 }

/// The record of a mailbox with Smarty's verdict and the USPS lookup.
pub open spec fn record_of(m: crate::model::MailboxView, info: (Seq<char>, Seq<char>, Seq<char>), u: crate::usps::UspsView) -> RecordView {
    let (name, a, price, link, detail) = m;
    seq![
        name,
        a.0,
        a.1,
        a.2,
        a.3,
        full_zip_of(a.4, a.5),
        price,
        link,
        info.2,
        info.1,
        info.0,
        detail,
        u.status,
        u.address,
        u.zip5,
        u.zip4,
        u.dpv_confirmation,
        u.cmra,
        u.business,
        u.carrier_route,
        u.raw,
    ]
}

/// The record with the USPS fields replaced by those of `u`.
pub open spec fn with_usps(r: RecordView, u: crate::usps::UspsView) -> RecordView {
    r.subrange(0, 12) + seq![
        u.status,
        u.address,
        u.zip5,
        u.zip4,
        u.dpv_confirmation,
        u.cmra,
        u.business,
        u.carrier_route,
        u.raw,
    ]
}

/// The address a record holds: its ZIP column split at the first `-` into the ZIP
/// code and its extension.
pub open spec fn record_address(r: RecordView) -> crate::model::AddressView {
    let zip = r[col_zip()];
    match find_from(zip, seq!['-'], 0) {
        Some(j) => (r[col_street()], r[col_street2()], r[col_city()], r[col_state()], zip.subrange(0, j), Some(zip.subrange(j + 1, zip.len() as int))),
        None => (r[col_street()], r[col_street2()], r[col_city()], r[col_state()], zip, None),
    }
}

/// A record enters the preferred list: its detail page was read, Smarty matched it,
/// and Smarty says it is not a CMRA.
pub open spec fn is_non_cmra(r: RecordView) -> bool {
    &&& r[col_detail_status()] == "fetched"@
    &&& r[col_smarty_status()] == "matched"@
    &&& r[col_cmra()] == "N"@
}

/// Residential addresses first, then commercial, then the rest. The words are
/// compared up to ASCII case, which on these two words is what comparing the
/// lower-cased indicator (`str::to_lowercase`) amounts to: the only non-ASCII
/// character whose lower case is an ASCII letter is the Kelvin sign (`k`).
pub open spec fn rdi_rank(rdi: Seq<char>) -> u8 {
    if eq_ignore_ascii_case(rdi, "residential"@) {
        0
    } else if eq_ignore_ascii_case(rdi, "commercial"@) {
        1
    } else {
        2
    }
}

/// The order of the result files: by RDI rank, then state, city and link.
pub type SortKey = (u8, Seq<char>, Seq<char>, Seq<char>);

/// The key a record is ordered by.
pub open spec fn key_of(r: RecordView) -> SortKey {
    (rdi_rank(r[col_rdi()]), r[col_state()], r[col_city()], r[col_link()])
}

/// Key `a` comes strictly before key `b`.
pub open spec fn key_lt(a: SortKey, b: SortKey) -> bool {
    ||| a.0 < b.0
    ||| a.0 == b.0 && lex_lt(a.1, b.1)
    ||| a.0 == b.0 && a.1 == b.1 && lex_lt(a.2, b.2)
    ||| a.0 == b.0 && a.1 == b.1 && a.2 == b.2 && lex_lt(a.3, b.3)
}

impl Record {
    /// The record of a mailbox with Smarty's verdict and the USPS lookup.
    pub fn new(mailbox: Mailbox, info: AdditionalInfo, usps: UspsResult) -> (r: Record)
        ensures
            r@ == record_of(mailbox@, info@, usps@),
    {
        let zip = mailbox.address.full_zip();
        Record {
            zip,
            name: mailbox.name,
            street: mailbox.address.line1,
            street2: mailbox.address.line2,
            city: mailbox.address.city,
            state: mailbox.address.state,
            price: mailbox.price,
            link: mailbox.link,
            rdi: info.rdi,
            cmra: info.cmra,
            smarty_status: info.status,
            detail_status: mailbox.detail_status,
            usps_status: usps.status,
            usps_address: usps.address,
            usps_zip5: usps.zip5,
            usps_zip4: usps.zip4,
            usps_dpv_confirmation: usps.dpv_confirmation,
            usps_cmra: usps.cmra,
            usps_business: usps.business,
            usps_carrier_route: usps.carrier_route,
            usps_raw: usps.raw,
        }
    }

    /// The address the record holds.
    pub fn address(&self) -> (a: Address)
        ensures
            a@ == record_address(self@),
    {
        let zip = chars_of(self.zip.as_str());
        let mut dash: Vec<char> = Vec::new();
        dash.push('-');
        let (z, z4) = match find_from_exec(zip.as_slice(), dash.as_slice(), 0) {
            Some(j) => {
                proof {
                    crate::page::lemma_find_bounds(zip@, dash@, 0);
                }
                let n = zip.len();
                let a = copy_range(zip.as_slice(), 0, j);
                let b = copy_range(zip.as_slice(), j + 1, n);
                (string_from_chars(a.as_slice()), Some(string_from_chars(b.as_slice())))
            },
            None => (copy_str(self.zip.as_str()), None),
        };
        Address {
            line1: copy_str(self.street.as_str()),
            line2: copy_str(self.street2.as_str()),
            city: copy_str(self.city.as_str()),
            state: copy_str(self.state.as_str()),
            zip: z,
            zip4: z4,
        }
    }

    /// Replaces the USPS fields with those of a new lookup; nothing else changes.
    pub fn set_usps(&mut self, usps: UspsResult)
        ensures
            final(self)@ == with_usps(old(self)@, usps@),
    {
        self.usps_status = usps.status;
        self.usps_address = usps.address;
        self.usps_zip5 = usps.zip5;
        self.usps_zip4 = usps.zip4;
        self.usps_dpv_confirmation = usps.dpv_confirmation;
        self.usps_cmra = usps.cmra;
        self.usps_business = usps.business;
        self.usps_carrier_route = usps.carrier_route;
        self.usps_raw = usps.raw;
        assert(self@ =~= with_usps(old(self)@, usps@));
    }

    /// Whether the record enters the preferred list.
    pub fn non_cmra(&self) -> (r: bool)
        ensures
            r == is_non_cmra(self@),
    {
        let d = chars_of(self.detail_status.as_str());
        let s = chars_of(self.smarty_status.as_str());
        let c = chars_of(self.cmra.as_str());
        let fetched = chars_of("fetched");
        let matched = chars_of("matched");
        let n = chars_of("N");
        chars_eq(d.as_slice(), fetched.as_slice()) && chars_eq(s.as_slice(), matched.as_slice())
            && chars_eq(c.as_slice(), n.as_slice())
    }

    /// The key the result files are ordered by.
    pub fn sort_key(&self) -> (k: (u8, &str, &str, &str))
        ensures
            (k.0, k.1@, k.2@, k.3@) == key_of(self@),
    {
        let rdi = chars_of(self.rdi.as_str());
        let residential = chars_of("residential");
        let commercial = chars_of("commercial");
        let rank: u8 = if eq_ignore_case(rdi.as_slice(), residential.as_slice()) {
            0
        } else if eq_ignore_case(rdi.as_slice(), commercial.as_slice()) {
            1
        } else {
            2
        };
        (rank, self.state.as_str(), self.city.as_str(), self.link.as_str())
    }

    /// The record's fields in the order of the columns.
    pub fn csv_fields(&self) -> (r: Vec<String>)
        ensures
            crate::scrape::string_views(r@) == self@,
    {
        let mut out: Vec<String> = Vec::new();
        out.push(copy_str(self.name.as_str()));
        out.push(copy_str(self.street.as_str()));
        out.push(copy_str(self.street2.as_str()));
        out.push(copy_str(self.city.as_str()));
        out.push(copy_str(self.state.as_str()));
        out.push(copy_str(self.zip.as_str()));
        out.push(copy_str(self.price.as_str()));
        out.push(copy_str(self.link.as_str()));
        out.push(copy_str(self.rdi.as_str()));
        out.push(copy_str(self.cmra.as_str()));
        out.push(copy_str(self.smarty_status.as_str()));
        out.push(copy_str(self.detail_status.as_str()));
        out.push(copy_str(self.usps_status.as_str()));
        out.push(copy_str(self.usps_address.as_str()));
        out.push(copy_str(self.usps_zip5.as_str()));
        out.push(copy_str(self.usps_zip4.as_str()));
        out.push(copy_str(self.usps_dpv_confirmation.as_str()));
        out.push(copy_str(self.usps_cmra.as_str()));
        out.push(copy_str(self.usps_business.as_str()));
        out.push(copy_str(self.usps_carrier_route.as_str()));
        out.push(copy_str(self.usps_raw.as_str()));
        assert(crate::scrape::string_views(out@) =~= self@);
        out
    }
}

// ---------------------------------------------------------------------------
// Ordering the result files
// ---------------------------------------------------------------------------

/// The records of `s` whose key is `k`, in order.
pub open spec fn with_key(s: Seq<RecordView>, k: SortKey) -> Seq<RecordView>
    decreases s.len(),
{
    if s.len() == 0 {
        Seq::empty()
    } else if key_of(s.last()) == k {
        with_key(s.drop_last(), k).push(s.last())
    } else {
        with_key(s.drop_last(), k)
    }
}

/// The keys of `r` never decrease.
pub open spec fn sorted_by_key(r: Seq<RecordView>) -> bool {
    forall|i: int, j: int| 0 <= i < j < r.len() ==> !key_lt(key_of(#[trigger] r[j]), key_of(#[trigger] r[i]))
}

/// `r` is `s` sorted by key, records with equal keys keeping their order (what a
/// stable sort gives).
pub open spec fn stable_sort_of(s: Seq<RecordView>, r: Seq<RecordView>) -> bool {
    &&& sorted_by_key(r)
    &&& forall|k: SortKey| #[trigger] with_key(r, k) == with_key(s, k)
}

/// The plain value of each record.
pub open spec fn record_views(v: Seq<Record>) -> Seq<RecordView> {
    Seq::new(v.len(), |i: int| v[i]@)
}

/// `key_lt` is a strict total order.
pub proof fn lemma_key_total(a: SortKey, b: SortKey)
    ensures
        key_lt(a, b) || a == b || key_lt(b, a),
        !(key_lt(a, b) && key_lt(b, a)),
        !key_lt(a, a),
{
    lemma_lex_total(a.1, b.1);
    lemma_lex_total(a.2, b.2);
    lemma_lex_total(a.3, b.3);
    lemma_lex_total(a.1, a.1);
    lemma_lex_total(a.2, a.2);
    lemma_lex_total(a.3, a.3);
}

/// `key_lt` is transitive.
pub proof fn lemma_key_trans(a: SortKey, b: SortKey, c: SortKey)
    requires
        key_lt(a, b),
        key_lt(b, c),
    ensures
        key_lt(a, c),
{
    lemma_lex_total(a.1, b.1);
    lemma_lex_total(b.1, c.1);
    lemma_lex_total(a.1, c.1);
    lemma_lex_total(a.2, b.2);
    lemma_lex_total(b.2, c.2);
    lemma_lex_total(a.2, c.2);
    lemma_lex_total(a.3, b.3);
    lemma_lex_total(b.3, c.3);
    lemma_lex_total(a.3, c.3);
    if a.0 == b.0 && b.0 == c.0 {
        if lex_lt(a.1, b.1) && lex_lt(b.1, c.1) {
            lemma_lex_trans(a.1, b.1, c.1);
        } else if a.1 == b.1 && b.1 == c.1 {
            if lex_lt(a.2, b.2) && lex_lt(b.2, c.2) {
                lemma_lex_trans(a.2, b.2, c.2);
            } else if a.2 == b.2 && b.2 == c.2 {
                lemma_lex_trans(a.3, b.3, c.3);
            }
        }
    }
}

/// Inserting `x` where everything before is not above it and everything after is
/// above it adds `x` to the records of its key only.
proof fn lemma_with_key_insert(r: Seq<RecordView>, p: int, x: RecordView, k: SortKey)
    requires
        0 <= p <= r.len(),
        forall|j: int| p <= j < r.len() ==> key_lt(key_of(x), key_of(#[trigger] r[j])),
    ensures
        with_key(r.insert(p, x), k) == if key_of(x) == k {
            with_key(r, k).push(x)
        } else {
            with_key(r, k)
        },
    decreases r.len(),
{
    let q = r.insert(p, x);
    if p == r.len() {
        assert(q.drop_last() =~= r);
        assert(q.last() == x);
    } else {
        assert(q.drop_last() =~= r.drop_last().insert(p, x));
        assert(q.last() == r.last());
        lemma_with_key_insert(r.drop_last(), p, x, k);
        lemma_key_total(key_of(x), key_of(r.last()));
    }
}

/// Whether `a` comes strictly before `b` in the order of the result files.
pub fn key_less(a: &Record, b: &Record) -> (r: bool)
    ensures
        r == key_lt(key_of(a@), key_of(b@)),
{
    let ka = a.sort_key();
    let kb = b.sort_key();
    if ka.0 != kb.0 {
        return ka.0 < kb.0;
    }
    let a1 = chars_of(ka.1);
    let b1 = chars_of(kb.1);
    if !chars_eq(a1.as_slice(), b1.as_slice()) {
        return lex_less(a1.as_slice(), b1.as_slice());
    }
    proof {
        lemma_lex_total(a1@, a1@);
    }
    let a2 = chars_of(ka.2);
    let b2 = chars_of(kb.2);
    if !chars_eq(a2.as_slice(), b2.as_slice()) {
        return lex_less(a2.as_slice(), b2.as_slice());
    }
    proof {
        lemma_lex_total(a2@, a2@);
    }
    let a3 = chars_of(ka.3);
    let b3 = chars_of(kb.3);
    lex_less(a3.as_slice(), b3.as_slice())
}

/// The records sorted by key; records with equal keys keep their order.
pub fn sort_records(records: Vec<Record>) -> (r: Vec<Record>)
    ensures
        stable_sort_of(record_views(records@), record_views(r@)),
{
    let ghost all = record_views(records@);
    let n = records.len();
    let mut rest = records;
    let mut out: Vec<Record> = Vec::new();
    let mut i: usize = 0;
    assert(all.subrange(0, 0) =~= Seq::<RecordView>::empty());
    while rest.len() > 0
        invariant
            i <= n,
            all.len() == n,
            record_views(rest@) == all.subrange(i as int, n as int),
            sorted_by_key(record_views(out@)),
            forall|k: SortKey| #[trigger] with_key(record_views(out@), k) == with_key(all.subrange(0, i as int), k),
        decreases rest@.len(),
    {
        let ghost before_rest = rest@;
        assert(record_views(before_rest).len() == before_rest.len());
        assert(i < n);
        let x = rest.remove(0);
        assert(x == before_rest[0]);
        assert(record_views(before_rest)[0] == x@);
        assert(all.subrange(i as int, n as int)[0] == all[i as int]);
        assert(all[i as int] == x@);
        assert(rest@ =~= before_rest.subrange(1, before_rest.len() as int));
        assert forall|j: int| 0 <= j < rest@.len() implies record_views(rest@)[j] == all.subrange(
            i + 1,
            n as int,
        )[j] by {
            assert(record_views(before_rest)[j + 1] == before_rest[j + 1]@);
            assert(all.subrange(i as int, n as int)[j + 1] == all[i + 1 + j]);
        }
        assert(record_views(rest@) =~= all.subrange(i + 1, n as int));
        let ghost ov = record_views(out@);
        let mut p: usize = 0;
        while p < out.len() && !key_less(&x, &out[p])
            invariant
                p <= out@.len(),
                ov == record_views(out@),
                forall|q: int| 0 <= q < p ==> !key_lt(key_of(x@), key_of(#[trigger] ov[q])),
            decreases out@.len() - p,
        {
            assert(ov[p as int] == out@[p as int]@);
            p = p + 1;
        }
        proof {
            if p < ov.len() {
                assert(ov[p as int] == out@[p as int]@);
                assert forall|j: int| p <= j < ov.len() implies key_lt(key_of(x@), key_of(#[trigger] ov[j])) by {
                    if j > p {
                        lemma_key_total(key_of(ov[p as int]), key_of(ov[j]));
                        assert(!key_lt(key_of(ov[j]), key_of(ov[p as int])));
                        if key_of(ov[p as int]) != key_of(ov[j]) {
                            lemma_key_trans(key_of(x@), key_of(ov[p as int]), key_of(ov[j]));
                        }
                    }
                }
            }
            let nv = ov.insert(p as int, x@);
            assert forall|a: int, b: int| 0 <= a < b < nv.len() implies !key_lt(key_of(#[trigger] nv[b]), key_of(#[trigger] nv[a])) by {
                if b < p {
                    assert(nv[a] == ov[a] && nv[b] == ov[b]);
                } else if b == p {
                    assert(nv[a] == ov[a]);
                    lemma_key_total(key_of(x@), key_of(ov[a]));
                } else if a < p {
                    assert(nv[a] == ov[a] && nv[b] == ov[b - 1]);
                    lemma_key_total(key_of(x@), key_of(ov[a]));
                    lemma_key_total(key_of(ov[b - 1]), key_of(ov[a]));
                    if key_lt(key_of(ov[b - 1]), key_of(ov[a])) {
                        if key_of(x@) == key_of(ov[a]) {
                        } else {
                            lemma_key_trans(key_of(ov[a]), key_of(x@), key_of(ov[b - 1]));
                            lemma_key_total(key_of(ov[a]), key_of(ov[b - 1]));
                        }
                    }
                } else if a == p {
                    assert(nv[b] == ov[b - 1]);
                    lemma_key_total(key_of(x@), key_of(ov[b - 1]));
                } else {
                    assert(nv[a] == ov[a - 1] && nv[b] == ov[b - 1]);
                }
            }
            assert forall|k: SortKey| #[trigger] with_key(nv, k) == with_key(all.subrange(0, i + 1), k) by {
                lemma_with_key_insert(ov, p as int, x@, k);
                assert(all.subrange(0, i + 1).drop_last() =~= all.subrange(0, i as int));
                assert(all.subrange(0, i + 1).last() == x@);
            }
        }
        out.insert(p, x);
        assert(record_views(out@) =~= ov.insert(p as int, x@));
        i = i + 1;
    }
    assert(all.subrange(0, n as int) =~= all);
    out
}

// ---------------------------------------------------------------------------
// Rows of the result files
// ---------------------------------------------------------------------------

/// Why a row of a result file is not a record.
#[derive(Debug, Clone, Copy, PartialEq, Eq, Structural)]
pub enum RowError {
    /// the row and the header line have different lengths
    LengthMismatch,
    /// the column of this field (a position in `HEADERS`) appears twice
    Duplicate { field: usize },
    /// no column holds this field (a position in `HEADERS`)
    Missing { field: usize },
}

/// The position in `HEADERS` of a column name.
pub open spec fn field_index_from(name: Seq<char>, f: int) -> Option<int>
    decreases 21 - f,
{
    if f < 0 || f >= 21 {
        None
    } else if header_names()[f] == name {
        Some(f)
    } else {
        field_index_from(name, f + 1)
    }
}

/// The first column at or after `c` with the name `name`.
pub open spec fn column_of(headers: Seq<Seq<char>>, name: Seq<char>, c: int) -> Option<int>
    decreases headers.len() - c,
{
    if c < 0 || c >= headers.len() {
        None
    } else if headers[c] == name {
        Some(c)
    } else {
        column_of(headers, name, c + 1)
    }
}

/// Column `c` names a field that an earlier column already names.
pub open spec fn repeats(headers: Seq<Seq<char>>, c: int) -> bool {
    field_index_from(headers[c], 0) is Some && column_of(headers, headers[c], 0) != Some(c)
}

/// The first column at or after `c` that repeats a field.
pub open spec fn first_repeat(headers: Seq<Seq<char>>, c: int) -> Option<int>
    decreases headers.len() - c,
{
    if c < 0 || c >= headers.len() {
        None
    } else if repeats(headers, c) {
        Some(c)
    } else {
        first_repeat(headers, c + 1)
    }
}

/// The first field at or after `f` that no column names.
pub open spec fn first_missing(headers: Seq<Seq<char>>, f: int) -> Option<int>
    decreases 21 - f,
{
    if f < 0 || f >= 21 {
        None
    } else if column_of(headers, header_names()[f], 0) is None {
        Some(f)
    } else {
        first_missing(headers, f + 1)
    }
}

/// The record a row gives, its values taken by the names of the columns: the
/// first repeated field column, then the first field without a column, is refused.
pub open spec fn record_from_row(headers: Seq<Seq<char>>, row: Seq<Seq<char>>) -> Result<RecordView, RowError> {
    if headers.len() != row.len() {
        Err(RowError::LengthMismatch)
    } else {
        match first_repeat(headers, 0) {
            Some(c) => Err(RowError::Duplicate { field: field_index_from(headers[c], 0)->Some_0 as usize }),
            None => match first_missing(headers, 0) {
                Some(f) => Err(RowError::Missing { field: f as usize }),
                None => Ok(Seq::new(21, |f: int| row[column_of(headers, header_names()[f], 0)->Some_0])),
            },
        }
    }
}

/// The position in `HEADERS` of a column name.
fn field_index(name: &[char]) -> (r: Option<usize>)
    ensures
        match r {
            Some(f) => field_index_from(name@, 0) == Some(f as int),
            None => field_index_from(name@, 0) is None,
        },
{
    let mut f: usize = 0;
    while f < 21
        invariant
            f <= 21,
            field_index_from(name@, 0) == field_index_from(name@, f as int),
        decreases 21 - f,
    {
        let h = chars_of(HEADERS[f]);
        assert(HEADERS@[f as int]@ == header_names()[f as int]);
        if chars_eq(h.as_slice(), name) {
            return Some(f);
        }
        f = f + 1;
    }
    None
}

/// The first column with the name `name`.
fn column(headers: &Vec<Vec<char>>, name: &[char]) -> (r: Option<usize>)
    ensures
        match r {
            Some(c) => column_of(crate::text::views(headers@), name@, 0) == Some(c as int),
            None => column_of(crate::text::views(headers@), name@, 0) is None,
        },
{
    let ghost hv = crate::text::views(headers@);
    let mut c: usize = 0;
    while c < headers.len()
        invariant
            c <= headers@.len(),
            hv == crate::text::views(headers@),
            column_of(hv, name@, 0) == column_of(hv, name@, c as int),
        decreases headers@.len() - c,
    {
        if chars_eq(headers[c].as_slice(), name) {
            return Some(c);
        }
        c = c + 1;
    }
    None
}

impl Record {
    /// The record a row of a result file gives, its values taken by column name.
    pub fn from_csv_row(headers: &Vec<String>, row: &Vec<String>) -> (r: Result<Record, RowError>)
        ensures
            match r {
                Ok(rec) => record_from_row(crate::scrape::string_views(headers@), crate::scrape::string_views(row@)) == Ok::<RecordView, RowError>(rec@),
                Err(e) => record_from_row(crate::scrape::string_views(headers@), crate::scrape::string_views(row@)) == Err::<RecordView, RowError>(e),
            },
    {
        let ghost hs = crate::scrape::string_views(headers@);
        let ghost rs = crate::scrape::string_views(row@);
        if headers.len() != row.len() {
            return Err(RowError::LengthMismatch);
        }
        let mut hc: Vec<Vec<char>> = Vec::new();
        let mut k: usize = 0;
        while k < headers.len()
            invariant
                k <= headers@.len(),
                hs == crate::scrape::string_views(headers@),
                crate::text::views(hc@) == hs.subrange(0, k as int),
            decreases headers@.len() - k,
        {
            let h = chars_of(headers[k].as_str());
            assert(h@ == hs[k as int]);
            let ghost before = hc@;
            hc.push(h);
            assert(crate::text::views(hc@) =~= crate::text::views(before).push(hs[k as int]));
            assert(crate::text::views(hc@) =~= hs.subrange(0, k + 1));
            k = k + 1;
        }
        assert(hs.subrange(0, headers@.len() as int) =~= hs);
        let mut c: usize = 0;
        while c < hc.len()
            invariant
                c <= hc@.len(),
                crate::text::views(hc@) == hs,
                hs.len() == rs.len(),
                rs == crate::scrape::string_views(row@),
                hs == crate::scrape::string_views(headers@),
                first_repeat(hs, 0) == first_repeat(hs, c as int),
            decreases hc@.len() - c,
        {
            assert(hc@[c as int]@ == hs[c as int]);
            match field_index(hc[c].as_slice()) {
                Some(f) => {
                    let first = column(&hc, hc[c].as_slice());
                    let is_first = match first {
                        Some(x) => x == c,
                        None => false,
                    };
                    if !is_first {
                        return Err(RowError::Duplicate { field: f });
                    }
                },
                None => {},
            }
            c = c + 1;
        }
        let mut values: Vec<String> = Vec::new();
        let mut f: usize = 0;
        while f < 21
            invariant
                f <= 21,
                crate::text::views(hc@) == hs,
                hs.len() == rs.len(),
                rs == crate::scrape::string_views(row@),
                first_repeat(hs, 0) is None,
                hs == crate::scrape::string_views(headers@),
                first_missing(hs, 0) == first_missing(hs, f as int),
                forall|g: int| 0 <= g < f ==> column_of(hs, #[trigger] header_names()[g], 0) is Some,
                crate::scrape::string_views(values@) == Seq::new(f as nat, |g: int| rs[column_of(hs, header_names()[g], 0)->Some_0]),
            decreases 21 - f,
        {
            let name = chars_of(HEADERS[f]);
            assert(HEADERS@[f as int]@ == header_names()[f as int]);
            match column(&hc, name.as_slice()) {
                None => return Err(RowError::Missing { field: f }),
                Some(col) => {
                    proof {
                        lemma_column_bounds(hs, name@, 0);
                    }
                    let ghost before = values@;
                    let v = copy_str(row[col].as_str());
                    assert(v@ == rs[col as int]);
                    assert(col as int == column_of(hs, header_names()[f as int], 0)->Some_0);
                    values.push(v);
                    assert(crate::scrape::string_views(values@) =~= crate::scrape::string_views(before).push(v@));
                    assert(crate::scrape::string_views(values@) =~= Seq::new(
                        (f + 1) as nat,
                        |g: int| rs[column_of(hs, header_names()[g], 0)->Some_0],
                    ));
                },
            }
            f = f + 1;
        }
        let rec = Record {
        name: copy_str(values[0].as_str()),
        street: copy_str(values[1].as_str()),
        street2: copy_str(values[2].as_str()),
        city: copy_str(values[3].as_str()),
        state: copy_str(values[4].as_str()),
        zip: copy_str(values[5].as_str()),
        price: copy_str(values[6].as_str()),
        link: copy_str(values[7].as_str()),
        rdi: copy_str(values[8].as_str()),
        cmra: copy_str(values[9].as_str()),
        smarty_status: copy_str(values[10].as_str()),
        detail_status: copy_str(values[11].as_str()),
        usps_status: copy_str(values[12].as_str()),
        usps_address: copy_str(values[13].as_str()),
        usps_zip5: copy_str(values[14].as_str()),
        usps_zip4: copy_str(values[15].as_str()),
        usps_dpv_confirmation: copy_str(values[16].as_str()),
        usps_cmra: copy_str(values[17].as_str()),
        usps_business: copy_str(values[18].as_str()),
        usps_carrier_route: copy_str(values[19].as_str()),
        usps_raw: copy_str(values[20].as_str()),
        };
        assert(rec@ =~= Seq::new(21, |g: int| rs[column_of(hs, header_names()[g], 0)->Some_0]));
        Ok(rec)
    }
}

/// A column that `column_of` reports lies inside the header line and has the name.
proof fn lemma_column_bounds(headers: Seq<Seq<char>>, name: Seq<char>, c: int)
    ensures
        match column_of(headers, name, c) {
            Some(x) => c <= x < headers.len() && headers[x] == name,
            None => true,
        },
    decreases headers.len() - c,
{
    if c >= 0 && c < headers.len() && headers[c] != name {
        lemma_column_bounds(headers, name, c + 1);
    }
}

} // verus!
