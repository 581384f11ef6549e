//! A mailbox location and its postal address.
use vstd::prelude::*;

verus! {

/// A US postal address as the checks use it.
#[derive(Debug, Clone)]
pub struct Address {
    /// street address
    pub line1: String,
    /// unit, suite, etc.
    pub line2: String,
    pub city: String,
    /// two-letter state code
    pub state: String,
    /// five-digit ZIP code
    pub zip: String,
    /// optional ZIP+4 extension
    pub zip4: Option<String>,
}

/// A mailbox location offered by Anytime Mailbox.
#[derive(Debug, Clone)]
pub struct Mailbox {
    pub name: String,
    pub address: Address,
    pub price: String,
    pub link: String,
    /// `fetched` once the location's detail page gave the street lines,
    /// `listing_fallback` while they come from the state listing only.
    pub detail_status: String,
}

/// The plain value of an address: line 1, line 2, city, state, ZIP, ZIP+4.
pub type AddressView = (Seq<char>, Seq<char>, Seq<char>, Seq<char>, Seq<char>, Option<Seq<char>>);

/// The plain value of a mailbox: name, address, price, link, detail status.
pub type MailboxView = (Seq<char>, AddressView, Seq<char>, Seq<char>, Seq<char>);

impl View for Address {
    type V = AddressView;

    open spec fn view(&self) -> AddressView {
        (self.line1@, self.line2@, self.city@, self.state@, self.zip@, opt_str(self.zip4))
    }
}

impl View for Mailbox {
    type V = MailboxView;

    open spec fn view(&self) -> MailboxView {
        (self.name@, self.address@, self.price@, self.link@, self.detail_status@)
    }
}

/// The plain value of each mailbox.
pub open spec fn mailbox_views(v: Seq<Mailbox>) -> Seq<MailboxView> {
    Seq::new(v.len(), |i: int| v[i]@)
}

/// The ZIP code with its `-ZIP4` extension when there is one.
pub open spec fn full_zip_of(zip: Seq<char>, zip4: Option<Seq<char>>) -> Seq<char> {
    match zip4 {
        Some(z4) => zip + seq!['-'] + z4,
        None => zip,
    }
}

/// The contents of an optional string.
pub open spec fn opt_str(s: Option<String>) -> Option<Seq<char>> {
    match s {
        Some(x) => Some(x@),
        None => None,
    }
}

/// `a` followed by `b`, as a new `String`.
pub fn concat_str(a: &str, b: &str) -> (out: String)
    ensures
        out@ == a@ + b@,
{
    let mut out = String::from_str(a);
    out.append(b);
    out
}

/// A copy of `s`.
pub fn copy_str(s: &str) -> (out: String)
    ensures
        out@ == s@,
{
    String::from_str(s)
}

/// A copy of an optional string.
pub fn copy_opt(s: &Option<String>) -> (out: Option<String>)
    ensures
        opt_str(out) == opt_str(*s),
{
    match s {
        Some(x) => Some(copy_str(x.as_str())),
        None => None,
    }
}

/// A copy of an address, field by field.
pub fn copy_address(a: &Address) -> (out: Address)
    ensures
        same_address(out, *a),
{
    Address {
        line1: copy_str(a.line1.as_str()),
        line2: copy_str(a.line2.as_str()),
        city: copy_str(a.city.as_str()),
        state: copy_str(a.state.as_str()),
        zip: copy_str(a.zip.as_str()),
        zip4: copy_opt(&a.zip4),
    }
}

/// Two addresses hold the same text in every field.
pub open spec fn same_address(a: Address, b: Address) -> bool {
    &&& a.line1@ == b.line1@
    &&& a.line2@ == b.line2@
    &&& a.city@ == b.city@
    &&& a.state@ == b.state@
    &&& a.zip@ == b.zip@
    &&& opt_str(a.zip4) == opt_str(b.zip4)
}

/// Two mailboxes hold the same text in every field.
pub open spec fn same_mailbox(a: Mailbox, b: Mailbox) -> bool {
    &&& a.name@ == b.name@
    &&& same_address(a.address, b.address)
    &&& a.price@ == b.price@
    &&& a.link@ == b.link@
    &&& a.detail_status@ == b.detail_status@
}

/// A copy of a mailbox, field by field.
pub fn copy_mailbox(m: &Mailbox) -> (out: Mailbox)
    ensures
        same_mailbox(out, *m),
{
    Mailbox {
        name: copy_str(m.name.as_str()),
        address: copy_address(&m.address),
        price: copy_str(m.price.as_str()),
        link: copy_str(m.link.as_str()),
        detail_status: copy_str(m.detail_status.as_str()),
    }
}

impl Address {
    /// The ZIP code, with `-ZIP4` appended when the extension is known.
    pub fn full_zip(&self) -> (z: String)
        ensures
            z@ == full_zip_of(self.zip@, opt_str(self.zip4)),
    {
        match &self.zip4 {
            Some(z4) => {
                let with_dash = concat_str(self.zip.as_str(), "-");
                proof {
                    reveal_strlit("-");
                }
                concat_str(with_dash.as_str(), z4.as_str())
            },
            None => copy_str(self.zip.as_str()),
        }
    }
}

} // verus!
