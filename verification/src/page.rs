//! The three kinds of Anytime Mailbox page the crawl reads: the country page
//! (links to the states), a state page (the locations listed there) and a
//! location's detail page (its exact street lines).
use vstd::prelude::*;
use crate::config::state_code;
use crate::model::{concat_str, copy_str, opt_str, Address, Mailbox};
use crate::scrape::{
    captures_all, is_match, opt_element_view, opt_string_views, regex_captures, regex_matches,
    scrape_children, scrape_items, scraped_children, scraped_items, string_views, ChildView,
    ElementView, ItemView, ScrapedChild, ScrapedElement, ScrapedItem,
};
use crate::text::{
    chars_of, concat, copy_range, ends_with_ignore_ascii_case, eq_ignore_ascii_case,
    eq_ignore_case, find_from, find_from_exec, first_word, first_word_chars, join, join_chars,
    opt_view, remove_all, remove_all_chars, second_word, second_word_chars, split_char,
    split_chars, starts_with, starts_with_exec, string_from_chars, trim, trim_chars,
    trim_end_char, trim_end_char_chars, views,
};

verus! {

/// The site all page links are relative to.
pub const BASE_URL: &'static str = "https://www.anytimemailbox.com";

/// A state link on the country page.
pub const STATE_LINK_PATTERN: &'static str = "<a class='theme-simple-link' href='(.*?)'>(.*?)</a>";

/// The path prefix of the US state pages.
pub const US_STATE_PREFIX: &'static str = "/l/usa/";

/// A `City, ST 12345` or `City, ST 12345-6789` line.
pub const CITY_STATE_ZIP_PATTERN: &'static str = ",\\s*[A-Z]{2}\\s+\\d{5}(?:-\\d{4})?\\s*$";

/// A location on a state page.
pub const LOCATION_ITEM_SELECTOR: &'static str = "div[class=\"theme-location-item\"]";

/// The title of a location.
pub const LOCATION_TITLE_SELECTOR: &'static str = "h3[class=\"t-title\"]";

/// The price of a location.
pub const LOCATION_PRICE_SELECTOR: &'static str = "div[class=\"t-price\"]";

/// The address block of a location.
pub const LOCATION_ADDRESS_SELECTOR: &'static str = "div[class=\"t-addr\"]";

/// The plan button of a location.
pub const LOCATION_PLAN_SELECTOR: &'static str = "a[class~=\"gt-plan\"]";

/// The address block of a detail page.
pub const DETAIL_CONTAINER_SELECTOR: &'static str = "div[class=\"t-sec1\"] div[class=\"t-text\"]";

/// One line of the detail address block.
pub const DETAIL_LINE_SELECTOR: &'static str = ":scope > div";

/// A placeholder for the customer's name or mailbox number.
pub const PLACEHOLDER_SELECTOR: &'static str = ".t-placeholder";

/// Why a page could not be read.
#[derive(Debug, Clone)]
pub enum PageError {
    /// a selector or pattern did not compile
    BadPattern,
    /// a state link match had an unexpected number of groups
    UnexpectedCaptures { count: usize },
    /// a state link match lacked a group
    MissingGroup,
    /// the country page links to no US state
    NoStates,
    /// a location has no title (the location's HTML)
    NoTitle { html: String },
    /// a location has no price (the location's HTML)
    NoPrice { html: String },
    /// a location has no address (the location's HTML)
    NoAddress { html: String },
    /// an address block has fewer than two lines (the block's HTML)
    SplitAddress { address: String },
    /// a location has no plan button (the location's HTML)
    NoPlanButton { html: String },
    /// a plan button has no link (the location's HTML)
    NoPlanLink { html: String },
    /// the state page lists no location
    NoLocations,
    /// the detail page has no address block
    NoDetailContainer,
    /// no detail line is a city/state/ZIP line
    NoCityLine,
    /// the city/state/ZIP line is the first detail line
    NoStreetLine,
    /// no ZIP code in the city/state/ZIP line (that line)
    NoZip { line2: String },
    /// no state in the city/state/ZIP line
    MissingState,
    /// the state is not a US state
    InvalidState,
}

/// The plain value of a `PageError`.
pub enum PageFault {
    BadPattern,
    UnexpectedCaptures(usize),
    MissingGroup,
    NoStates,
    NoTitle(Seq<char>),
    NoPrice(Seq<char>),
    NoAddress(Seq<char>),
    SplitAddress(Seq<char>),
    NoPlanButton(Seq<char>),
    NoPlanLink(Seq<char>),
    NoLocations,
    NoDetailContainer,
    NoCityLine,
    NoStreetLine,
    NoZip(Seq<char>),
    MissingState,
    InvalidState,
}

impl View for PageError {
    type V = PageFault;

    open spec fn view(&self) -> PageFault {
        match self {
            PageError::BadPattern => PageFault::BadPattern,
            PageError::UnexpectedCaptures { count } => PageFault::UnexpectedCaptures(*count),
            PageError::MissingGroup => PageFault::MissingGroup,
            PageError::NoStates => PageFault::NoStates,
            PageError::NoTitle { html } => PageFault::NoTitle(html@),
            PageError::NoPrice { html } => PageFault::NoPrice(html@),
            PageError::NoAddress { html } => PageFault::NoAddress(html@),
            PageError::SplitAddress { address } => PageFault::SplitAddress(address@),
            PageError::NoPlanButton { html } => PageFault::NoPlanButton(html@),
            PageError::NoPlanLink { html } => PageFault::NoPlanLink(html@),
            PageError::NoLocations => PageFault::NoLocations,
            PageError::NoDetailContainer => PageFault::NoDetailContainer,
            PageError::NoCityLine => PageFault::NoCityLine,
            PageError::NoStreetLine => PageFault::NoStreetLine,
            PageError::NoZip { line2 } => PageFault::NoZip(line2@),
            PageError::MissingState => PageFault::MissingState,
            PageError::InvalidState => PageFault::InvalidState,
        }
    }
}

// ---------------------------------------------------------------------------
// Country page
// ---------------------------------------------------------------------------

/// A state listed on the country page: the path of its page and its name.
#[derive(Debug, Clone)]
pub struct StateHtmlInfo {
    sub_url: String,
    name: String,
}

impl View for StateHtmlInfo {
    type V = (Seq<char>, Seq<char>);

    closed spec fn view(&self) -> (Seq<char>, Seq<char>) {
        (self.sub_url@, self.name@)
    }
}

impl StateHtmlInfo {
    /// A state with the given page path and name.
    pub fn new(sub_url: String, name: String) -> (s: StateHtmlInfo)
        ensures
            s@ == (sub_url@, name@),
    {
        StateHtmlInfo { sub_url, name }
    }

    /// The path of the state's page.
    pub fn url(&self) -> (r: &str)
        ensures
            r@ == self@.0,
    {
        self.sub_url.as_str()
    }

    /// The state's name.
    pub fn name(&self) -> (r: &str)
        ensures
            r@ == self@.1,
    {
        self.name.as_str()
    }
}

/// The country page: the US states it links to, in page order.
#[derive(Debug, Clone)]
pub struct CountryPage {
    pub states: Vec<StateHtmlInfo>,
}

/// The plain value of each state.
pub open spec fn state_views(v: Seq<StateHtmlInfo>) -> Seq<(Seq<char>, Seq<char>)> {
    Seq::new(v.len(), |i: int| v[i]@)
}

/// The state links from the matches at and after `i`: a match needs exactly three
/// groups (the whole match, the path, the name); links outside `/l/usa/` are skipped.
pub open spec fn links_from(caps: Seq<Seq<Option<Seq<char>>>>, i: int) -> Result<
    Seq<(Seq<char>, Seq<char>)>,
    PageFault,
>
    decreases caps.len() - i,
{
    if i < 0 || i >= caps.len() {
        Ok(Seq::empty())
    } else if caps[i].len() != 3 {
        Err(PageFault::UnexpectedCaptures(caps[i].len() as usize))
    } else if caps[i][1] is None || caps[i][2] is None {
        Err(PageFault::MissingGroup)
    } else {
        match links_from(caps, i + 1) {
            Err(e) => Err(e),
            Ok(rest) => if starts_with(caps[i][1]->Some_0, US_STATE_PREFIX@) {
                Ok(seq![(caps[i][1]->Some_0, caps[i][2]->Some_0)] + rest)
            } else {
                Ok(rest)
            },
        }
    }
}

/// What the country page gives for the matches of the state link pattern.
pub open spec fn country_page_from(caps: Option<Seq<Seq<Option<Seq<char>>>>>) -> Result<
    Seq<(Seq<char>, Seq<char>)>,
    PageFault,
> {
    match caps {
        None => Err(PageFault::BadPattern),
        Some(c) => match links_from(c, 0) {
            Err(e) => Err(e),
            Ok(links) => if links.len() == 0 {
                Err(PageFault::NoStates)
            } else {
                Ok(links)
            },
        },
    }
}

impl CountryPage {
    /// The US states that the country page links to.
    pub fn parse_html(html: &str) -> (r: Result<CountryPage, PageError>)
        ensures
            match r {
                Ok(page) => country_page_from(regex_captures(STATE_LINK_PATTERN@, html@)) == Ok::<
                    Seq<(Seq<char>, Seq<char>)>,
                    PageFault,
                >(state_views(page.states@)),
                Err(e) => country_page_from(regex_captures(STATE_LINK_PATTERN@, html@)) == Err::<
                    Seq<(Seq<char>, Seq<char>)>,
                    PageFault,
                >(e@),
            },
    {
        let caps = match captures_all(STATE_LINK_PATTERN, html) {
            Some(c) => c,
            None => return Err(PageError::BadPattern),
        };
        assert(capture_views(caps@) =~= Seq::new(caps@.len(), |i: int| opt_string_views(caps@[i]@)));
        Self::from_captures(&caps)
    }

    /// The US states from the matches of the state link pattern.
    pub fn from_captures(caps: &Vec<Vec<Option<String>>>) -> (r: Result<CountryPage, PageError>)
        ensures
            match r {
                Ok(page) => country_page_from(Some(capture_views(caps@))) == Ok::<
                    Seq<(Seq<char>, Seq<char>)>,
                    PageFault,
                >(state_views(page.states@)),
                Err(e) => country_page_from(Some(capture_views(caps@))) == Err::<
                    Seq<(Seq<char>, Seq<char>)>,
                    PageFault,
                >(e@),
            },
    {
        let ghost cv = capture_views(caps@);
        let prefix = chars_of(US_STATE_PREFIX);
        let mut states: Vec<StateHtmlInfo> = Vec::new();
        let mut i: usize = 0;
        while i < caps.len()
            invariant
                i <= caps@.len(),
                cv == capture_views(caps@),
                prefix@ == US_STATE_PREFIX@,
                links_from(cv, 0) == match links_from(cv, i as int) {
                    Ok(rest) => Ok(state_views(states@) + rest),
                    Err(e) => Err(e),
                },
            decreases caps@.len() - i,
        {
            let c = &caps[i];
            assert(cv[i as int] == opt_string_views(c@));
            if c.len() != 3 {
                return Err(PageError::UnexpectedCaptures { count: c.len() });
            }
            let (url, name) = match (&c[1], &c[2]) {
                (Some(u), Some(n)) => (u, n),
                _ => return Err(PageError::MissingGroup),
            };
            let u = chars_of(url.as_str());
            let ghost before = states@;
            if starts_with_exec(u.as_slice(), prefix.as_slice()) {
                states.push(StateHtmlInfo { sub_url: copy_str(url.as_str()), name: copy_str(name.as_str()) });
                assert(state_views(states@) =~= state_views(before) + seq![(url@, name@)]);
            }
            proof {
                match links_from(cv, i + 1) {
                    Ok(rest) => {
                        if starts_with(url@, US_STATE_PREFIX@) {
                            assert(state_views(before) + (seq![(url@, name@)] + rest)
                                =~= state_views(states@) + rest);
                        }
                    },
                    Err(_) => {},
                }
            }
            i = i + 1;
        }
        if states.len() == 0 {
            return Err(PageError::NoStates);
        }
        assert(state_views(states@) + Seq::<(Seq<char>, Seq<char>)>::empty() =~= state_views(states@));
        Ok(CountryPage { states })
    }
}

/// The plain value of each match's groups.
pub open spec fn capture_views(v: Seq<Vec<Option<String>>>) -> Seq<Seq<Option<Seq<char>>>> {
    Seq::new(v.len(), |i: int| opt_string_views(v[i]@))
}

// ---------------------------------------------------------------------------
// State page
// ---------------------------------------------------------------------------

/// The plain value of a listed location: name, street line, city/state/ZIP line,
/// price text, link to its page.
pub type LocationView = (Seq<char>, Seq<char>, Seq<char>, Seq<char>, Seq<char>);

/// A location as a state page lists it.
#[derive(Debug, Clone)]
pub struct LocationHtmlInfo {
    name: String,
    /// street address
    line1: String,
    /// city, state, zip
    line2: String,
    price: String,
    link: String,
}

impl View for LocationHtmlInfo {
    type V = LocationView;

    closed spec fn view(&self) -> LocationView {
        (self.name@, self.line1@, self.line2@, self.price@, self.link@)
    }
}

/// A state page: the locations it lists, in page order.
pub struct StatePage {
    locations: Vec<LocationHtmlInfo>,
}

/// The plain value of each location.
pub open spec fn location_views(v: Seq<LocationHtmlInfo>) -> Seq<LocationView> {
    Seq::new(v.len(), |i: int| v[i]@)
}

impl View for StatePage {
    type V = Seq<LocationView>;

    closed spec fn view(&self) -> Seq<LocationView> {
        location_views(self.locations@)
    }
}

/// The selectors of a location's title, price, address and plan button, in that order.
pub open spec fn location_field_selectors() -> Seq<Seq<char>> {
    seq![
        LOCATION_TITLE_SELECTOR@,
        LOCATION_PRICE_SELECTOR@,
        LOCATION_ADDRESS_SELECTOR@,
        LOCATION_PLAN_SELECTOR@,
    ]
}

/// The line separator of an address block.
pub open spec fn line_break() -> Seq<char> {
    "<br>"@
}

/// The first two lines of an address block (`split("<br>").take(2)`); `None`
/// when there is no second line.
pub open spec fn split_address_of(address: Seq<char>) -> Option<(Seq<char>, Seq<char>)> {
    match find_from(address, line_break(), 0) {
        None => None,
        Some(j) => {
            let start = j + line_break().len();
            let end = match find_from(address, line_break(), start) {
                Some(k) => k,
                None => address.len() as int,
            };
            Some((address.subrange(0, j), address.subrange(start, end)))
        },
    }
}

/// Field `k` of a scraped item (the first match of the `k`-th selector).
pub open spec fn item_field(fields: Seq<Option<ElementView>>, k: int) -> Option<ElementView> {
    if 0 <= k < fields.len() {
        fields[k]
    } else {
        None
    }
}

/// The location that a scraped location element describes.
pub open spec fn location_of(item: ItemView) -> Result<LocationView, PageFault> {
    let (html, fields) = item;
    match item_field(fields, 0) {
        None => Err(PageFault::NoTitle(html)),
        Some(title) => match item_field(fields, 1) {
            None => Err(PageFault::NoPrice(html)),
            Some(price) => match item_field(fields, 2) {
                None => Err(PageFault::NoAddress(html)),
                Some(address) => match split_address_of(address.1) {
                    None => Err(PageFault::SplitAddress(address.1)),
                    Some((line1, line2)) => match item_field(fields, 3) {
                        None => Err(PageFault::NoPlanButton(html)),
                        Some(plan) => match plan.2 {
                            None => Err(PageFault::NoPlanLink(html)),
                            Some(href) => Ok((title.0, line1, line2, price.0, BASE_URL@ + href)),
                        },
                    },
                },
            },
        },
    }
}

/// The locations from the scraped elements at and after `i`; the first element
/// that does not describe a location decides the error.
pub open spec fn locations_from(items: Seq<ItemView>, i: int) -> Result<Seq<LocationView>, PageFault>
    decreases items.len() - i,
{
    if i < 0 || i >= items.len() {
        Ok(Seq::empty())
    } else {
        match location_of(items[i]) {
            Err(e) => Err(e),
            Ok(loc) => match locations_from(items, i + 1) {
                Err(e) => Err(e),
                Ok(rest) => Ok(seq![loc] + rest),
            },
        }
    }
}

/// What a state page gives for the scraped location elements.
pub open spec fn state_page_from(items: Option<Seq<ItemView>>) -> Result<Seq<LocationView>, PageFault> {
    match items {
        None => Err(PageFault::BadPattern),
        Some(v) => match locations_from(v, 0) {
            Err(e) => Err(e),
            Ok(locs) => if locs.len() == 0 {
                Err(PageFault::NoLocations)
            } else {
                Ok(locs)
            },
        },
    }
}

/// Field `k` of a scraped item.
fn field_at(fields: &Vec<Option<ScrapedElement>>, k: usize) -> (r: Option<&ScrapedElement>)
    ensures
        match r {
            Some(e) => item_field(
                Seq::new(fields@.len(), |i: int| opt_element_view(fields@[i])),
                k as int,
            ) == Some(e@),
            None => item_field(
                Seq::new(fields@.len(), |i: int| opt_element_view(fields@[i])),
                k as int,
            ) is None,
        },
{
    if k < fields.len() {
        match &fields[k] {
            Some(e) => Some(e),
            None => None,
        }
    } else {
        None
    }
}

impl StatePage {
    /// The locations that a state page lists.
    pub fn parse_html(html: &str) -> (r: Result<StatePage, PageError>)
        ensures
            match r {
                Ok(page) => state_page_from(
                    scraped_items(html@, LOCATION_ITEM_SELECTOR@, location_field_selectors()),
                ) == Ok::<Seq<LocationView>, PageFault>(page@),
                Err(e) => state_page_from(
                    scraped_items(html@, LOCATION_ITEM_SELECTOR@, location_field_selectors()),
                ) == Err::<Seq<LocationView>, PageFault>(e@),
            },
    {
        let mut selectors: Vec<String> = Vec::new();
        selectors.push(String::from_str(LOCATION_TITLE_SELECTOR));
        selectors.push(String::from_str(LOCATION_PRICE_SELECTOR));
        selectors.push(String::from_str(LOCATION_ADDRESS_SELECTOR));
        selectors.push(String::from_str(LOCATION_PLAN_SELECTOR));
        assert(string_views(selectors@) =~= location_field_selectors());
        match scrape_items(html, LOCATION_ITEM_SELECTOR, &selectors) {
            None => Err(PageError::BadPattern),
            Some(items) => Self::from_items(&items),
        }
    }

    /// The locations from scraped location elements.
    pub fn from_items(items: &Vec<ScrapedItem>) -> (r: Result<StatePage, PageError>)
        ensures
            match r {
                Ok(page) => state_page_from(Some(crate::scrape::item_views(items@))) == Ok::<
                    Seq<LocationView>,
                    PageFault,
                >(page@),
                Err(e) => state_page_from(Some(crate::scrape::item_views(items@))) == Err::<
                    Seq<LocationView>,
                    PageFault,
                >(e@),
            },
    {
        let ghost iv = crate::scrape::item_views(items@);
        let mut locations: Vec<LocationHtmlInfo> = Vec::new();
        let mut i: usize = 0;
        while i < items.len()
            invariant
                i <= items@.len(),
                iv == crate::scrape::item_views(items@),
                locations_from(iv, 0) == match locations_from(iv, i as int) {
                    Ok(rest) => Ok(location_views(locations@) + rest),
                    Err(e) => Err(e),
                },
            decreases items@.len() - i,
        {
            let loc = match Self::location(&items[i]) {
                Ok(l) => l,
                Err(e) => return Err(e),
            };
            let ghost before = locations@;
            locations.push(loc);
            proof {
                assert(location_views(locations@) =~= location_views(before) + seq![loc@]);
                match locations_from(iv, i + 1) {
                    Ok(rest) => {
                        assert(location_views(before) + (seq![loc@] + rest) =~= location_views(
                            locations@,
                        ) + rest);
                    },
                    Err(_) => {},
                }
            }
            i = i + 1;
        }
        if locations.len() == 0 {
            return Err(PageError::NoLocations);
        }
        assert(location_views(locations@) + Seq::<LocationView>::empty() =~= location_views(locations@));
        Ok(StatePage { locations })
    }

    /// The location that one scraped location element describes.
    fn location(item: &ScrapedItem) -> (r: Result<LocationHtmlInfo, PageError>)
        ensures
            match r {
                Ok(l) => location_of(item@) == Ok::<LocationView, PageFault>(l@),
                Err(e) => location_of(item@) == Err::<LocationView, PageFault>(e@),
            },
    {
        let title = match field_at(&item.fields, 0) {
            Some(t) => t,
            None => return Err(PageError::NoTitle { html: copy_str(item.html.as_str()) }),
        };
        let price = match field_at(&item.fields, 1) {
            Some(p) => p,
            None => return Err(PageError::NoPrice { html: copy_str(item.html.as_str()) }),
        };
        let address = match field_at(&item.fields, 2) {
            Some(a) => a,
            None => return Err(PageError::NoAddress { html: copy_str(item.html.as_str()) }),
        };
        let (line1, line2) = match Self::split_address(address.inner_html.as_str()) {
            Some(pair) => pair,
            None => return Err(PageError::SplitAddress { address: copy_str(address.inner_html.as_str()) }),
        };
        let plan = match field_at(&item.fields, 3) {
            Some(p) => p,
            None => return Err(PageError::NoPlanButton { html: copy_str(item.html.as_str()) }),
        };
        let href = match &plan.href {
            Some(h) => h,
            None => return Err(PageError::NoPlanLink { html: copy_str(item.html.as_str()) }),
        };
        Ok(LocationHtmlInfo {
            name: copy_str(title.text.as_str()),
            line1,
            line2,
            price: copy_str(price.text.as_str()),
            link: concat_str(BASE_URL, href.as_str()),
        })
    }

    /// The first two lines of an address block.
    fn split_address(address: &str) -> (r: Option<(String, String)>)
        ensures
            match r {
                Some((a, b)) => split_address_of(address@) == Some((a@, b@)),
                None => split_address_of(address@) is None,
            },
    {
        let s = chars_of(address);
        let br = chars_of("<br>");
        proof {
            reveal_strlit("<br>");
        }
        match find_from_exec(s.as_slice(), br.as_slice(), 0) {
            None => None,
            Some(j) => {
                proof {
                    lemma_find_bounds(s@, br@, 0);
                }
                let n = s.len();
                assert(j + br@.len() <= n);
                let start = j + br.len();
                let end = match find_from_exec(s.as_slice(), br.as_slice(), start) {
                    Some(k) => k,
                    None => s.len(),
                };
                proof {
                    lemma_find_bounds(s@, br@, start as int);
                }
                let first = copy_range(s.as_slice(), 0, j);
                let second = copy_range(s.as_slice(), start, end);
                Some((string_from_chars(first.as_slice()), string_from_chars(second.as_slice())))
            },
        }
    }

    /// The number of listed locations.
    pub fn len(&self) -> (n: usize)
        ensures
            n == self@.len(),
    {
        self.locations.len()
    }
}

/// A position that `find_from` reports lies inside the text, at or after the start.
pub proof fn lemma_find_bounds(s: Seq<char>, pat: Seq<char>, i: int)
    ensures
        match find_from(s, pat, i) {
            Some(j) => i <= j && j + pat.len() <= s.len() && crate::text::matches_at(s, pat, j),
            None => true,
        },
    decreases s.len() - i,
{
    if i >= 0 && i + pat.len() <= s.len() && !crate::text::matches_at(s, pat, i) && pat.len() > 0 {
        lemma_find_bounds(s, pat, i + 1);
    }
}

// ---------------------------------------------------------------------------
// From a listed location to a mailbox
// ---------------------------------------------------------------------------

/// The second comma-separated piece of the city/state/ZIP line.
pub open spec fn second_piece(line2: Seq<char>) -> Option<Seq<char>> {
    let p = split_char(line2, ',');
    if p.len() > 1 {
        Some(p[1])
    } else {
        None
    }
}

/// The city: the text before the first comma.
pub open spec fn city_of(line2: Seq<char>) -> Seq<char> {
    split_char(line2, ',')[0]
}

/// The state: the first word after the first comma.
pub open spec fn state_text_of(line2: Seq<char>) -> Option<Seq<char>> {
    match second_piece(line2) {
        Some(x) => first_word(trim(x)),
        None => None,
    }
}

/// A ZIP token split at its dashes: the part before the first dash, and the part
/// between the first and the second dash when there is a dash.
pub open spec fn zip_parts(token: Seq<char>) -> (Seq<char>, Option<Seq<char>>) {
    let p = split_char(token, '-');
    (p[0], if p.len() > 1 { Some(p[1]) } else { None })
}

/// The ZIP code and its extension: the second word after the first comma.
pub open spec fn zip_of(line2: Seq<char>) -> Option<(Seq<char>, Option<Seq<char>>)> {
    match second_piece(line2) {
        Some(x) => match crate::text::second_word(trim(x)) {
            Some(token) => Some(zip_parts(token)),
            None => None,
        },
        None => None,
    }
}

/// The listed price without its `Starting from` lead and without spaces.
pub open spec fn listing_price(price: Seq<char>) -> Seq<char> {
    remove_all(remove_all(price, "Starting from"@), " "@)
}

/// The status of a mailbox whose street lines come from the state listing.
pub open spec fn listing_status() -> Seq<char> {
    "listing_fallback"@
}

/// The address that a listed location gives.
pub open spec fn address_of(loc: LocationView) -> Result<crate::model::AddressView, PageFault> {
    let (_name, line1, line2, _price, _link) = loc;
    match zip_of(line2) {
        None => Err(PageFault::NoZip(line2)),
        Some((zip, zip4)) => match state_text_of(line2) {
            None => Err(PageFault::MissingState),
            Some(st) => match crate::config::state_code_of(st) {
                None => Err(PageFault::InvalidState),
                Some(code) => Ok((line1, Seq::empty(), city_of(line2), code, zip, zip4)),
            },
        },
    }
}

/// The mailbox that a listed location gives.
pub open spec fn mailbox_of(loc: LocationView) -> Result<crate::model::MailboxView, PageFault> {
    let (name, _line1, _line2, price, link) = loc;
    match address_of(loc) {
        Err(e) => Err(e),
        Ok(a) => Ok((name, a, listing_price(price), link, listing_status())),
    }
}

/// The mailboxes of the locations at and after `i`; the first location that
/// gives none decides the error.
pub open spec fn mailboxes_from(locs: Seq<LocationView>, i: int) -> Result<
    Seq<crate::model::MailboxView>,
    PageFault,
>
    decreases locs.len() - i,
{
    if i < 0 || i >= locs.len() {
        Ok(Seq::empty())
    } else {
        match mailbox_of(locs[i]) {
            Err(e) => Err(e),
            Ok(m) => match mailboxes_from(locs, i + 1) {
                Err(e) => Err(e),
                Ok(rest) => Ok(seq![m] + rest),
            },
        }
    }
}

impl LocationHtmlInfo {
    /// The city: the text before the first comma of the city/state/ZIP line.
    pub fn parse_city(&self) -> (r: Option<String>)
        ensures
            opt_str(r) == Some(city_of(self@.2)),
    {
        let s = chars_of(self.line2.as_str());
        let pieces = split_chars(s.as_slice(), ',');
        Some(string_from_chars(pieces[0].as_slice()))
    }

    /// The second comma-separated piece of the city/state/ZIP line, trimmed.
    fn second_piece_trimmed(&self) -> (r: Option<Vec<char>>)
        ensures
            match second_piece(self@.2) {
                Some(x) => opt_view(r) == Some(trim(x)),
                None => r is None,
            },
    {
        let s = chars_of(self.line2.as_str());
        let pieces = split_chars(s.as_slice(), ',');
        if pieces.len() > 1 {
            Some(trim_chars(pieces[1].as_slice()))
        } else {
            None
        }
    }

    /// The state: the first word after the first comma.
    pub fn parse_state(&self) -> (r: Option<String>)
        ensures
            opt_str(r) == state_text_of(self@.2),
    {
        match self.second_piece_trimmed() {
            Some(t) => match first_word_chars(t.as_slice()) {
                Some(w) => Some(string_from_chars(w.as_slice())),
                None => None,
            },
            None => None,
        }
    }

    /// The ZIP code and its optional extension: the second word after the first comma.
    pub fn parse_zip(&self) -> (r: Option<(String, Option<String>)>)
        ensures
            match r {
                Some((z, z4)) => zip_of(self@.2) == Some((z@, opt_str(z4))),
                None => zip_of(self@.2) is None,
            },
    {
        match self.second_piece_trimmed() {
            Some(t) => match second_word_chars(t.as_slice()) {
                Some(token) => {
                    let parts = split_chars(token.as_slice(), '-');
                    let zip = string_from_chars(parts[0].as_slice());
                    let zip4 = if parts.len() > 1 {
                        Some(string_from_chars(parts[1].as_slice()))
                    } else {
                        None
                    };
                    Some((zip, zip4))
                },
                None => None,
            },
            None => None,
        }
    }

    /// The listed price without `Starting from` and without spaces.
    pub fn price(&self) -> (r: String)
        ensures
            r@ == listing_price(self@.3),
    {
        let s = chars_of(self.price.as_str());
        let lead = chars_of("Starting from");
        let space = chars_of(" ");
        let a = remove_all_chars(s.as_slice(), lead.as_slice());
        let b = remove_all_chars(a.as_slice(), space.as_slice());
        string_from_chars(b.as_slice())
    }

    /// The address of this location, with an empty second street line.
    pub fn to_address(&self) -> (r: Result<Address, PageError>)
        ensures
            match r {
                Ok(a) => address_of(self@) == Ok::<crate::model::AddressView, PageFault>(a@),
                Err(e) => address_of(self@) == Err::<crate::model::AddressView, PageFault>(e@),
            },
    {
        let (zip, zip4) = match self.parse_zip() {
            Some(z) => z,
            None => return Err(PageError::NoZip { line2: copy_str(self.line2.as_str()) }),
        };
        let city = match self.parse_city() {
            Some(c) => c,
            None => return Err(PageError::NoZip { line2: copy_str(self.line2.as_str()) }),
        };
        let state_text = match self.parse_state() {
            Some(s) => s,
            None => return Err(PageError::MissingState),
        };
        let code = match state_code(state_text.as_str()) {
            Some(c) => c,
            None => return Err(PageError::InvalidState),
        };
        Ok(Address {
            city,
            state: copy_str(code),
            zip,
            zip4,
            line1: copy_str(self.line1.as_str()),
            line2: String::new(),
        })
    }

    /// The mailbox of this location, marked as known from the listing only.
    pub fn to_mailbox(&self) -> (r: Result<Mailbox, PageError>)
        ensures
            match r {
                Ok(m) => mailbox_of(self@) == Ok::<crate::model::MailboxView, PageFault>(m@),
                Err(e) => mailbox_of(self@) == Err::<crate::model::MailboxView, PageFault>(e@),
            },
    {
        let address = match self.to_address() {
            Ok(a) => a,
            Err(e) => return Err(e),
        };
        Ok(Mailbox {
            address,
            price: self.price(),
            name: copy_str(self.name.as_str()),
            link: copy_str(self.link.as_str()),
            detail_status: String::from_str("listing_fallback"),
        })
    }
}

impl StatePage {
    /// The mailboxes of the listed locations; the first location that gives none
    /// decides the error.
    pub fn to_mailboxes(&self) -> (r: Result<Vec<Mailbox>, PageError>)
        ensures
            match r {
                Ok(v) => mailboxes_from(self@, 0) == Ok::<Seq<crate::model::MailboxView>, PageFault>(
                    crate::model::mailbox_views(v@),
                ),
                Err(e) => mailboxes_from(self@, 0) == Err::<Seq<crate::model::MailboxView>, PageFault>(
                    e@,
                ),
            },
    {
        let ghost lv = self@;
        let mut out: Vec<Mailbox> = Vec::new();
        let mut i: usize = 0;
        while i < self.locations.len()
            invariant
                i <= self.locations@.len(),
                lv == self@,
                lv == location_views(self.locations@),
                mailboxes_from(lv, 0) == match mailboxes_from(lv, i as int) {
                    Ok(rest) => Ok(crate::model::mailbox_views(out@) + rest),
                    Err(e) => Err(e),
                },
            decreases self.locations@.len() - i,
        {
            let m = match self.locations[i].to_mailbox() {
                Ok(m) => m,
                Err(e) => return Err(e),
            };
            let ghost before = out@;
            out.push(m);
            proof {
                assert(crate::model::mailbox_views(out@) =~= crate::model::mailbox_views(before)
                    + seq![m@]);
                match mailboxes_from(lv, i + 1) {
                    Ok(rest) => {
                        assert(crate::model::mailbox_views(before) + (seq![m@] + rest)
                            =~= crate::model::mailbox_views(out@) + rest);
                    },
                    Err(_) => {},
                }
            }
            i = i + 1;
        }
        assert(crate::model::mailbox_views(out@) + Seq::<crate::model::MailboxView>::empty()
            =~= crate::model::mailbox_views(out@));
        Ok(out)
    }
}

// ---------------------------------------------------------------------------
// Detail page
// ---------------------------------------------------------------------------

/// The words that, with a placeholder after them, announce the customer's mailbox
/// number rather than a real unit.
pub open spec fn mailbox_words() -> Seq<Seq<char>> {
    seq!["PMB"@, "Suite"@, "Ste"@, "Unit"@, "Apt"@]
}

/// A line without the mailbox word it ends with: the first word of
/// `mailbox_words()` (from `k` on) that is the whole line (up to ASCII case)
/// empties it; the first that ends it after a space is cut off.
///
/// The comparison folds ASCII case only: on these ASCII words that is what
/// comparing the lower-cased line (`str::to_lowercase`) amounts to, since the only
/// non-ASCII character whose lower case is an ASCII letter is the Kelvin sign (`k`).
pub open spec fn strip_mailbox_word(t: Seq<char>, k: int) -> Seq<char>
    decreases 5 - k,
{
    if k < 0 || k >= 5 {
        t
    } else if eq_ignore_ascii_case(t, mailbox_words()[k]) {
        Seq::empty()
    } else if ends_with_ignore_ascii_case(t, seq![' '] + mailbox_words()[k]) {
        t.subrange(0, t.len() - mailbox_words()[k].len())
    } else {
        strip_mailbox_word(t, k + 1)
    }
}

/// `text` with every marker text removed, marker by marker.
pub open spec fn remove_markers(text: Seq<char>, markers: Seq<Seq<char>>) -> Seq<char>
    decreases markers.len(),
{
    if markers.len() == 0 {
        text
    } else {
        remove_all(remove_markers(text, markers.drop_last()), markers.last())
    }
}

/// One detail line as the address uses it: the placeholder texts removed; when there
/// were placeholders, a trailing `#` and a trailing mailbox word dropped; trimmed.
pub open spec fn clean_line(child: ChildView) -> Seq<char> {
    let (text, markers) = child;
    let t = remove_markers(text, markers);
    if markers.len() > 0 {
        trim(strip_mailbox_word(trim(trim_end_char(trim(t), '#')), 0))
    } else {
        trim(t)
    }
}

/// The nonempty cleaned lines, in order.
pub open spec fn detail_lines(children: Seq<ChildView>) -> Seq<Seq<char>>
    decreases children.len(),
{
    if children.len() == 0 {
        Seq::empty()
    } else {
        let rest = detail_lines(children.drop_last());
        let l = clean_line(children.last());
        if l.len() > 0 {
            rest.push(l)
        } else {
            rest
        }
    }
}

/// The first line at or after `i` whose verdict says it is a city/state/ZIP line; a
/// line without a verdict (the pattern did not compile) before it stops the search.
pub open spec fn city_line_at(lines: Seq<(Seq<char>, Option<bool>)>, i: int) -> Result<int, PageFault>
    decreases lines.len() - i,
{
    if i < 0 || i >= lines.len() {
        Err(PageFault::NoCityLine)
    } else {
        match lines[i].1 {
            None => Err(PageFault::BadPattern),
            Some(true) => Ok(i),
            Some(false) => city_line_at(lines, i + 1),
        }
    }
}

/// The street lines from the detail lines, each with whether it is a city/state/ZIP
/// line: the first line, and the lines between it and the first city/state/ZIP line
/// joined by spaces when there are any.
pub open spec fn street_lines_of(lines: Seq<(Seq<char>, Option<bool>)>) -> Result<
    (Seq<char>, Option<Seq<char>>),
    PageFault,
> {
    match city_line_at(lines, 0) {
        Err(e) => Err(e),
        Ok(ci) => if ci == 0 {
            Err(PageFault::NoStreetLine)
        } else {
            Ok(
                (
                    lines[0].0,
                    if ci > 1 {
                        Some(join(Seq::new((ci - 1) as nat, |k: int| lines[k + 1].0), " "@))
                    } else {
                        None
                    },
                ),
            )
        },
    }
}

/// Each detail line with whether the city/state/ZIP pattern matches it.
pub open spec fn line_verdicts(lines: Seq<Seq<char>>) -> Seq<(Seq<char>, Option<bool>)> {
    Seq::new(lines.len(), |k: int| (lines[k], regex_matches(CITY_STATE_ZIP_PATTERN@, lines[k])))
}

/// The street lines of a detail page from what the selectors found.
pub open spec fn detail_of(children: Option<Option<Seq<ChildView>>>) -> Result<
    (Seq<char>, Option<Seq<char>>),
    PageFault,
> {
    match children {
        None => Err(PageFault::BadPattern),
        Some(None) => Err(PageFault::NoDetailContainer),
        Some(Some(c)) => street_lines_of(line_verdicts(detail_lines(c))),
    }
}

/// The plain value of each line with its verdict.
pub open spec fn verdict_views(v: Seq<(String, Option<bool>)>) -> Seq<(Seq<char>, Option<bool>)> {
    Seq::new(v.len(), |k: int| (v[k].0@, v[k].1))
}

/// A location's detail page: its street lines.
#[derive(Debug, Clone)]
pub struct LocationDetailPage {
    /// street address
    pub line1: String,
    /// unit, suite, etc.
    pub line2: Option<String>,
}

impl View for LocationDetailPage {
    type V = (Seq<char>, Option<Seq<char>>);

    open spec fn view(&self) -> (Seq<char>, Option<Seq<char>>) {
        (self.line1@, opt_str(self.line2))
    }
}

impl LocationDetailPage {
    /// The street lines of a detail page. Placeholders for the customer's name and
    /// mailbox number are left out; real suites and units are kept.
    pub fn parse_html(html: &str) -> (r: Result<LocationDetailPage, PageError>)
        ensures
            match r {
                Ok(page) => detail_of(
                    scraped_children(
                        html@,
                        DETAIL_CONTAINER_SELECTOR@,
                        DETAIL_LINE_SELECTOR@,
                        PLACEHOLDER_SELECTOR@,
                    ),
                ) == Ok::<(Seq<char>, Option<Seq<char>>), PageFault>(page@),
                Err(e) => detail_of(
                    scraped_children(
                        html@,
                        DETAIL_CONTAINER_SELECTOR@,
                        DETAIL_LINE_SELECTOR@,
                        PLACEHOLDER_SELECTOR@,
                    ),
                ) == Err::<(Seq<char>, Option<Seq<char>>), PageFault>(e@),
            },
    {
        match scrape_children(html, DETAIL_CONTAINER_SELECTOR, DETAIL_LINE_SELECTOR, PLACEHOLDER_SELECTOR) {
            None => Err(PageError::BadPattern),
            Some(None) => Err(PageError::NoDetailContainer),
            Some(Some(children)) => Self::from_children(&children),
        }
    }

    /// The street lines from the scraped lines of the address block.
    pub fn from_children(children: &Vec<ScrapedChild>) -> (r: Result<LocationDetailPage, PageError>)
        ensures
            match r {
                Ok(page) => detail_of(Some(Some(crate::scrape::child_views(children@)))) == Ok::<
                    (Seq<char>, Option<Seq<char>>),
                    PageFault,
                >(page@),
                Err(e) => detail_of(Some(Some(crate::scrape::child_views(children@)))) == Err::<
                    (Seq<char>, Option<Seq<char>>),
                    PageFault,
                >(e@),
            },
    {
        let lines = Self::detail_lines_of(children);
        let ghost lv = crate::scrape::string_views(lines@);
        let mut judged: Vec<(String, Option<bool>)> = Vec::new();
        let mut i: usize = 0;
        while i < lines.len()
            invariant
                i <= lines@.len(),
                lv == crate::scrape::string_views(lines@),
                verdict_views(judged@) == line_verdicts(lv).subrange(0, i as int),
            decreases lines@.len() - i,
        {
            let verdict = is_match(CITY_STATE_ZIP_PATTERN, lines[i].as_str());
            let ghost before = judged@;
            let text = copy_str(lines[i].as_str());
            assert(lv[i as int] == lines@[i as int]@);
            assert(text@ == lv[i as int]);
            judged.push((text, verdict));
            assert(verdict_views(judged@) =~= verdict_views(before).push((lv[i as int], verdict)));
            assert(line_verdicts(lv).subrange(0, i + 1) =~= line_verdicts(lv).subrange(0, i as int).push(
                (lv[i as int], verdict),
            ));
            i = i + 1;
        }
        assert(line_verdicts(lv).subrange(0, lines@.len() as int) =~= line_verdicts(lv));
        Self::street_lines(&judged)
    }

    /// The nonempty cleaned lines of the address block, in order.
    pub fn detail_lines_of(children: &Vec<ScrapedChild>) -> (r: Vec<String>)
        ensures
            crate::scrape::string_views(r@) == detail_lines(crate::scrape::child_views(children@)),
    {
        let ghost cv = crate::scrape::child_views(children@);
        let mut lines: Vec<String> = Vec::new();
        let mut i: usize = 0;
        assert(cv.subrange(0, 0) =~= Seq::<ChildView>::empty());
        while i < children.len()
            invariant
                i <= children@.len(),
                cv == crate::scrape::child_views(children@),
                crate::scrape::string_views(lines@) == detail_lines(cv.subrange(0, i as int)),
            decreases children@.len() - i,
        {
            let l = clean_child(&children[i]);
            let ghost pre = cv.subrange(0, i as int);
            let ghost next = cv.subrange(0, i + 1);
            assert(next.drop_last() =~= pre);
            assert(next.last() == children@[i as int]@);
            let ghost before = lines@;
            if l.len() > 0 {
                lines.push(string_from_chars(l.as_slice()));
                assert(crate::scrape::string_views(lines@) =~= crate::scrape::string_views(before).push(l@));
            }
            i = i + 1;
        }
        assert(cv.subrange(0, children@.len() as int) =~= cv);
        lines
    }

    /// The street lines from the detail lines, each with whether it is a
    /// city/state/ZIP line (`None` when the pattern did not compile).
    pub fn street_lines(lines: &Vec<(String, Option<bool>)>) -> (r: Result<LocationDetailPage, PageError>)
        ensures
            match r {
                Ok(page) => street_lines_of(verdict_views(lines@)) == Ok::<
                    (Seq<char>, Option<Seq<char>>),
                    PageFault,
                >(page@),
                Err(e) => street_lines_of(verdict_views(lines@)) == Err::<
                    (Seq<char>, Option<Seq<char>>),
                    PageFault,
                >(e@),
            },
    {
        let ghost lv = verdict_views(lines@);
        let mut k: usize = 0;
        let mut found = false;
        while k < lines.len() && !found
            invariant
                k <= lines@.len(),
                lv == verdict_views(lines@),
                found ==> k < lines@.len() && city_line_at(lv, 0) == Ok::<int, PageFault>(k as int),
                !found ==> city_line_at(lv, 0) == city_line_at(lv, k as int),
            decreases lines@.len() - k, if found {
                0int
            } else {
                1int
            },
        {
            match lines[k].1 {
                None => return Err(PageError::BadPattern),
                Some(true) => {
                    found = true;
                },
                Some(false) => {
                    k = k + 1;
                },
            }
        }
        if !found {
            return Err(PageError::NoCityLine);
        }
        let city = k;
        if city == 0 {
            return Err(PageError::NoStreetLine);
        }
        let line1 = copy_str(lines[0].0.as_str());
        let line2 = if city > 1 {
            let mut middle: Vec<Vec<char>> = Vec::new();
            let mut j: usize = 1;
            while j < city
                invariant
                    1 <= j <= city < lines@.len(),
                    lv == verdict_views(lines@),
                    views(middle@) == Seq::new((j - 1) as nat, |q: int| lv[q + 1].0),
                decreases city - j,
            {
                let piece = chars_of(lines[j].0.as_str());
                let ghost before = middle@;
                assert(piece@ == lv[j as int].0);
                middle.push(piece);
                assert(views(middle@) =~= views(before).push(piece@));
                assert(views(middle@) =~= Seq::new(j as nat, |q: int| lv[q + 1].0));
                j = j + 1;
            }
            let sep = chars_of(" ");
            let joined = join_chars(&middle, sep.as_slice());
            assert(views(middle@) =~= Seq::new((city - 1) as nat, |q: int| lv[q + 1].0));
            Some(string_from_chars(joined.as_slice()))
        } else {
            None
        };
        Ok(LocationDetailPage { line1, line2 })
    }
}

/// `remove_markers` of a child's text by its markers, then the rest of `clean_line`.
fn clean_child(child: &ScrapedChild) -> (r: Vec<char>)
    ensures
        r@ == clean_line(child@),
{
    let mut t = chars_of(child.text.as_str());
    let mut i: usize = 0;
    let ghost ms = crate::scrape::string_views(child.markers@);
    assert(ms.subrange(0, 0) =~= Seq::<Seq<char>>::empty());
    while i < child.markers.len()
        invariant
            i <= child.markers@.len(),
            ms == crate::scrape::string_views(child.markers@),
            t@ == remove_markers(child.text@, ms.subrange(0, i as int)),
        decreases child.markers@.len() - i,
    {
        let m = chars_of(child.markers[i].as_str());
        assert(ms.subrange(0, i + 1).drop_last() =~= ms.subrange(0, i as int));
        t = remove_all_chars(t.as_slice(), m.as_slice());
        i = i + 1;
    }
    assert(ms.subrange(0, child.markers@.len() as int) =~= ms);
    if child.markers.len() > 0 {
        let a = trim_chars(t.as_slice());
        let b = trim_end_char_chars(a.as_slice(), '#');
        let c = trim_chars(b.as_slice());
        let d = strip_mailbox_word_exec(c);
        trim_chars(d.as_slice())
    } else {
        trim_chars(t.as_slice())
    }
}

/// `strip_mailbox_word(t, 0)`.
fn strip_mailbox_word_exec(t: Vec<char>) -> (r: Vec<char>)
    ensures
        r@ == strip_mailbox_word(t@, 0),
{
    let mut words: Vec<Vec<char>> = Vec::new();
    words.push(chars_of("PMB"));
    words.push(chars_of("Suite"));
    words.push(chars_of("Ste"));
    words.push(chars_of("Unit"));
    words.push(chars_of("Apt"));
    assert(views(words@) =~= mailbox_words());
    let mut k: usize = 0;
    while k < 5
        invariant
            k <= 5,
            views(words@) == mailbox_words(),
            words@.len() == 5,
            strip_mailbox_word(t@, 0) == strip_mailbox_word(t@, k as int),
        decreases 5 - k,
    {
        let w = &words[k];
        assert(w@ == mailbox_words()[k as int]);
        if eq_ignore_case(t.as_slice(), w.as_slice()) {
            return Vec::new();
        }
        let mut spaced: Vec<char> = Vec::new();
        spaced.push(' ');
        let spaced = concat(spaced.as_slice(), w.as_slice());
        assert(spaced@ =~= seq![' '] + mailbox_words()[k as int]);
        if spaced.len() <= t.len() {
            let tail = copy_range(t.as_slice(), t.len() - spaced.len(), t.len());
            if eq_ignore_case(tail.as_slice(), spaced.as_slice()) {
                return copy_range(t.as_slice(), 0, t.len() - w.len());
            }
        }
        k = k + 1;
    }
    t
}

} // verus!
