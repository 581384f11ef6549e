//! What the pages are read with: HTML parsing and CSS selection (`scraper`) and
//! regular expressions (`regex`). Each call stands behind a trusted item whose
//! result is named, as a function of its arguments, by an uninterpreted spec
//! function; the logic that reads the results is verified elsewhere.
use vstd::prelude::*;

verus! {

/// What an element gives: its text (all descendant text nodes, in order), its
/// inner HTML, and its `href` attribute when it has one.
#[derive(Debug, Clone)]
pub struct ScrapedElement {
    pub text: String,
    pub inner_html: String,
    pub href: Option<String>,
}

/// The plain value of a `ScrapedElement`.
pub type ElementView = (Seq<char>, Seq<char>, Option<Seq<char>>);

impl View for ScrapedElement {
    type V = ElementView;

    open spec fn view(&self) -> ElementView {
        (
            self.text@,
            self.inner_html@,
            match self.href {
                Some(h) => Some(h@),
                None => None,
            },
        )
    }
}

/// An element matched by an item selector: its own HTML, and for each field
/// selector the first descendant that matches it.
#[derive(Debug, Clone)]
pub struct ScrapedItem {
    pub html: String,
    pub fields: Vec<Option<ScrapedElement>>,
}

/// The plain value of a `ScrapedItem`.
pub type ItemView = (Seq<char>, Seq<Option<ElementView>>);

/// The plain value of an optional scraped element.
pub open spec fn opt_element_view(e: Option<ScrapedElement>) -> Option<ElementView> {
    match e {
        Some(x) => Some(x@),
        None => None,
    }
}

impl View for ScrapedItem {
    type V = ItemView;

    open spec fn view(&self) -> ItemView {
        (self.html@, Seq::new(self.fields@.len(), |i: int| opt_element_view(self.fields@[i])))
    }
}

/// A child element matched under a container: its text, and the texts of its
/// descendants that match a marker selector, in document order.
#[derive(Debug, Clone)]
pub struct ScrapedChild {
    pub text: String,
    pub markers: Vec<String>,
}

/// The plain value of a `ScrapedChild`.
pub type ChildView = (Seq<char>, Seq<Seq<char>>);

/// The contents of each string.
pub open spec fn string_views(v: Seq<String>) -> Seq<Seq<char>> {
    Seq::new(v.len(), |i: int| v[i]@)
}

impl View for ScrapedChild {
    type V = ChildView;

    open spec fn view(&self) -> ChildView {
        (self.text@, string_views(self.markers@))
    }
}

/// The plain value of each item.
pub open spec fn item_views(v: Seq<ScrapedItem>) -> Seq<ItemView> {
    Seq::new(v.len(), |i: int| v[i]@)
}

/// The plain value of each child.
pub open spec fn child_views(v: Seq<ScrapedChild>) -> Seq<ChildView> {
    Seq::new(v.len(), |i: int| v[i]@)
}

/// The plain value of each optional string.
pub open spec fn opt_string_views(v: Seq<Option<String>>) -> Seq<Option<Seq<char>>> {
    Seq::new(
        v.len(),
        |i: int|
            match v[i] {
                Some(s) => Some(s@),
                None => None,
            },
    )
}

/// What `scraper` finds in the document `html` for an item selector and field
/// selectors (`None` when a selector does not parse).
pub uninterp spec fn scraped_items(html: Seq<char>, item: Seq<char>, fields: Seq<Seq<char>>) -> Option<
    Seq<ItemView>,
>;

/// What `scraper` finds under the first element of the document `html` that matches
/// `container`: the descendants matching `child`, with their `marker` texts (outer
/// `None` when a selector does not parse, inner `None` when nothing matches `container`).
pub uninterp spec fn scraped_children(
    html: Seq<char>,
    container: Seq<char>,
    child: Seq<char>,
    marker: Seq<char>,
) -> Option<Option<Seq<ChildView>>>;

/// The capture groups of each match of `pattern` in `text`, from left to right
/// (`None` when the pattern does not compile).
pub uninterp spec fn regex_captures(pattern: Seq<char>, text: Seq<char>) -> Option<
    Seq<Seq<Option<Seq<char>>>>,
>;

/// Whether `pattern` matches somewhere in `text` (`None` when the pattern does not compile).
pub uninterp spec fn regex_matches(pattern: Seq<char>, text: Seq<char>) -> Option<bool>;

/// Calls `scraper`: `Selector::parse` on each selector, `Html::parse_document` on
/// `html`, `Html::select` with the item selector and, inside each item,
/// `ElementRef::select(..).next()` for each field selector, reading `ElementRef::html`,
/// `ElementRef::text`, `ElementRef::inner_html` and `ElementRef::attr("href")`.
/// The contract claims only that the result is the name `scraped_items` applied
/// to the arguments; nothing is said of what the HTML parser or the selectors find.
#[verifier::external_body]
pub(crate) fn scrape_items(html: &str, item: &str, fields: &Vec<String>) -> (r: Option<Vec<ScrapedItem>>)
    ensures
        match r {
            Some(v) => scraped_items(html@, item@, string_views(fields@)) == Some(item_views(v@)),
            None => scraped_items(html@, item@, string_views(fields@)) is None,
        },
{
    let item = scraper::Selector::parse(item).ok()?;
    let fields = fields.iter().map(|f| scraper::Selector::parse(f).ok()).collect::<Option<Vec<_>>>()?;
    let doc = scraper::Html::parse_document(html);
    Some(doc.select(&item).map(|e| ScrapedItem {
        html: e.html(),
        fields: fields.iter().map(|f| e.select(f).next().map(|x| ScrapedElement {
            text: x.text().collect(),
            inner_html: x.inner_html(),
            href: x.attr("href").map(String::from),
        })).collect(),
    }).collect())
}

/// Calls `scraper`: `Selector::parse` on each selector, `Html::parse_document` on
/// `html`, takes the first element matching `container` (`Html::select(..).next()`),
/// and for each descendant matching `child` reads `ElementRef::text` and the texts
/// of its descendants matching `marker`. The contract claims only that the result
/// is the name `scraped_children` applied to the arguments.
#[verifier::external_body]
pub(crate) fn scrape_children(html: &str, container: &str, child: &str, marker: &str) -> (r: Option<
    Option<Vec<ScrapedChild>>,
>)
    ensures
        match r {
            Some(Some(v)) => scraped_children(html@, container@, child@, marker@) == Some(
                Some(child_views(v@)),
            ),
            Some(None) => scraped_children(html@, container@, child@, marker@) == Some(
                None::<Seq<ChildView>>,
            ),
            None => scraped_children(html@, container@, child@, marker@) is None,
        },
{
    let sel = |s: &str| scraper::Selector::parse(s).ok();
    let (container, child, marker) = (sel(container)?, sel(child)?, sel(marker)?);
    let doc = scraper::Html::parse_document(html);
    Some(doc.select(&container).next().map(|c| c.select(&child).map(|d| ScrapedChild {
        text: d.text().collect(),
        markers: d.select(&marker).map(|m| m.text().collect()).collect(),
    }).collect()))
}

/// Calls `regex`: `Regex::new(pattern)` and then `Regex::captures_iter(text)`,
/// listing for each match `Captures::iter` (group 0 first). The contract claims only
/// that the result is the name `regex_captures` applied to the arguments.
#[verifier::external_body]
pub(crate) fn captures_all(pattern: &str, text: &str) -> (r: Option<Vec<Vec<Option<String>>>>)
    ensures
        match r {
            Some(v) => regex_captures(pattern@, text@) == Some(
                Seq::new(v@.len(), |i: int| opt_string_views(v@[i]@)),
            ),
            None => regex_captures(pattern@, text@) is None,
        },
{
    let re = regex::Regex::new(pattern).ok()?;
    Some(re.captures_iter(text).map(|c| c.iter().map(|m| m.map(|m| m.as_str().to_string())).collect()).collect())
}

/// Calls `regex`: `Regex::new(pattern)` and then `Regex::is_match(text)`. The
/// contract claims only that the result is the name `regex_matches` applied to the
/// arguments.
#[verifier::external_body]
pub(crate) fn is_match(pattern: &str, text: &str) -> (r: Option<bool>)
    ensures
        r == regex_matches(pattern@, text@),
{
    Some(regex::Regex::new(pattern).ok()?.is_match(text))
}

} // verus!
