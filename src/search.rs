//! The torrent search: the search address for a query, and the best match
//! read from the result page.
use vstd::prelude::*;
use vstd::string::*;
use crate::watch::{query_of, WatchEntry};

verus! {

/// Address of the search, up to the query text.
pub open spec fn search_prefix() -> Seq<char> {
    "https://nyaa.si/?f=0&c=1_2&q="@
}

/// The rest of the search address: results sorted by seeders, most first.
pub open spec fn search_suffix() -> Seq<char> {
    "&s=seeders&o=desc"@
}

/// What `urlencoding::encode` makes of a text.
pub uninterp spec fn percent_encoded(s: Seq<char>) -> Seq<char>;

/// Relies on urlencoding::encode: percent-encodes the text for a query
/// parameter; an empty text stays empty.
#[verifier::external_body]
fn percent_encode(s: &str) -> (r: String)
    ensures
        r@ == percent_encoded(s@),
        s@.len() == 0 ==> r@.len() == 0,
{
    urlencoding::encode(s).into_owned()
}

/// The search address around a query that is already percent-encoded.
pub fn search_url_from_encoded(encoded: &str) -> (r: String)
    ensures
        r@ == search_prefix() + encoded@ + search_suffix(),
{
    let mut url = String::from_str("https://nyaa.si/?f=0&c=1_2&q=");
    url.append(encoded);
    url.append("&s=seeders&o=desc");
    url
}

/// The search address for a free-text query.
pub fn search_url(query: &str) -> (r: String)
    ensures
        r@ == search_prefix() + percent_encoded(query@) + search_suffix(),
{
    let encoded = percent_encode(query);
    search_url_from_encoded(encoded.as_str())
}

/// The search address for the episode after the entry's progress.
pub fn episode_search_url(e: &WatchEntry) -> (r: String)
    ensures
        r@ == search_prefix() + percent_encoded(query_of(e.title@, e.progress as int))
            + search_suffix(),
{
    let query = e.search_query();
    search_url(query.as_str())
}

/// An element that a selector matched: its `href`, if any, and its text.
#[derive(Clone, Debug)]
pub struct Link {
    pub href: Option<String>,
    pub text: String,
}

pub open spec fn opt_text(o: Option<String>) -> Option<Seq<char>> {
    match o {
        Some(s) => Some(s@),
        None => None,
    }
}

/// A matched element as plain values: its `href` and its text.
pub type LinkView = (Option<Seq<char>>, Seq<char>);

pub open spec fn links_view(v: Seq<Link>) -> Seq<LinkView> {
    v.map_values(|l: Link| (opt_text(l.href), l.text@))
}

/// The elements of an HTML document that a CSS selector matches, in document
/// order, or `None` where the selector does not parse.
pub uninterp spec fn selected_links(html: Seq<char>, css: Seq<char>) -> Option<Seq<LinkView>>;

/// Relies on scraper's Selector::parse, Html::parse_document and Html::select:
/// the matched elements, with their `href` attribute and their text (entities
/// decoded), depend on the document and the selector alone.
#[verifier::external_body]
fn select_links(html: &str, css: &str) -> (r: Option<Vec<Link>>)
    ensures
        selected_links(html@, css@) == (match r {
            Some(v) => Some(links_view(v@)),
            None => None,
        }),
{
    let selector = scraper::Selector::parse(css).ok()?;
    let doc = scraper::Html::parse_document(html);
    let found = doc.select(&selector).map(|e| Link {
        href: e.value().attr("href").map(|h| h.to_string()),
        text: e.text().collect(),
    });
    Some(found.collect())
}

/// Why a result page could not be read.
#[derive(Clone, Copy, Debug, PartialEq, Eq, Structural)]
pub enum ScrapeError {
    /// One of the page selectors does not parse.
    BadSelector,
    /// The page lacks the results table or the expected cells in its first row.
    LayoutChanged,
}

/// The best match of a search: its display name and its magnet link.
#[derive(Clone, Debug)]
pub struct Candidate {
    pub name: String,
    pub magnet: String,
}

/// The first-ranked match as (name, magnet), from what the page selectors
/// found: the results tables, the first rows, the magnet anchors and the name
/// anchors of the first row. No table is a changed layout; a table without
/// rows is no result.
pub open spec fn candidate_of(
    tables: Seq<LinkView>,
    rows: Seq<LinkView>,
    magnets: Seq<LinkView>,
    names: Seq<LinkView>,
) -> Result<Option<(Seq<char>, Seq<char>)>, ScrapeError> {
    if tables.len() == 0 {
        Err(ScrapeError::LayoutChanged)
    } else if rows.len() == 0 {
        Ok(None)
    } else if magnets.len() == 0 || names.len() == 0 || magnets[0].0.is_none() {
        Err(ScrapeError::LayoutChanged)
    } else {
        Ok(Some((names[0].1, magnets[0].0.unwrap())))
    }
}

/// A page whose results table has no rows gives no result, not an error; a
/// page without a results table gives a changed layout.
pub proof fn lemma_no_rows_no_result(
    tables: Seq<LinkView>,
    rows: Seq<LinkView>,
    magnets: Seq<LinkView>,
    names: Seq<LinkView>,
)
    ensures
        tables.len() > 0 ==> candidate_of(tables, Seq::empty(), magnets, names) == Ok::<
            Option<(Seq<char>, Seq<char>)>,
            ScrapeError,
        >(None),
        candidate_of(Seq::empty(), rows, magnets, names) == Err::<
            Option<(Seq<char>, Seq<char>)>,
            ScrapeError,
        >(ScrapeError::LayoutChanged),
{
}

pub open spec fn candidate_view(r: Result<Option<Candidate>, ScrapeError>) -> Result<Option<(Seq<char>, Seq<char>)>, ScrapeError> {
    match r {
        Ok(Some(c)) => Ok(Some((c.name@, c.magnet@))),
        Ok(None) => Ok(None),
        Err(e) => Err(e),
    }
}

/// Picks the first-ranked match from what the page selectors found.
pub fn candidate_from_links(
    tables: &Vec<Link>,
    rows: &Vec<Link>,
    magnets: &Vec<Link>,
    names: &Vec<Link>,
) -> (r: Result<Option<Candidate>, ScrapeError>)
    ensures
        candidate_view(r) == candidate_of(
            links_view(tables@),
            links_view(rows@),
            links_view(magnets@),
            links_view(names@),
        ),
{
    if tables.len() == 0 {
        return Err(ScrapeError::LayoutChanged);
    }
    if rows.len() == 0 {
        return Ok(None);
    }
    if magnets.len() == 0 || names.len() == 0 {
        return Err(ScrapeError::LayoutChanged);
    }
    match &magnets[0].href {
        Some(h) => Ok(Some(Candidate { name: names[0].text.clone(), magnet: h.clone() })),
        None => Err(ScrapeError::LayoutChanged),
    }
}

/// Selector of the results table.
pub open spec fn table_css() -> Seq<char> {
    "tbody"@
}

/// Selector of the first row of the results table.
pub open spec fn row_css() -> Seq<char> {
    "tbody > tr:first-child"@
}

/// Selector of the magnet anchor in the first row.
pub open spec fn magnet_css() -> Seq<char> {
    "tbody > tr:first-child > td:nth-child(3) > a:nth-child(2)"@
}

/// Selector of the name anchor in the first row.
pub open spec fn name_css() -> Seq<char> {
    "tbody > tr:first-child > td:nth-child(2) > a:last-child"@
}

/// What the search result page `html` offers, by the selectors above.
pub open spec fn page_candidate(html: Seq<char>) -> Result<Option<(Seq<char>, Seq<char>)>, ScrapeError> {
    match (
        selected_links(html, table_css()),
        selected_links(html, row_css()),
        selected_links(html, magnet_css()),
        selected_links(html, name_css()),
    ) {
        (Some(t), Some(r), Some(m), Some(n)) => candidate_of(t, r, m, n),
        _ => Err(ScrapeError::BadSelector),
    }
}

/// Reads the first-ranked match from a search result page.
pub fn find_candidate(html: &str) -> (r: Result<Option<Candidate>, ScrapeError>)
    ensures
        candidate_view(r) == page_candidate(html@),
{
    let tables = select_links(html, "tbody");
    let rows = select_links(html, "tbody > tr:first-child");
    let magnets = select_links(html, "tbody > tr:first-child > td:nth-child(3) > a:nth-child(2)");
    let names = select_links(html, "tbody > tr:first-child > td:nth-child(2) > a:last-child");
    match (tables, rows, magnets, names) {
        (Some(t), Some(r), Some(m), Some(n)) => candidate_from_links(&t, &r, &m, &n),
        _ => Err(ScrapeError::BadSelector),
    }
}

} // verus!
