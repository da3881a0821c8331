//! Extraction of title, description, thumbnail and site name from a page's meta tags.

use vstd::prelude::*;
use vstd::string::*;
use crate::address::{ParsedUrl, UrlView};
use crate::errors::{ErrorView, OEmbedError};
use crate::exchange::outcome_view;
use crate::models::{OEmbedResponse, ResponseView};
use crate::text::{push_text, starts_with, trim, trimmed};

verus! {

/// What the extractor reads of an element that a selector matched.
#[derive(Debug, PartialEq, Eq)]
pub struct Element {
    /// The `content` attribute, where the element has one.
    pub content: Option<String>,
    /// The element's text nodes, joined.
    pub text: String,
}

/// An element as a pair: its `content` attribute and its text.
pub type ElementView = (Option<Seq<char>>, Seq<char>);

impl DeepView for Element {
    type V = ElementView;

    open spec fn deep_view(&self) -> ElementView {
        (self.content.deep_view(), self.text@)
    }
}

/// The elements of the document `html` that the CSS selector `selector` matches, in
/// the order in which the document yields them; `None` where the selector does not parse.
pub uninterp spec fn select_all(html: Seq<char>, selector: Seq<char>) -> Option<
    Seq<(Option<Seq<char>>, Seq<char>)>,
>;

/// Parses `html` with `scraper::Html::parse_document` and, for each selector, parses
/// it with `scraper::Selector::parse` and walks `Html::select`. Each matched element is
/// handed out as its `content` attribute (`Element::attr`) and its joined text
/// (`ElementRef::text`). Nothing is claimed of the matches but that they depend on
/// the document text and the selector alone.
#[verifier::external_body]
pub(crate) fn select_each(html: &str, selectors: &Vec<String>) -> (out: Vec<Option<Vec<Element>>>)
    ensures
        out.len() == selectors.len(),
        forall|i: int|
            0 <= i < selectors.len() ==> (#[trigger] out[i]).deep_view() == select_all(
                html@,
                selectors[i]@,
            ),
{
    let document = scraper::Html::parse_document(html);
    selectors.iter().map(|text| {
        let selector = scraper::Selector::parse(text).ok()?;
        let found = document.select(&selector).map(|element| Element {
            content: element.value().attr("content").map(|value| value.to_string()),
            text: element.text().collect::<Vec<_>>().join(""),
        });
        Some(found.collect())
    }).collect()
}

/// Whether a selector asks for the `<title>` element, whose value is its text.
pub open spec fn selects_title(selector: Seq<char>) -> bool {
    "title"@.is_prefix_of(selector)
}

/// The value an element gives under a selector: trimmed text for the title element,
/// the `content` attribute for a meta tag.
pub open spec fn element_value(selector: Seq<char>, element: ElementView) -> Option<Seq<char>> {
    if selects_title(selector) {
        Some(trimmed(element.1))
    } else {
        element.0
    }
}

/// The value of the first element that gives one.
pub open spec fn first_in(selector: Seq<char>, elements: Seq<ElementView>) -> Option<Seq<char>>
    decreases elements.len(),
{
    if elements.len() == 0 {
        None
    } else {
        match element_value(selector, elements[0]) {
            Some(value) => Some(value),
            None => first_in(selector, elements.drop_first()),
        }
    }
}

/// What one selector contributes, given what it matched.
pub open spec fn selector_value(selector: Seq<char>, matched: Option<Seq<ElementView>>) -> Option<
    Seq<char>,
> {
    match matched {
        Some(elements) => first_in(selector, elements),
        None => None,
    }
}

/// The value of the first selector, in list order, that contributes one.
pub open spec fn first_value(
    selectors: Seq<Seq<char>>,
    matches: Seq<Option<Seq<ElementView>>>,
) -> Option<Seq<char>>
    decreases selectors.len(),
{
    if selectors.len() == 0 || matches.len() == 0 {
        None
    } else {
        match selector_value(selectors[0], matches[0]) {
            Some(value) => Some(value),
            None => first_value(selectors.drop_first(), matches.drop_first()),
        }
    }
}

/// What each selector of the list matches in the document.
pub open spec fn matches_of(html: Seq<char>, selectors: Seq<Seq<char>>) -> Seq<
    Option<Seq<ElementView>>,
> {
    Seq::new(selectors.len(), |i: int| select_all(html, selectors[i]))
}

/// The field value that an ordered selector list extracts from a document.
pub open spec fn extracted(html: Seq<char>, selectors: Seq<Seq<char>>) -> Option<Seq<char>> {
    first_value(selectors, matches_of(html, selectors))
}

/// The value of the first element, in match order, that gives one under `selector`.
fn first_element_value(selector: &str, elements: &Vec<Element>) -> (out: Option<String>)
    ensures
        out.deep_view() == first_in(selector@, elements.deep_view()),
{
    let by_text = starts_with(selector, "title");
    let ghost all = elements.deep_view();
    let mut i: usize = 0;
    proof {
        assert(all.skip(0) =~= all);
    }
    while i < elements.len()
        invariant
            i <= elements.len(),
            all == elements.deep_view(),
            by_text == selects_title(selector@),
            first_in(selector@, all) == first_in(selector@, all.skip(i as int)),
        decreases elements.len() - i,
    {
        proof {
            assert(all.skip(i as int).drop_first() =~= all.skip(i + 1));
            assert(all.skip(i as int)[0] == elements[i as int].deep_view());
        }
        if by_text {
            return Some(trim(elements[i].text.as_str()));
        }
        match &elements[i].content {
            Some(content) => {
                return Some(content.clone());
            },
            None => {},
        }
        i += 1;
    }
    None
}

/// Picks a field value from what each selector of an ordered list matched: the first
/// selector with an element that gives a value wins, and that element's value is taken.
pub fn pick_value(selectors: &Vec<String>, matches: &Vec<Option<Vec<Element>>>) -> (out: Option<
    String,
>)
    ensures
        out.deep_view() == first_value(selectors.deep_view(), matches.deep_view()),
{
    let ghost names = selectors.deep_view();
    let ghost found = matches.deep_view();
    let mut i: usize = 0;
    proof {
        assert(names.skip(0) =~= names);
        assert(found.skip(0) =~= found);
    }
    while i < selectors.len() && i < matches.len()
        invariant
            i <= selectors.len(),
            i <= matches.len(),
            names == selectors.deep_view(),
            found == matches.deep_view(),
            first_value(names, found) == first_value(names.skip(i as int), found.skip(i as int)),
        decreases selectors.len() - i,
    {
        proof {
            assert(names.skip(i as int).drop_first() =~= names.skip(i + 1));
            assert(found.skip(i as int).drop_first() =~= found.skip(i + 1));
            assert(names.skip(i as int)[0] == selectors[i as int]@);
            assert(found.skip(i as int)[0] == matches[i as int].deep_view());
        }
        let here = match &matches[i] {
            Some(elements) => first_element_value(selectors[i].as_str(), elements),
            None => None,
        };
        if here.is_some() {
            return here;
        }
        i += 1;
    }
    None
}

/// Extracts one field from a document through an ordered list of selectors.
pub fn extract_meta_content(html: &str, selectors: &Vec<String>) -> (out: Option<String>)
    ensures
        out.deep_view() == extracted(html@, selectors.deep_view()),
{
    let matches = select_each(html, selectors);
    proof {
        assert(matches.deep_view() =~= matches_of(html@, selectors.deep_view()));
    }
    pick_value(selectors, &matches)
}


/// The selectors tried for the title, in order.
pub open spec fn title_selectors() -> Seq<Seq<char>> {
    seq!["meta[property='og:title']"@, "meta[name='twitter:title']"@, "title"@]
}

/// The selectors tried for the description, in order.
pub open spec fn description_selectors() -> Seq<Seq<char>> {
    seq![
        "meta[property='og:description']"@,
        "meta[name='twitter:description']"@,
        "meta[name='description']"@,
    ]
}

/// The selectors tried for the thumbnail, in order.
pub open spec fn thumbnail_selectors() -> Seq<Seq<char>> {
    seq!["meta[property='og:image']"@, "meta[name='twitter:image']"@]
}

/// The selectors tried for the site name, in order.
pub open spec fn site_name_selectors() -> Seq<Seq<char>> {
    seq!["meta[property='og:site_name']"@, "meta[name='twitter:site']"@]
}

/// A list of two selectors.
fn selector_pair(first: &str, second: &str) -> (list: Vec<String>)
    ensures
        list.deep_view() == seq![first@, second@],
{
    let mut list: Vec<String> = Vec::new();
    push_text(&mut list, first);
    push_text(&mut list, second);
    proof {
        assert(list.deep_view() =~= seq![first@, second@]);
    }
    list
}

/// A list of three selectors.
fn selector_triple(first: &str, second: &str, third: &str) -> (list: Vec<String>)
    ensures
        list.deep_view() == seq![first@, second@, third@],
{
    let mut list = selector_pair(first, second);
    push_text(&mut list, third);
    proof {
        assert(list.deep_view() =~= seq![first@, second@, third@]);
    }
    list
}

/// The markup that a record carries for embedding: title, description and a link back.
pub open spec fn embed_markup(
    title: Option<Seq<char>>,
    description: Option<Seq<char>>,
    url: Seq<char>,
) -> Seq<char> {
    "<div><h3>"@ + (match title {
        Some(t) => t,
        None => "Untitled"@,
    }) + "</h3><p>"@ + (match description {
        Some(d) => d,
        None => ""@,
    }) + "</p><a href=\""@ + url + "\" target=\"_blank\">View Original</a></div>"@
}

/// Builds the embed markup: "Untitled" stands for a missing title, nothing for a
/// missing description.
pub fn embed_html(title: &Option<String>, description: &Option<String>, url: &str) -> (out: String)
    ensures
        out@ == embed_markup(title.deep_view(), description.deep_view(), url@),
{
    let mut out = String::from_str("<div><h3>");
    match title {
        Some(t) => out.append(t.as_str()),
        None => out.append("Untitled"),
    }
    out.append("</h3><p>");
    match description {
        Some(d) => out.append(d.as_str()),
        None => out.append(""),
    }
    out.append("</p><a href=\"");
    out.append(url);
    out.append("\" target=\"_blank\">View Original</a></div>");
    out
}

/// The record built from the four extracted fields: the provider URL comes from the
/// host, the embed markup from title and description. A URL without a host is refused.
pub open spec fn page_record_of(
    title: Option<Seq<char>>,
    description: Option<Seq<char>>,
    thumbnail: Option<Seq<char>>,
    site_name: Option<Seq<char>>,
    url: UrlView,
) -> Result<ResponseView, ErrorView> {
    match url.host {
        None => Err(ErrorView::InvalidInput("No host in URL"@)),
        Some(host) => Ok(
            ResponseView {
                response_type: "rich"@,
                version: "1.0"@,
                title,
                author_name: None,
                author_url: None,
                provider_name: site_name,
                provider_url: Some("https://"@ + host),
                thumbnail_url: thumbnail,
                thumbnail_width: None,
                thumbnail_height: None,
                html: Some(embed_markup(title, description, url.text)),
                width: None,
                height: None,
            },
        ),
    }
}

/// The record scraped from a page: each field through its own selector list.
pub open spec fn scraped(html: Seq<char>, url: UrlView) -> Result<ResponseView, ErrorView> {
    page_record_of(
        extracted(html, title_selectors()),
        extracted(html, description_selectors()),
        extracted(html, thumbnail_selectors()),
        extracted(html, site_name_selectors()),
        url,
    )
}

/// Builds the record from the four extracted fields. Missing fields stay absent;
/// only a URL without a host is refused.
pub fn page_record(
    title: Option<String>,
    description: Option<String>,
    thumbnail: Option<String>,
    site_name: Option<String>,
    url: &ParsedUrl,
) -> (out: Result<OEmbedResponse, OEmbedError>)
    ensures
        outcome_view(out) == page_record_of(
            title.deep_view(),
            description.deep_view(),
            thumbnail.deep_view(),
            site_name.deep_view(),
            url@,
        ),
{
    let host = match &url.host {
        Some(host) => host,
        None => {
            return Err(OEmbedError::InvalidInput(String::from_str("No host in URL")));
        },
    };
    let markup = embed_html(&title, &description, url.text.as_str());
    Ok(
        OEmbedResponse {
            response_type: String::from_str("rich"),
            version: String::from_str("1.0"),
            title,
            author_name: None,
            author_url: None,
            provider_name: site_name,
            provider_url: Some(String::from_str("https://").concat(host.as_str())),
            thumbnail_url: thumbnail,
            thumbnail_width: None,
            thumbnail_height: None,
            html: Some(markup),
            width: None,
            height: None,
        },
    )
}

/// Scrapes a fetched page into a record.
pub fn parse_html(html: &str, url: &ParsedUrl) -> (out: Result<OEmbedResponse, OEmbedError>)
    ensures
        outcome_view(out) == scraped(html@, url@),
{
    let title = extract_meta_content(
        html,
        &selector_triple("meta[property='og:title']", "meta[name='twitter:title']", "title"),
    );
    let description = extract_meta_content(
        html,
        &selector_triple(
            "meta[property='og:description']",
            "meta[name='twitter:description']",
            "meta[name='description']",
        ),
    );
    let thumbnail = extract_meta_content(
        html,
        &selector_pair("meta[property='og:image']", "meta[name='twitter:image']"),
    );
    let site_name = extract_meta_content(
        html,
        &selector_pair("meta[property='og:site_name']", "meta[name='twitter:site']"),
    );
    page_record(title, description, thumbnail, site_name, url)
}

/// A title that an `og:title` tag gives is the page's title, whatever the
/// `twitter:title` tag or the `<title>` element hold.
pub proof fn lemma_og_title_wins(html: Seq<char>, value: Seq<char>)
    requires
        selector_value("meta[property='og:title']"@, select_all(html, "meta[property='og:title']"@))
            == Some(value),
    ensures
        extracted(html, title_selectors()) == Some(value),
{
}

/// A selector list yields what its first selector gives, where that gives a value:
/// later selectors are fallbacks only.
pub proof fn lemma_first_selector_wins(
    selectors: Seq<Seq<char>>,
    matches: Seq<Option<Seq<ElementView>>>,
    value: Seq<char>,
)
    requires
        selectors.len() > 0,
        matches.len() > 0,
        selector_value(selectors[0], matches[0]) == Some(value),
    ensures
        first_value(selectors, matches) == Some(value),
{
}

} // verus!
