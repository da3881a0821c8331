//! The request URL as the resolver reads it: its normalised text and its host.

use vstd::prelude::*;
use vstd::string::*;

verus! {

/// What the resolver reads of a parsed absolute URL.
#[derive(Debug, PartialEq, Eq)]
pub struct ParsedUrl {
    /// The URL in its normalised form.
    pub text: String,
    /// The host, where the URL has one.
    pub host: Option<String>,
}

/// A parsed URL with its texts as character sequences.
pub struct UrlView {
    pub text: Seq<char>,
    pub host: Option<Seq<char>>,
}

impl View for ParsedUrl {
    type V = UrlView;

    open spec fn view(&self) -> UrlView {
        UrlView { text: self.text@, host: self.host.deep_view() }
    }
}

/// What parsing `input` as an absolute URL gives: the normalised text and the host,
/// or the parser's message.
pub uninterp spec fn url_parse(input: Seq<char>) -> Result<
    (Seq<char>, Option<Seq<char>>),
    Seq<char>,
>;

/// The parse of `input` as a `UrlView`.
pub open spec fn parsed_url(input: Seq<char>) -> Result<UrlView, Seq<char>> {
    match url_parse(input) {
        Ok(parts) => Ok(UrlView { text: parts.0, host: parts.1 }),
        Err(message) => Err(message),
    }
}

/// Calls `url::Url::parse`. On success the result holds `Url::as_str` and
/// `Url::host_str` of the parsed URL, on failure the `ParseError` as text. Nothing is
/// claimed of the parse but that it depends on `input` alone.
#[verifier::external_body]
pub(crate) fn parse_url(input: &str) -> (out: Result<ParsedUrl, String>)
    ensures
        url_parse(input@) == match out {
            Ok(url) => Ok::<(Seq<char>, Option<Seq<char>>), Seq<char>>((url.text@, url.host.deep_view())),
            Err(message) => Err(message@),
        },
{
    match url::Url::parse(input) {
        Ok(url) => Ok(
            ParsedUrl {
                text: url.as_str().to_string(),
                host: url.host_str().map(|host| host.to_string()),
            },
        ),
        Err(error) => Err(error.to_string()),
    }
}

} // verus!
