//! The provider registry and the three-tier resolution pipeline built on it.

use vstd::prelude::*;
use vstd::string::*;
use crate::address::{parse_url, parsed_url, ParsedUrl, UrlView};
use crate::errors::{ErrorView, OEmbedError};
use crate::exchange::{
    is_success,
    outcome_view,
    status_is_success,
    Action,
    ActionView,
    CallFailure,
    Event,
    EventView,
    FailureView,
};
use crate::firecrawl_service::{
    job_step,
    keeps_running,
    poll_count,
    polls_left,
    MAX_ATTEMPTS,
    ExtractionJob,
    FirecrawlService,
    JobStage,
    JobView,
    StageView,
};
use crate::html::{parse_html, scraped};
use crate::models::{ConfigView, OEmbedRequest, OEmbedResponse, ProviderConfig, ResponseView};
use crate::text::{chars_of, contains_chars, is_substring, push_text};

verus! {

/// A registry row: the site identifier and what is configured for it.
pub type RowView = (Seq<char>, ConfigView);

/// A row whose provider answers at `endpoint`.
pub open spec fn row(site: Seq<char>, endpoint: Seq<char>, patterns: Seq<Seq<char>>) -> RowView {
    (site, ConfigView { oembed_endpoint: Some(endpoint), url_patterns: patterns })
}

/// The compiled-in provider table, in registration order.
pub open spec fn registry() -> Seq<RowView> {
    seq![
        row(
            "youtube.com"@,
            "https://www.youtube.com/oembed"@,
            seq!["youtube.com/watch?v="@, "youtu.be/"@],
        ),
        row("x.com"@, "https://publish.twitter.com/oembed"@, seq!["x.com/"@, "twitter.com/"@]),
        row("vimeo.com"@, "https://vimeo.com/api/oembed.json"@, seq!["vimeo.com/"@]),
        row("tiktok.com"@, "https://www.tiktok.com/oembed"@, seq!["tiktok.com/"@]),
        row(
            "spotify.com"@,
            "https://open.spotify.com/oembed"@,
            seq![
                "open.spotify.com/track/"@,
                "open.spotify.com/album/"@,
                "open.spotify.com/playlist/"@,
                "open.spotify.com/show/"@,
                "open.spotify.com/episode/"@,
            ],
        ),
        row("soundcloud.com"@, "https://soundcloud.com/oembed"@, seq!["soundcloud.com/"@]),
        row(
            "github.com"@,
            "https://github.com/api/oembed"@,
            seq!["github.com/"@, "gist.github.com/"@],
        ),
        row(
            "flickr.com"@,
            "https://www.flickr.com/services/oembed"@,
            seq!["flickr.com/photos/"@, "flic.kr/p/"@],
        ),
        row("medium.com"@, "https://medium.com/oembed"@, seq!["medium.com/"@]),
    ]
}

/// The raw URL contains one of the patterns.
pub open spec fn matches_pattern(raw: Seq<char>, patterns: Seq<Seq<char>>) -> bool {
    exists|k: int| 0 <= k < patterns.len() && is_substring(raw, #[trigger] patterns[k])
}

/// A URL matches a row if its host contains the site identifier or its raw text
/// contains one of the row's patterns. Case is not folded.
pub open spec fn row_matches(row: RowView, raw: Seq<char>, host: Seq<char>) -> bool {
    is_substring(host, row.0) || matches_pattern(raw, row.1.url_patterns)
}

/// The row matches and has an endpoint to ask.
pub open spec fn row_serves(row: RowView, raw: Seq<char>, host: Seq<char>) -> bool {
    row_matches(row, raw, host) && row.1.oembed_endpoint is Some
}

/// The index of the first row, from `from` on, that serves the URL.
pub open spec fn lookup_from(rows: Seq<RowView>, raw: Seq<char>, host: Seq<char>, from: int) -> Option<
    int,
>
    decreases rows.len() - from,
{
    if from < 0 || from >= rows.len() {
        None
    } else if row_serves(rows[from], raw, host) {
        Some(from)
    } else {
        lookup_from(rows, raw, host, from + 1)
    }
}

/// The first row, in registration order, that serves the URL.
pub open spec fn lookup(rows: Seq<RowView>, raw: Seq<char>, host: Seq<char>) -> Option<int> {
    lookup_from(rows, raw, host, 0)
}

/// The tier a resolution stands in.
#[derive(Debug, PartialEq, Eq)]
pub enum Tier {
    /// The matched provider's endpoint has been asked.
    KnownProvider,
    /// The page itself has been asked for.
    Page,
    /// The extraction job runs; `fallback` is what the page tier ended with.
    Job { job: ExtractionJob, fallback: Result<OEmbedResponse, OEmbedError> },
    /// The resolution has ended.
    Done,
}

/// A `Tier` with its texts as character sequences.
pub enum TierView {
    KnownProvider,
    Page,
    Job { job: JobView, fallback: Result<ResponseView, ErrorView> },
    Done,
}

impl View for Tier {
    type V = TierView;

    open spec fn view(&self) -> TierView {
        match self {
            Tier::KnownProvider => TierView::KnownProvider,
            Tier::Page => TierView::Page,
            Tier::Job { job, fallback } => TierView::Job {
                job: job@,
                fallback: outcome_view(*fallback),
            },
            Tier::Done => TierView::Done,
        }
    }
}

/// One resolution under way: the parsed request URL and the tier it stands in.
#[derive(Debug, PartialEq, Eq)]
pub struct Resolution {
    pub url: ParsedUrl,
    pub tier: Tier,
}

/// A `Resolution` with its texts as character sequences.
pub struct ResolutionView {
    pub url: UrlView,
    pub tier: TierView,
}

impl View for Resolution {
    type V = ResolutionView;

    open spec fn view(&self) -> ResolutionView {
        ResolutionView { url: self.url@, tier: self.tier@ }
    }
}

/// The call to the known provider that a parsed URL leads to: a URL without a host is
/// refused, the first row that serves the URL is asked, and a URL that no row serves
/// leads to no call.
pub open spec fn serving_call(rows: Seq<RowView>, raw: Seq<char>, url: UrlView) -> Result<
    Option<ActionView>,
    ErrorView,
> {
    match url.host {
        None => Err(ErrorView::InvalidInput("No host in URL"@)),
        Some(host) => Ok(
            match lookup(rows, raw, host) {
                Some(i) => Some(
                    ActionView::FetchProvider {
                        endpoint: rows[i].1.oembed_endpoint->0,
                        url: url.text,
                    },
                ),
                None => None,
            },
        ),
    }
}

/// The call to the known provider that a request leads to, given how its URL parsed:
/// an unparsable URL is refused with the parser's message.
pub open spec fn known_provider_for(
    rows: Seq<RowView>,
    raw: Seq<char>,
    parsed: Result<UrlView, Seq<char>>,
) -> Result<Option<ActionView>, ErrorView> {
    match parsed {
        Err(message) => Err(ErrorView::InvalidInput(message)),
        Ok(url) => serving_call(rows, raw, url),
    }
}

/// The view of a parse result.
pub open spec fn parse_view(parsed: Result<ParsedUrl, String>) -> Result<UrlView, Seq<char>> {
    match parsed {
        Ok(url) => Ok(url@),
        Err(message) => Err(message@),
    }
}

/// The view of a decision on the call to a known provider.
pub open spec fn call_view(decision: Result<Option<Action>, OEmbedError>) -> Result<
    Option<ActionView>,
    ErrorView,
> {
    match decision {
        Ok(Some(call)) => Ok(Some(call@)),
        Ok(None) => Ok(None),
        Err(error) => Err(error@),
    }
}

/// The view of how a resolution began.
pub open spec fn start_view(start: Result<(Resolution, Action), OEmbedError>) -> Result<
    (ResolutionView, ActionView),
    ErrorView,
> {
    match start {
        Ok(step) => Ok((step.0@, step.1@)),
        Err(error) => Err(error@),
    }
}

/// The call to the known provider that a request leads to.
pub open spec fn known_provider(rows: Seq<RowView>, raw: Seq<char>) -> Result<
    Option<ActionView>,
    ErrorView,
> {
    known_provider_for(rows, raw, parsed_url(raw))
}

/// How a resolution begins, given how its URL parsed: with the call to the first
/// provider that serves the URL, or with the fetch of the page where none does.
pub open spec fn begin_for(rows: Seq<RowView>, raw: Seq<char>, parsed: Result<UrlView, Seq<char>>) -> Result<
    (ResolutionView, ActionView),
    ErrorView,
> {
    match known_provider_for(rows, raw, parsed) {
        Err(error) => Err(error),
        Ok(Some(call)) => Ok((ResolutionView { url: parsed->Ok_0, tier: TierView::KnownProvider }, call)),
        Ok(None) => Ok(
            (
                ResolutionView { url: parsed->Ok_0, tier: TierView::Page },
                ActionView::FetchPage { url: parsed->Ok_0.text },
            ),
        ),
    }
}

/// How a resolution of the raw URL begins.
pub open spec fn begin(rows: Seq<RowView>, raw: Seq<char>) -> Result<
    (ResolutionView, ActionView),
    ErrorView,
> {
    begin_for(rows, raw, parsed_url(raw))
}

/// The resolution ends with `outcome`.
pub open spec fn finished(url: UrlView, outcome: Result<ResponseView, ErrorView>) -> (
    ResolutionView,
    ActionView,
) {
    (ResolutionView { url, tier: TierView::Done }, ActionView::Finish(outcome))
}

/// What the known provider's reply is worth: its record on a 2xx status with a
/// decodable body, nothing otherwise.
pub open spec fn provider_record(event: EventView) -> Option<ResponseView> {
    match event {
        EventView::ProviderReplied { status, record: Some(record) } => if is_success(status) {
            Some(record)
        } else {
            None
        },
        _ => None,
    }
}

/// What follows the known provider's reply: its record ends the resolution, anything
/// else leads on to the page.
pub open spec fn after_provider(url: UrlView, event: EventView) -> (ResolutionView, ActionView) {
    match event {
        EventView::ProviderReplied { status, record } => match provider_record(event) {
            Some(found) => finished(url, Ok(found)),
            None => (
                ResolutionView { url, tier: TierView::Page },
                ActionView::FetchPage { url: url.text },
            ),
        },
        EventView::ProviderFailed => (
            ResolutionView { url, tier: TierView::Page },
            ActionView::FetchPage { url: url.text },
        ),
        _ => finished(url, Err(ErrorView::NoResult)),
    }
}

/// What the page tier ends with, given the reply to the page fetch; `None` where the
/// event is no such reply.
pub open spec fn page_outcome(url: UrlView, event: EventView) -> Option<
    Result<ResponseView, ErrorView>,
> {
    match event {
        EventView::PageFetched { status, status_line, body } => Some(
            if is_success(status) {
                scraped(body, url)
            } else {
                Err(ErrorView::UpstreamUnavailable("Failed to fetch HTML: HTTP "@ + status_line))
            },
        ),
        EventView::PageFailed(FailureView::Send(message)) => Some(
            Err(ErrorView::UpstreamUnavailable("Failed to fetch HTML: "@ + message)),
        ),
        EventView::PageFailed(FailureView::Decode(message)) => Some(
            Err(ErrorView::UpstreamUnavailable(message)),
        ),
        _ => None,
    }
}

/// What follows the page tier: a record with title and thumbnail ends the
/// resolution; anything else starts the extraction job and is kept as its fallback.
pub open spec fn after_page(url: UrlView, outcome: Result<ResponseView, ErrorView>) -> (
    ResolutionView,
    ActionView,
) {
    if outcome is Ok && outcome->Ok_0.has_essentials() {
        finished(url, outcome)
    } else {
        (
            ResolutionView {
                url,
                tier: TierView::Job {
                    job: JobView { url: url.text, stage: StageView::Submitting },
                    fallback: outcome,
                },
            },
            ActionView::SubmitJob { url: url.text },
        )
    }
}

/// What follows a step of the extraction job: its record replaces the fallback, its
/// failure gives the fallback back, and anything else is passed on.
pub open spec fn after_job(
    url: UrlView,
    fallback: Result<ResponseView, ErrorView>,
    step: (JobView, ActionView),
) -> (ResolutionView, ActionView) {
    match step.1 {
        ActionView::Finish(Ok(record)) => finished(url, Ok(record)),
        ActionView::Finish(Err(error)) => finished(url, fallback),
        action => (ResolutionView { url, tier: TierView::Job { job: step.0, fallback } }, action),
    }
}

/// One step of a resolution: the state after `event`, and what it asks for next. An
/// event that does not answer what was last asked for ends the resolution without a
/// record.
pub open spec fn resolve_step(state: ResolutionView, event: EventView) -> (
    ResolutionView,
    ActionView,
) {
    match state.tier {
        TierView::KnownProvider => after_provider(state.url, event),
        TierView::Page => match page_outcome(state.url, event) {
            Some(outcome) => after_page(state.url, outcome),
            None => finished(state.url, Err(ErrorView::NoResult)),
        },
        TierView::Job { job, fallback } => after_job(state.url, fallback, job_step(job, event)),
        TierView::Done => finished(state.url, Err(ErrorView::NoResult)),
    }
}

/// The call to a known provider's endpoint: `GET {endpoint}` with the query pairs.
#[derive(Debug, PartialEq, Eq)]
pub struct ProviderRequest {
    pub endpoint: String,
    pub query: Vec<(String, String)>,
}

/// The fetch of a page: `GET {url}` with the headers.
#[derive(Debug, PartialEq, Eq)]
pub struct PageRequest {
    pub url: String,
    pub headers: Vec<(String, String)>,
}

/// The query of a provider call: the page URL, and JSON as the format.
pub open spec fn provider_query(url: Seq<char>) -> Seq<(Seq<char>, Seq<char>)> {
    seq![("url"@, url), ("format"@, "json"@)]
}

/// The target of a provider call written out: `{endpoint}?url={url}&format=json`.
pub open spec fn provider_target(endpoint: Seq<char>, url: Seq<char>) -> Seq<char> {
    endpoint + "?url="@ + url + "&format=json"@
}

/// The headers of a page fetch: those of a desktop browser, since sites turn other
/// clients away.
pub open spec fn page_headers() -> Seq<(Seq<char>, Seq<char>)> {
    seq![
        (
            "User-Agent"@,
            "Mozilla/5.0 (Windows NT 10.0; Win64; x64) AppleWebKit/537.36 (KHTML, like Gecko) Chrome/91.0.4472.124 Safari/537.36"@,
        ),
        (
            "Accept"@,
            "text/html,application/xhtml+xml,application/xml;q=0.9,image/webp,*/*;q=0.8"@,
        ),
        ("Accept-Language"@, "en-US,en;q=0.5"@),
        ("Connection"@, "keep-alive"@),
    ]
}

fn pair(name: &str, value: &str) -> (out: (String, String))
    ensures
        out.deep_view() == (name@, value@),
{
    (String::from_str(name), String::from_str(value))
}

/// The registry of known providers and the job client behind the last tier.
pub struct Provider {
    providers: Vec<(String, ProviderConfig)>,
    firecrawl_service: FirecrawlService,
}

fn entry(site: &str, endpoint: &str, patterns: Vec<String>) -> (out: (String, ProviderConfig))
    ensures
        (out.0@, out.1@) == row(site@, endpoint@, patterns.deep_view()),
{
    (
        String::from_str(site),
        ProviderConfig {
            oembed_endpoint: Some(String::from_str(endpoint)),
            url_patterns: patterns,
        },
    )
}

fn one_pattern(first: &str) -> (list: Vec<String>)
    ensures
        list.deep_view() == seq![first@],
{
    let mut list: Vec<String> = Vec::new();
    push_text(&mut list, first);
    proof {
        assert(list.deep_view() =~= seq![first@]);
    }
    list
}

fn two_patterns(first: &str, second: &str) -> (list: Vec<String>)
    ensures
        list.deep_view() == seq![first@, second@],
{
    let mut list: Vec<String> = Vec::new();
    push_text(&mut list, first);
    push_text(&mut list, second);
    proof {
        assert(list.deep_view() =~= seq![first@, second@]);
    }
    list
}

fn any_pattern(raw: &Vec<char>, patterns: &Vec<String>) -> (found: bool)
    ensures
        found == matches_pattern(raw@, patterns.deep_view()),
{
    let ghost all = patterns.deep_view();
    let mut k: usize = 0;
    while k < patterns.len()
        invariant
            k <= patterns.len(),
            all == patterns.deep_view(),
            forall|j: int| 0 <= j < k ==> !is_substring(raw@, #[trigger] all[j]),
        decreases patterns.len() - k,
    {
        let needle = chars_of(patterns[k].as_str());
        assert(all[k as int] == patterns[k as int]@);
        if contains_chars(raw, &needle) {
            return true;
        }
        k += 1;
    }
    false
}

impl Provider {
    /// The registry rows, in registration order.
    pub closed spec fn entries(&self) -> Seq<RowView> {
        Seq::new(self.providers.len() as nat, |i: int| (self.providers[i].0@, self.providers[i].1@))
    }

    /// The API token of the job client.
    pub closed spec fn token(&self) -> Seq<char> {
        self.firecrawl_service.token()
    }

    /// The registry with its compiled-in table, and the job client for the last tier.
    pub fn new(firecrawl_service: FirecrawlService) -> (provider: Provider)
        ensures
            provider.entries() == registry(),
            provider.token() == firecrawl_service.token(),
    {
        let mut providers: Vec<(String, ProviderConfig)> = Vec::new();
        providers.push(
            entry(
                "youtube.com",
                "https://www.youtube.com/oembed",
                two_patterns("youtube.com/watch?v=", "youtu.be/"),
            ),
        );
        providers.push(
            entry(
                "x.com",
                "https://publish.twitter.com/oembed",
                two_patterns("x.com/", "twitter.com/"),
            ),
        );
        providers.push(
            entry("vimeo.com", "https://vimeo.com/api/oembed.json", one_pattern("vimeo.com/")),
        );
        providers.push(
            entry("tiktok.com", "https://www.tiktok.com/oembed", one_pattern("tiktok.com/")),
        );
        let mut spotify = two_patterns("open.spotify.com/track/", "open.spotify.com/album/");
        push_text(&mut spotify, "open.spotify.com/playlist/");
        push_text(&mut spotify, "open.spotify.com/show/");
        push_text(&mut spotify, "open.spotify.com/episode/");
        proof {
            assert(spotify.deep_view() =~= seq![
                "open.spotify.com/track/"@,
                "open.spotify.com/album/"@,
                "open.spotify.com/playlist/"@,
                "open.spotify.com/show/"@,
                "open.spotify.com/episode/"@,
            ]);
        }
        providers.push(entry("spotify.com", "https://open.spotify.com/oembed", spotify));
        providers.push(
            entry("soundcloud.com", "https://soundcloud.com/oembed", one_pattern("soundcloud.com/")),
        );
        providers.push(
            entry(
                "github.com",
                "https://github.com/api/oembed",
                two_patterns("github.com/", "gist.github.com/"),
            ),
        );
        providers.push(
            entry(
                "flickr.com",
                "https://www.flickr.com/services/oembed",
                two_patterns("flickr.com/photos/", "flic.kr/p/"),
            ),
        );
        providers.push(
            entry("medium.com", "https://medium.com/oembed", one_pattern("medium.com/")),
        );
        let provider = Provider { providers, firecrawl_service };
        proof {
            assert(provider.entries() =~= registry());
        }
        provider
    }

    /// The job client.
    pub fn firecrawl_service(&self) -> (service: &FirecrawlService)
        ensures
            service.token() == self.token(),
    {
        &self.firecrawl_service
    }

    /// The call that `FetchProvider` stands for.
    pub fn fetch_oembed(endpoint: &str, url: &str) -> (request: ProviderRequest)
        ensures
            request.endpoint@ == endpoint@,
            request.query.deep_view() == provider_query(url@),
    {
        let mut query: Vec<(String, String)> = Vec::new();
        query.push(pair("url", url));
        query.push(pair("format", "json"));
        proof {
            assert(query.deep_view() =~= provider_query(url@));
        }
        ProviderRequest { endpoint: String::from_str(endpoint), query }
    }

    /// The target of a provider call written out, as it reads in a log.
    pub fn describe_fetch(endpoint: &str, url: &str) -> (target: String)
        ensures
            target@ == provider_target(endpoint@, url@),
    {
        let mut target = String::from_str(endpoint);
        target.append("?url=");
        target.append(url);
        target.append("&format=json");
        target
    }

    /// The fetch that `FetchPage` stands for.
    pub fn fetch_page(url: &str) -> (request: PageRequest)
        ensures
            request.url@ == url@,
            request.headers.deep_view() == page_headers(),
    {
        let mut headers: Vec<(String, String)> = Vec::new();
        headers.push(
            pair(
                "User-Agent",
                "Mozilla/5.0 (Windows NT 10.0; Win64; x64) AppleWebKit/537.36 (KHTML, like Gecko) Chrome/91.0.4472.124 Safari/537.36",
            ),
        );
        headers.push(
            pair(
                "Accept",
                "text/html,application/xhtml+xml,application/xml;q=0.9,image/webp,*/*;q=0.8",
            ),
        );
        headers.push(pair("Accept-Language", "en-US,en;q=0.5"));
        headers.push(pair("Connection", "keep-alive"));
        proof {
            assert(headers.deep_view() =~= page_headers());
        }
        PageRequest { url: String::from_str(url), headers }
    }

    /// Finds the first registered provider that serves a URL with this raw text and host.
    pub fn lookup(&self, raw: &str, host: &str) -> (found: Option<usize>)
        ensures
            lookup(self.entries(), raw@, host@) == match found {
                Some(i) => Some(i as int),
                None => None,
            },
    {
        let raw_chars = chars_of(raw);
        let host_chars = chars_of(host);
        let ghost rows = self.entries();
        let mut i: usize = 0;
        while i < self.providers.len()
            invariant
                i <= self.providers.len(),
                rows == self.entries(),
                raw_chars@ == raw@,
                host_chars@ == host@,
                lookup(rows, raw@, host@) == lookup_from(rows, raw@, host@, i as int),
            decreases self.providers.len() - i,
        {
            let site = chars_of(self.providers[i].0.as_str());
            assert(rows[i as int] == (self.providers[i as int].0@, self.providers[i as int].1@));
            if self.providers[i].1.oembed_endpoint.is_some() && (contains_chars(&host_chars, &site)
                || any_pattern(&raw_chars, &self.providers[i].1.url_patterns)) {
                return Some(i);
            }
            i += 1;
        }
        None
    }
}


fn ended(url: ParsedUrl, outcome: Result<OEmbedResponse, OEmbedError>) -> (out: (
    Resolution,
    Action,
))
    ensures
        (out.0@, out.1@) == finished(url@, outcome_view(outcome)),
{
    (Resolution { url, tier: Tier::Done }, Action::Finish(outcome))
}

fn to_page(url: ParsedUrl) -> (out: (Resolution, Action))
    ensures
        out.0@ == (ResolutionView { url: url@, tier: TierView::Page }),
        out.1@ == (ActionView::FetchPage { url: url@.text }),
{
    let fetch = Action::FetchPage { url: url.text.clone() };
    (Resolution { url, tier: Tier::Page }, fetch)
}

fn page_failure(prefix: &str, message: &String) -> (out: Result<OEmbedResponse, OEmbedError>)
    ensures
        outcome_view(out) == Err::<ResponseView, ErrorView>(
            ErrorView::UpstreamUnavailable(prefix@ + message@),
        ),
{
    Err(OEmbedError::UpstreamUnavailable(String::from_str(prefix).concat(message.as_str())))
}

impl Provider {
    /// Decides the call to the known provider for a URL that has been parsed.
    pub fn provider_for(&self, raw: &str, url: &ParsedUrl) -> (out: Result<
        Option<Action>,
        OEmbedError,
    >)
        ensures
            call_view(out) == serving_call(self.entries(), raw@, url@),
    {
        let host = match &url.host {
            Some(host) => host,
            None => {
                return Err(OEmbedError::InvalidInput(String::from_str("No host in URL")));
            },
        };
        match self.lookup(raw, host.as_str()) {
            Some(i) => {
                proof {
                    lemma_lookup_serves(self.entries(), raw@, host@, 0);
                    assert(self.entries()[i as int] == (
                        self.providers[i as int].0@,
                        self.providers[i as int].1@,
                    ));
                }
                match &self.providers[i].1.oembed_endpoint {
                    Some(endpoint) => Ok(
                        Some(
                            Action::FetchProvider {
                                endpoint: endpoint.clone(),
                                url: url.text.clone(),
                            },
                        ),
                    ),
                    None => Ok(None),
                }
            },
            None => Ok(None),
        }
    }

    /// Decides the call to the known provider from the request's raw URL and its parse.
    pub fn match_provider(&self, raw: &str, parsed: &Result<ParsedUrl, String>) -> (out: Result<
        Option<Action>,
        OEmbedError,
    >)
        ensures
            call_view(out) == known_provider_for(self.entries(), raw@, parse_view(*parsed)),
    {
        match parsed {
            Ok(url) => self.provider_for(raw, url),
            Err(message) => Err(OEmbedError::InvalidInput(message.clone())),
        }
    }

    /// Decides the call to the known provider for a request: the first registered
    /// provider that serves its URL is asked, and where none does there is no call.
    pub fn try_known_provider(&self, request: &OEmbedRequest) -> (out: Result<
        Option<Action>,
        OEmbedError,
    >)
        ensures
            call_view(out) == known_provider(self.entries(), request.url@),
    {
        let parsed = parse_url(request.url.as_str());
        self.match_provider(request.url.as_str(), &parsed)
    }

    /// Begins a resolution from the request's raw URL and its parse.
    pub fn begin_with(&self, raw: &str, parsed: Result<ParsedUrl, String>) -> (out: Result<
        (Resolution, Action),
        OEmbedError,
    >)
        ensures
            start_view(out) == begin_for(self.entries(), raw@, parse_view(parsed)),
    {
        match parsed {
            Err(message) => Err(OEmbedError::InvalidInput(message)),
            Ok(url) => match self.provider_for(raw, &url) {
                Err(error) => Err(error),
                Ok(Some(fetch)) => Ok((Resolution { url, tier: Tier::KnownProvider }, fetch)),
                Ok(None) => Ok(to_page(url)),
            },
        }
    }

    /// Begins the resolution of a request. A URL that does not parse, or has no host,
    /// is refused and nothing is asked for; otherwise the first action is the call to
    /// the matching provider or, where none matches, the fetch of the page.
    pub fn get_oembed(&self, request: OEmbedRequest) -> (out: Result<
        (Resolution, Action),
        OEmbedError,
    >)
        ensures
            start_view(out) == begin(self.entries(), request.url@),
    {
        let parsed = parse_url(request.url.as_str());
        self.begin_with(request.url.as_str(), parsed)
    }

    /// Continues after the page tier has ended with `outcome`.
    pub fn continue_after_page(&self, url: ParsedUrl, outcome: Result<OEmbedResponse, OEmbedError>) -> (out: (
        Resolution,
        Action,
    ))
        ensures
            (out.0@, out.1@) == after_page(url@, outcome_view(outcome)),
    {
        let enough = match &outcome {
            Ok(record) => record.has_essentials(),
            Err(_) => false,
        };
        if enough {
            ended(url, outcome)
        } else {
            let (job, submit) = self.firecrawl_service.firecrawl_extract(&url);
            (Resolution { url, tier: Tier::Job { job, fallback: outcome } }, submit)
        }
    }

    /// One step of a resolution: takes the reply to what was last asked for and gives
    /// the next state with what it asks for next. `Finish` ends the resolution.
    pub fn advance(&self, state: Resolution, event: Event) -> (out: (Resolution, Action))
        ensures
            (out.0@, out.1@) == resolve_step(state@, event@),
    {
        let Resolution { url, tier } = state;
        match tier {
            Tier::KnownProvider => match event {
                Event::ProviderReplied { status, record } => {
                    if status_is_success(status) {
                        match record {
                            Some(found) => ended(url, Ok(found)),
                            None => to_page(url),
                        }
                    } else {
                        to_page(url)
                    }
                },
                Event::ProviderFailed => to_page(url),
                _ => ended(url, Err(OEmbedError::NoResult)),
            },
            Tier::Page => match event {
                Event::PageFetched { status, status_line, body } => {
                    let outcome = if status_is_success(status) {
                        parse_html(body.as_str(), &url)
                    } else {
                        page_failure("Failed to fetch HTML: HTTP ", &status_line)
                    };
                    self.continue_after_page(url, outcome)
                },
                Event::PageFailed(CallFailure::Send(message)) => {
                    let outcome = page_failure("Failed to fetch HTML: ", &message);
                    self.continue_after_page(url, outcome)
                },
                Event::PageFailed(CallFailure::Decode(message)) => {
                    let outcome = Err(OEmbedError::UpstreamUnavailable(message));
                    self.continue_after_page(url, outcome)
                },
                _ => ended(url, Err(OEmbedError::NoResult)),
            },
            Tier::Job { job, fallback } => {
                let (next, action) = self.firecrawl_service.get_extract_result(job, event);
                match action {
                    Action::Finish(Ok(record)) => ended(url, Ok(record)),
                    Action::Finish(Err(_)) => ended(url, fallback),
                    other => (Resolution { url, tier: Tier::Job { job: next, fallback } }, other),
                }
            },
            Tier::Done => ended(url, Err(OEmbedError::NoResult)),
        }
    }
}

/// A row that the lookup returns serves the URL.
pub proof fn lemma_lookup_serves(rows: Seq<RowView>, raw: Seq<char>, host: Seq<char>, from: int)
    requires
        0 <= from,
    ensures
        lookup_from(rows, raw, host, from) matches Some(i) ==> from <= i < rows.len() && row_serves(
            rows[i],
            raw,
            host,
        ) && forall|j: int| from <= j < i ==> !row_serves(#[trigger] rows[j], raw, host),
        lookup_from(rows, raw, host, from) is None ==> forall|j: int|
            from <= j < rows.len() ==> !row_serves(#[trigger] rows[j], raw, host),
    decreases rows.len() - from,
{
    if from < rows.len() && !row_serves(rows[from], raw, host) {
        lemma_lookup_serves(rows, raw, host, from + 1);
    }
}


/// The actions a resolution asks for while `events` answer it, one after the other.
pub open spec fn resolve_run(state: ResolutionView, events: Seq<EventView>) -> Seq<ActionView>
    decreases events.len(),
{
    if events.len() == 0 {
        Seq::<ActionView>::empty()
    } else {
        let step = resolve_step(state, events[0]);
        seq![step.1] + resolve_run(step.0, events.drop_first())
    }
}

/// How many of the actions are calls to a known provider's endpoint.
pub open spec fn provider_calls(actions: Seq<ActionView>) -> nat
    decreases actions.len(),
{
    if actions.len() == 0 {
        0
    } else {
        (if actions[0] is FetchProvider {
            1nat
        } else {
            0nat
        }) + provider_calls(actions.drop_first())
    }
}

/// The outcome that the first `Finish` among the actions carries.
pub open spec fn outcome_of(actions: Seq<ActionView>) -> Option<Result<ResponseView, ErrorView>>
    decreases actions.len(),
{
    if actions.len() == 0 {
        None
    } else {
        match actions[0] {
            ActionView::Finish(outcome) => Some(outcome),
            _ => outcome_of(actions.drop_first()),
        }
    }
}

/// Once a resolution has begun, no step of it calls a provider endpoint, whatever
/// the replies are.
pub proof fn lemma_no_provider_call_after_start(state: ResolutionView, events: Seq<EventView>)
    ensures
        provider_calls(resolve_run(state, events)) == 0,
    decreases events.len(),
{
    if events.len() > 0 {
        let step = resolve_step(state, events[0]);
        let rest = resolve_run(step.0, events.drop_first());
        lemma_no_provider_call_after_start(step.0, events.drop_first());
        assert((seq![step.1] + rest).drop_first() =~= rest);
    }
}

/// For a URL that parses, has a host and is served by a registered provider, the
/// resolution begins with the call to the first such provider's endpoint, and that is
/// the only call to a provider endpoint in the whole resolution: every page fetch
/// comes after it.
pub proof fn lemma_known_provider_asked_once(
    rows: Seq<RowView>,
    raw: Seq<char>,
    events: Seq<EventView>,
)
    requires
        parsed_url(raw) is Ok,
        parsed_url(raw)->Ok_0.host is Some,
        exists|i: int|
            0 <= i < rows.len() && row_serves(
                #[trigger] rows[i],
                raw,
                parsed_url(raw)->Ok_0.host->0,
            ),
    ensures
        begin(rows, raw) is Ok,
        lookup(rows, raw, parsed_url(raw)->Ok_0.host->0) is Some,
        ({
            let start = begin(rows, raw)->Ok_0;
            let url = parsed_url(raw)->Ok_0;
            let first = lookup(rows, raw, url.host->0)->0;
            let actions = seq![start.1] + resolve_run(start.0, events);
            &&& start.1 == ActionView::FetchProvider {
                endpoint: rows[first].1.oembed_endpoint->0,
                url: url.text,
            }
            &&& provider_calls(actions) == 1
            &&& forall|k: int| 0 <= k < actions.len() && #[trigger] actions[k] is FetchPage ==> k > 0
        }),
{
    let host = parsed_url(raw)->Ok_0.host->0;
    lemma_lookup_serves(rows, raw, host, 0);
    let start = begin(rows, raw)->Ok_0;
    let rest = resolve_run(start.0, events);
    lemma_no_provider_call_after_start(start.0, events);
    assert((seq![start.1] + rest).drop_first() =~= rest);
}

/// For a URL that no registered provider serves, no step of the resolution calls a
/// provider endpoint: it begins with the fetch of the page.
pub proof fn lemma_unknown_provider_never_asked(
    rows: Seq<RowView>,
    raw: Seq<char>,
    events: Seq<EventView>,
)
    requires
        parsed_url(raw) is Ok,
        parsed_url(raw)->Ok_0.host is Some,
        forall|i: int|
            0 <= i < rows.len() ==> !row_serves(
                #[trigger] rows[i],
                raw,
                parsed_url(raw)->Ok_0.host->0,
            ),
    ensures
        begin(rows, raw) is Ok,
        ({
            let start = begin(rows, raw)->Ok_0;
            &&& start.1 == ActionView::FetchPage { url: parsed_url(raw)->Ok_0.text }
            &&& provider_calls(seq![start.1] + resolve_run(start.0, events)) == 0
        }),
{
    let host = parsed_url(raw)->Ok_0.host->0;
    lemma_lookup_serves(rows, raw, host, 0);
    let start = begin(rows, raw)->Ok_0;
    let rest = resolve_run(start.0, events);
    lemma_no_provider_call_after_start(start.0, events);
    assert((seq![start.1] + rest).drop_first() =~= rest);
}

/// How many status reads a resolution in this tier may still ask for.
pub open spec fn tier_polls_left(tier: TierView) -> nat {
    match tier {
        TierView::KnownProvider => MAX_ATTEMPTS as nat,
        TierView::Page => MAX_ATTEMPTS as nat,
        TierView::Job { job, fallback } => polls_left(job.stage),
        TierView::Done => 0,
    }
}

/// Whatever the replies are, a resolution asks for at most `MAX_ATTEMPTS` status
/// reads of its extraction job.
pub proof fn lemma_resolution_poll_budget(state: ResolutionView, events: Seq<EventView>)
    ensures
        poll_count(resolve_run(state, events)) <= tier_polls_left(state.tier),
        tier_polls_left(state.tier) <= MAX_ATTEMPTS,
    decreases events.len(),
{
    if events.len() > 0 {
        let step = resolve_step(state, events[0]);
        let rest = resolve_run(step.0, events.drop_first());
        lemma_resolution_poll_budget(step.0, events.drop_first());
        assert((seq![step.1] + rest).drop_first() =~= rest);
    }
}

/// When every status read finds the job still running, the budget runs out and the
/// resolution ends with what the page tier had: its record where it produced one,
/// its error where it did not.
pub proof fn lemma_timeout_gives_fallback(
    url: UrlView,
    fallback: Result<ResponseView, ErrorView>,
    id: Seq<char>,
    attempts: u32,
    events: Seq<EventView>,
)
    requires
        attempts < MAX_ATTEMPTS,
        keeps_running(events, (MAX_ATTEMPTS - attempts) as nat),
    ensures
        ({
            let state = ResolutionView {
                url,
                tier: TierView::Job {
                    job: JobView { url: url.text, stage: StageView::Polling { id, attempts } },
                    fallback,
                },
            };
            &&& resolve_run(state, events).len() == events.len()
            &&& resolve_run(state, events).last() == ActionView::Finish(fallback)
            &&& outcome_of(resolve_run(state, events)) == Some(fallback)
        }),
    decreases MAX_ATTEMPTS - attempts,
{
    let state = ResolutionView {
        url,
        tier: TierView::Job {
            job: JobView { url: url.text, stage: StageView::Polling { id, attempts } },
            fallback,
        },
    };
    let first = resolve_step(state, events[0]);
    let tail = events.drop_first();
    let second = resolve_step(first.0, tail[0]);
    let rest = tail.drop_first();
    let run = resolve_run(state, events);
    let run_tail = resolve_run(first.0, tail);
    let run_rest = resolve_run(second.0, rest);
    assert(rest =~= events.skip(2));
    assert(keeps_running(rest, (MAX_ATTEMPTS - attempts - 1) as nat));
    assert(run.drop_first() =~= run_tail);
    assert(run_tail.drop_first() =~= run_rest);
    if attempts + 1 >= MAX_ATTEMPTS {
        assert(run.last() == second.1);
        assert(outcome_of(run_tail) == Some(fallback));
    } else {
        lemma_timeout_gives_fallback(url, fallback, id, (attempts + 1) as u32, rest);
        assert(run.last() == run_rest.last());
        assert(outcome_of(run_tail) == outcome_of(run_rest));
    }
}

/// Two replies are the same but, at most, for the identifier that a successful
/// submission returned.
pub open spec fn same_reply(a: EventView, b: EventView) -> bool {
    a == b || (a matches EventView::JobSubmitted { id: Some(x) } && b matches EventView::JobSubmitted {
        id: Some(y),
    })
}

/// Two runs of replies are the same but for job identifiers.
pub open spec fn same_replies(a: Seq<EventView>, b: Seq<EventView>) -> bool {
    a.len() == b.len() && forall|i: int| 0 <= i < a.len() ==> same_reply(#[trigger] a[i], b[i])
}

/// Two job stages are the same but for the job identifier.
pub open spec fn same_stage(a: StageView, b: StageView) -> bool {
    match (a, b) {
        (StageView::Polling { id: x, attempts: m }, StageView::Polling { id: y, attempts: n }) => m
            == n,
        (StageView::Waiting { id: x, attempts: m }, StageView::Waiting { id: y, attempts: n }) => m
            == n,
        _ => a == b,
    }
}

/// Two resolutions are the same but for the job identifier.
pub open spec fn same_state(a: ResolutionView, b: ResolutionView) -> bool {
    a.url == b.url && match (a.tier, b.tier) {
        (TierView::Job { job: j, fallback: f }, TierView::Job { job: k, fallback: g }) => f == g
            && j.url == k.url && same_stage(j.stage, k.stage),
        _ => a.tier == b.tier,
    }
}

/// Two actions are the same but for the job identifier of a status read.
pub open spec fn same_action(a: ActionView, b: ActionView) -> bool {
    a == b || (a is PollJob && b is PollJob)
}

/// A step keeps two resolutions the same but for the job identifier.
pub proof fn lemma_step_ignores_job_id(
    a: ResolutionView,
    b: ResolutionView,
    x: EventView,
    y: EventView,
)
    requires
        same_state(a, b),
        same_reply(x, y),
    ensures
        same_state(resolve_step(a, x).0, resolve_step(b, y).0),
        same_action(resolve_step(a, x).1, resolve_step(b, y).1),
{
}

/// The outcome of a resolution depends on the request and on what the upstream
/// services replied, never on the identifier that the job API handed out: two runs
/// that differ in nothing else end with the same outcome.
pub proof fn lemma_outcome_ignores_job_id(
    a: ResolutionView,
    b: ResolutionView,
    replies_a: Seq<EventView>,
    replies_b: Seq<EventView>,
)
    requires
        same_state(a, b),
        same_replies(replies_a, replies_b),
    ensures
        outcome_of(resolve_run(a, replies_a)) == outcome_of(resolve_run(b, replies_b)),
    decreases replies_a.len(),
{
    if replies_a.len() > 0 {
        let step_a = resolve_step(a, replies_a[0]);
        let step_b = resolve_step(b, replies_b[0]);
        lemma_step_ignores_job_id(a, b, replies_a[0], replies_b[0]);
        let rest_a = replies_a.drop_first();
        let rest_b = replies_b.drop_first();
        assert forall|i: int| 0 <= i < rest_a.len() implies same_reply(
            #[trigger] rest_a[i],
            rest_b[i],
        ) by {
            assert(same_reply(replies_a[i + 1], replies_b[i + 1]));
        }
        lemma_outcome_ignores_job_id(step_a.0, step_b.0, rest_a, rest_b);
        let run_a = resolve_run(step_a.0, rest_a);
        let run_b = resolve_run(step_b.0, rest_b);
        assert((seq![step_a.1] + run_a).drop_first() =~= run_a);
        assert((seq![step_b.1] + run_b).drop_first() =~= run_b);
    }
}

/// Resolving the same URL twice against the same replies gives the same outcome,
/// whichever job identifiers were handed out.
pub proof fn lemma_resolve_repeatable(
    rows: Seq<RowView>,
    raw: Seq<char>,
    replies_a: Seq<EventView>,
    replies_b: Seq<EventView>,
)
    requires
        begin(rows, raw) is Ok,
        same_replies(replies_a, replies_b),
    ensures
        ({
            let start = begin(rows, raw)->Ok_0;
            outcome_of(seq![start.1] + resolve_run(start.0, replies_a)) == outcome_of(
                seq![start.1] + resolve_run(start.0, replies_b),
            )
        }),
{
    let start = begin(rows, raw)->Ok_0;
    lemma_outcome_ignores_job_id(start.0, start.0, replies_a, replies_b);
    let run_a = resolve_run(start.0, replies_a);
    let run_b = resolve_run(start.0, replies_b);
    assert((seq![start.1] + run_a).drop_first() =~= run_a);
    assert((seq![start.1] + run_b).drop_first() =~= run_b);
}

} // verus!
