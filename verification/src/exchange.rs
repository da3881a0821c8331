//! What passes between the pipeline and whoever performs its outbound calls: the
//! actions the pipeline asks for and the events that answer them.

use vstd::prelude::*;
use crate::errors::{ErrorView, OEmbedError};
use crate::models::{OEmbedResponse, ResponseView};

verus! {

/// Why an outbound call gave nothing to read.
#[derive(Debug, PartialEq, Eq)]
pub enum CallFailure {
    /// The request could not be sent or no response came back.
    Send(String),
    /// The response body could not be read or decoded.
    Decode(String),
}

/// A `CallFailure` with its texts as character sequences.
pub enum FailureView {
    Send(Seq<char>),
    Decode(Seq<char>),
}

impl View for CallFailure {
    type V = FailureView;

    open spec fn view(&self) -> FailureView {
        match self {
            CallFailure::Send(message) => FailureView::Send(message@),
            CallFailure::Decode(message) => FailureView::Decode(message@),
        }
    }
}

/// The result payload of a completed extraction job.
#[derive(Debug, PartialEq, Eq)]
pub struct ExtractedData {
    pub title: Option<String>,
    pub description: Option<String>,
    pub provider_url: Option<String>,
    pub provider_name: Option<String>,
    pub article_image: Option<String>,
}

/// An `ExtractedData` with its texts as character sequences.
pub struct DataView {
    pub title: Option<Seq<char>>,
    pub description: Option<Seq<char>>,
    pub provider_url: Option<Seq<char>>,
    pub provider_name: Option<Seq<char>>,
    pub article_image: Option<Seq<char>>,
}

impl View for ExtractedData {
    type V = DataView;

    open spec fn view(&self) -> DataView {
        DataView {
            title: self.title.deep_view(),
            description: self.description.deep_view(),
            provider_url: self.provider_url.deep_view(),
            provider_name: self.provider_name.deep_view(),
            article_image: self.article_image.deep_view(),
        }
    }
}

/// What came back from the outbound call that the pipeline last asked for.
#[allow(inconsistent_fields)]
#[derive(Debug, PartialEq, Eq)]
pub enum Event {
    /// The provider endpoint answered; `record` is its body where it decodes as a record.
    ProviderReplied { status: u16, record: Option<OEmbedResponse> },
    /// The call to the provider endpoint failed.
    ProviderFailed,
    /// The page answered; `status_line` is the status as text, such as `404 Not Found`.
    PageFetched { status: u16, status_line: String, body: String },
    /// The page could not be fetched or read.
    PageFailed(CallFailure),
    /// The job was submitted; `id` is the job identifier where the reply holds one.
    JobSubmitted { id: Option<String> },
    /// The submission failed.
    JobSubmitFailed(CallFailure),
    /// The job's status was read; `data` is the result payload where the reply holds one.
    JobStatus { status: Option<String>, data: Option<ExtractedData> },
    /// The status could not be read.
    JobStatusFailed(CallFailure),
    /// The requested pause is over.
    Elapsed,
}

/// An `Event` with its texts as character sequences.
#[allow(inconsistent_fields)]
pub enum EventView {
    ProviderReplied { status: u16, record: Option<ResponseView> },
    ProviderFailed,
    PageFetched { status: u16, status_line: Seq<char>, body: Seq<char> },
    PageFailed(FailureView),
    JobSubmitted { id: Option<Seq<char>> },
    JobSubmitFailed(FailureView),
    JobStatus { status: Option<Seq<char>>, data: Option<DataView> },
    JobStatusFailed(FailureView),
    Elapsed,
}

impl View for Event {
    type V = EventView;

    open spec fn view(&self) -> EventView {
        match self {
            Event::ProviderReplied { status, record } => EventView::ProviderReplied {
                status: *status,
                record: match record {
                    Some(r) => Some(r@),
                    None => None,
                },
            },
            Event::ProviderFailed => EventView::ProviderFailed,
            Event::PageFetched { status, status_line, body } => EventView::PageFetched {
                status: *status,
                status_line: status_line@,
                body: body@,
            },
            Event::PageFailed(failure) => EventView::PageFailed(failure@),
            Event::JobSubmitted { id } => EventView::JobSubmitted { id: id.deep_view() },
            Event::JobSubmitFailed(failure) => EventView::JobSubmitFailed(failure@),
            Event::JobStatus { status, data } => EventView::JobStatus {
                status: status.deep_view(),
                data: match data {
                    Some(d) => Some(d@),
                    None => None,
                },
            },
            Event::JobStatusFailed(failure) => EventView::JobStatusFailed(failure@),
            Event::Elapsed => EventView::Elapsed,
        }
    }
}

/// The view of a tier's outcome.
pub open spec fn outcome_view(outcome: Result<OEmbedResponse, OEmbedError>) -> Result<
    ResponseView,
    ErrorView,
> {
    match outcome {
        Ok(record) => Ok(record@),
        Err(error) => Err(error@),
    }
}

/// What the pipeline asks for next.
#[derive(Debug, PartialEq, Eq)]
pub enum Action {
    /// `GET {endpoint}?url={url}&format=json`.
    FetchProvider { endpoint: String, url: String },
    /// `GET {url}` with the page headers.
    FetchPage { url: String },
    /// Submit `url` to the extraction job API.
    SubmitJob { url: String },
    /// Read the status of the job `id`.
    PollJob { id: String },
    /// Pause for `seconds`.
    Sleep { seconds: u64 },
    /// The pipeline has ended with this outcome.
    Finish(Result<OEmbedResponse, OEmbedError>),
}

/// An `Action` with its texts as character sequences.
pub enum ActionView {
    FetchProvider { endpoint: Seq<char>, url: Seq<char> },
    FetchPage { url: Seq<char> },
    SubmitJob { url: Seq<char> },
    PollJob { id: Seq<char> },
    Sleep { seconds: u64 },
    Finish(Result<ResponseView, ErrorView>),
}

impl View for Action {
    type V = ActionView;

    open spec fn view(&self) -> ActionView {
        match self {
            Action::FetchProvider { endpoint, url } => ActionView::FetchProvider {
                endpoint: endpoint@,
                url: url@,
            },
            Action::FetchPage { url } => ActionView::FetchPage { url: url@ },
            Action::SubmitJob { url } => ActionView::SubmitJob { url: url@ },
            Action::PollJob { id } => ActionView::PollJob { id: id@ },
            Action::Sleep { seconds } => ActionView::Sleep { seconds: *seconds },
            Action::Finish(outcome) => ActionView::Finish(outcome_view(*outcome)),
        }
    }
}

/// Whether an HTTP status is in the 2xx class.
pub open spec fn is_success(status: u16) -> bool {
    200 <= status < 300
}

/// Whether an HTTP status is in the 2xx class.
pub fn status_is_success(status: u16) -> (yes: bool)
    ensures
        yes == is_success(status),
{
    200 <= status && status < 300
}

} // verus!
