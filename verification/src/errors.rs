//! The failures a resolution can end in.

use vstd::prelude::*;
use vstd::string::*;

verus! {

/// Why a resolution, or one tier of it, produced no record.
#[derive(Debug, PartialEq, Eq)]
pub enum OEmbedError {
    /// The request URL is not an absolute URL with a host. No tier runs.
    InvalidInput(String),
    /// A tier's fetch failed or its reply could not be used.
    UpstreamUnavailable(String),
    /// The extraction job was still running when the polling budget ran out.
    ExtractionTimedOut,
    /// The extraction job reported that it failed or was cancelled.
    ExtractionFailed(String),
    /// No tier produced any data.
    NoResult,
}

/// An `OEmbedError` with its texts as character sequences.
pub enum ErrorView {
    InvalidInput(Seq<char>),
    UpstreamUnavailable(Seq<char>),
    ExtractionTimedOut,
    ExtractionFailed(Seq<char>),
    NoResult,
}

impl ErrorView {
    /// The text shown to the caller for this failure.
    pub open spec fn message(self) -> Seq<char> {
        match self {
            ErrorView::InvalidInput(detail) => "Invalid URL: "@ + detail,
            ErrorView::UpstreamUnavailable(detail) => "HTTP request failed: "@ + detail,
            ErrorView::ExtractionTimedOut => "Max polling attempts reached"@,
            ErrorView::ExtractionFailed(detail) => detail,
            ErrorView::NoResult => "No oEmbed data found"@,
        }
    }
}

impl View for OEmbedError {
    type V = ErrorView;

    open spec fn view(&self) -> ErrorView {
        match self {
            OEmbedError::InvalidInput(detail) => ErrorView::InvalidInput(detail@),
            OEmbedError::UpstreamUnavailable(detail) => ErrorView::UpstreamUnavailable(detail@),
            OEmbedError::ExtractionTimedOut => ErrorView::ExtractionTimedOut,
            OEmbedError::ExtractionFailed(detail) => ErrorView::ExtractionFailed(detail@),
            OEmbedError::NoResult => ErrorView::NoResult,
        }
    }
}

impl OEmbedError {
    /// The text shown to the caller for this failure.
    pub fn message(&self) -> (text: String)
        ensures
            text@ == self@.message(),
    {
        match self {
            OEmbedError::InvalidInput(detail) => {
                String::from_str("Invalid URL: ").concat(detail.as_str())
            },
            OEmbedError::UpstreamUnavailable(detail) => {
                String::from_str("HTTP request failed: ").concat(detail.as_str())
            },
            OEmbedError::ExtractionTimedOut => String::from_str("Max polling attempts reached"),
            OEmbedError::ExtractionFailed(detail) => detail.clone(),
            OEmbedError::NoResult => String::from_str("No oEmbed data found"),
        }
    }
}

} // verus!
