//! The line-delimited envelope of the socket transport: which message answers which.

use vstd::prelude::*;
use vstd::string::*;
use crate::errors::{ErrorView, OEmbedError};
use crate::exchange::outcome_view;
use crate::models::{OEmbedRequest, OEmbedResponse, ResponseView};

verus! {

/// One envelope on the wire, tagged by its kind.
#[derive(Debug, PartialEq, Eq)]
pub enum Message {
    Request(OEmbedRequest),
    Response(OEmbedResponse),
    Error { message: String },
}

/// A `Message` with its texts as character sequences.
pub enum MessageView {
    Request(Seq<char>),
    Response(ResponseView),
    Error { message: Seq<char> },
}

impl View for Message {
    type V = MessageView;

    open spec fn view(&self) -> MessageView {
        match self {
            Message::Request(request) => MessageView::Request(request.url@),
            Message::Response(record) => MessageView::Response(record@),
            Message::Error { message } => MessageView::Error { message: message@ },
        }
    }
}

/// The envelope that answers a resolution's outcome.
pub open spec fn reply_for(outcome: Result<ResponseView, ErrorView>) -> MessageView {
    match outcome {
        Ok(record) => MessageView::Response(record),
        Err(ErrorView::NoResult) => MessageView::Error { message: ErrorView::NoResult.message() },
        Err(error) => MessageView::Error {
            message: "Error processing request: "@ + error.message(),
        },
    }
}

/// Wraps a resolution's outcome for the wire: a record as `Response`, a failure as
/// `Error` with its message.
pub fn reply(outcome: Result<OEmbedResponse, OEmbedError>) -> (message: Message)
    ensures
        message@ == reply_for(outcome_view(outcome)),
{
    match outcome {
        Ok(record) => Message::Response(record),
        Err(OEmbedError::NoResult) => Message::Error { message: OEmbedError::NoResult.message() },
        Err(error) => Message::Error {
            message: String::from_str("Error processing request: ").concat(
                error.message().as_str(),
            ),
        },
    }
}

/// Takes the request out of an inbound envelope. Any other kind of envelope is
/// answered with an `Error`.
pub fn accept(message: Message) -> (out: Result<OEmbedRequest, Message>)
    ensures
        match out {
            Ok(request) => message@ == MessageView::Request(request.url@),
            Err(refusal) => !(message is Request) && refusal@ == (MessageView::Error {
                message: "Invalid request"@,
            }),
        },
{
    match message {
        Message::Request(request) => Ok(request),
        _ => Err(Message::Error { message: String::from_str("Invalid request") }),
    }
}

/// The answer to a line that is no envelope at all; `detail` says why.
pub fn reject(detail: &str) -> (message: Message)
    ensures
        message@ == (MessageView::Error { message: "Error parsing request: "@ + detail@ }),
{
    Message::Error { message: String::from_str("Error parsing request: ").concat(detail) }
}

} // verus!
