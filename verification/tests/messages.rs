use oembed_service::errors::OEmbedError;
use oembed_service::models::{OEmbedRequest, OEmbedResponse};
use oembed_service::transport::{accept, reject, reply, Message};

fn record() -> OEmbedResponse {
    OEmbedResponse {
        response_type: "rich".to_string(),
        version: "1.0".to_string(),
        title: Some("T".to_string()),
        author_name: None,
        author_url: None,
        provider_name: None,
        provider_url: Some("https://example.org".to_string()),
        thumbnail_url: None,
        thumbnail_width: None,
        thumbnail_height: Some(9),
        html: Some("<div></div>".to_string()),
        width: Some(16),
        height: None,
    }
}

#[test]
fn error_messages() {
    assert_eq!(
        OEmbedError::InvalidInput("empty host".to_string()).message(),
        "Invalid URL: empty host"
    );
    assert_eq!(
        OEmbedError::UpstreamUnavailable("Failed to fetch HTML: HTTP 404 Not Found".to_string())
            .message(),
        "HTTP request failed: Failed to fetch HTML: HTTP 404 Not Found"
    );
    assert_eq!(OEmbedError::ExtractionTimedOut.message(), "Max polling attempts reached");
    assert_eq!(
        OEmbedError::ExtractionFailed("Extraction failed: job-1".to_string()).message(),
        "Extraction failed: job-1"
    );
    assert_eq!(OEmbedError::NoResult.message(), "No oEmbed data found");
}

#[test]
fn essentials_are_title_and_thumbnail() {
    let mut r = record();
    assert!(!r.has_essentials());
    r.thumbnail_url = Some("https://example.org/i.png".to_string());
    assert!(r.has_essentials());
    r.title = None;
    assert!(!r.has_essentials());
}

#[test]
fn record_is_sent_as_response() {
    assert_eq!(reply(Ok(record())), Message::Response(record()));
}

#[test]
fn failure_is_sent_as_error_with_its_message() {
    assert_eq!(
        reply(Err(OEmbedError::InvalidInput("empty host".to_string()))),
        Message::Error { message: "Error processing request: Invalid URL: empty host".to_string() }
    );
    assert_eq!(
        reply(Err(OEmbedError::ExtractionTimedOut)),
        Message::Error {
            message: "Error processing request: Max polling attempts reached".to_string()
        }
    );
}

#[test]
fn missing_result_is_sent_as_plain_error() {
    assert_eq!(
        reply(Err(OEmbedError::NoResult)),
        Message::Error { message: "No oEmbed data found".to_string() }
    );
}

#[test]
fn only_a_request_envelope_is_accepted() {
    let request = OEmbedRequest { url: "https://example.org/".to_string() };
    assert_eq!(
        accept(Message::Request(OEmbedRequest { url: "https://example.org/".to_string() })),
        Ok(request)
    );
    let refusal = Message::Error { message: "Invalid request".to_string() };
    assert_eq!(accept(Message::Response(record())), Err(Message::Error {
        message: "Invalid request".to_string()
    }));
    assert_eq!(accept(Message::Error { message: "x".to_string() }), Err(refusal));
}

#[test]
fn unreadable_line_is_answered_with_the_reason() {
    assert_eq!(
        reject("expected value at line 1 column 1"),
        Message::Error {
            message: "Error parsing request: expected value at line 1 column 1".to_string()
        }
    );
}
