use oembed_service::address::ParsedUrl;
use oembed_service::errors::OEmbedError;
use oembed_service::exchange::{status_is_success, Action, CallFailure, Event, ExtractedData};
use oembed_service::firecrawl_service::{FirecrawlService, JobStage};
use oembed_service::models::{OEmbedRequest, OEmbedResponse};
use oembed_service::provider::{Provider, Resolution, Tier};

fn provider() -> Provider {
    Provider::new(FirecrawlService::new("SECRET-REDACTED".to_string()))
}

fn begin(url: &str) -> (Resolution, Action) {
    provider().get_oembed(OEmbedRequest { url: url.to_string() }).unwrap()
}

fn video_record() -> OEmbedResponse {
    OEmbedResponse {
        response_type: "video".to_string(),
        version: "1.0".to_string(),
        title: Some("A video".to_string()),
        author_name: Some("Someone".to_string()),
        author_url: Some("https://www.youtube.com/@someone".to_string()),
        provider_name: Some("YouTube".to_string()),
        provider_url: Some("https://www.youtube.com/".to_string()),
        thumbnail_url: Some("https://i.ytimg.com/vi/abc123/hqdefault.jpg".to_string()),
        thumbnail_width: Some(480),
        thumbnail_height: Some(360),
        html: Some("<iframe></iframe>".to_string()),
        width: Some(200),
        height: Some(113),
    }
}

fn page(status: u16, line: &str, body: &str) -> Event {
    Event::PageFetched { status, status_line: line.to_string(), body: body.to_string() }
}

const FULL_PAGE: &str = r#"<html><head><meta property="og:title" content="A post">
    <meta property="og:image" content="https://example.org/cover.png"></head></html>"#;

const PAGE_WITHOUT_IMAGE: &str =
    r#"<html><head><meta property="og:title" content="A post"></head></html>"#;

fn running() -> Event {
    Event::JobStatus { status: Some("processing".to_string()), data: None }
}

fn record_of(action: Action) -> OEmbedResponse {
    match action {
        Action::Finish(Ok(record)) => record,
        other => panic!("expected a record, got {:?}", other),
    }
}

fn drive(mut state: Resolution, mut action: Action, replies: Vec<Event>) -> (Vec<Action>, Action) {
    let p = provider();
    let mut asked = Vec::new();
    for reply in replies {
        asked.push(action);
        (state, action) = p.advance(state, reply);
    }
    (asked, action)
}

#[test]
fn success_statuses_are_the_2xx_class() {
    assert!(!status_is_success(199));
    assert!(status_is_success(200));
    assert!(status_is_success(204));
    assert!(status_is_success(299));
    assert!(!status_is_success(300));
    assert!(!status_is_success(404));
    assert!(!status_is_success(0));
}

#[test]
fn provider_record_ends_the_resolution() {
    let (state, action) = begin("https://youtu.be/abc123");
    assert_eq!(
        action,
        Action::FetchProvider {
            endpoint: "https://www.youtube.com/oembed".to_string(),
            url: "https://youtu.be/abc123".to_string(),
        }
    );
    let reply = Event::ProviderReplied { status: 200, record: Some(video_record()) };
    let (state, action) = provider().advance(state, reply);
    assert_eq!(state.tier, Tier::Done);
    assert_eq!(action, Action::Finish(Ok(video_record())));
}

#[test]
fn provider_is_asked_once_and_before_any_page_fetch() {
    let (state, action) = begin("https://youtu.be/abc123");
    let replies = vec![
        Event::ProviderFailed,
        page(200, "200 OK", PAGE_WITHOUT_IMAGE),
        Event::JobSubmitted { id: Some("job-1".to_string()) },
        running(),
        Event::Elapsed,
    ];
    let (asked, last) = drive(state, action, replies);
    let calls = asked.iter().filter(|a| matches!(a, Action::FetchProvider { .. })).count();
    assert_eq!(calls, 1);
    assert!(matches!(asked[0], Action::FetchProvider { .. }));
    assert!(matches!(asked[1], Action::FetchPage { .. }));
    assert!(matches!(last, Action::PollJob { .. }));
}

#[test]
fn unmatched_url_never_asks_a_provider() {
    let (state, action) = begin("https://example.org/post");
    let replies = vec![
        page(200, "200 OK", PAGE_WITHOUT_IMAGE),
        Event::JobSubmitted { id: Some("job-1".to_string()) },
        running(),
        Event::Elapsed,
        Event::JobStatus { status: Some("failed".to_string()), data: None },
        Event::ProviderFailed,
    ];
    let (asked, last) = drive(state, action, replies);
    assert!(asked.iter().all(|a| !matches!(a, Action::FetchProvider { .. })));
    assert!(!matches!(last, Action::FetchProvider { .. }));
}

#[test]
fn failed_provider_call_falls_through_to_the_page() {
    let (state, _) = begin("https://vimeo.com/1");
    let (state, action) = provider().advance(state, Event::ProviderFailed);
    assert_eq!(state.tier, Tier::Page);
    assert_eq!(action, Action::FetchPage { url: "https://vimeo.com/1".to_string() });
}

#[test]
fn provider_error_status_falls_through_to_the_page() {
    let (state, _) = begin("https://vimeo.com/1");
    let reply = Event::ProviderReplied { status: 404, record: Some(video_record()) };
    let (state, action) = provider().advance(state, reply);
    assert_eq!(state.tier, Tier::Page);
    assert_eq!(action, Action::FetchPage { url: "https://vimeo.com/1".to_string() });
}

#[test]
fn undecodable_provider_body_falls_through_to_the_page() {
    let (state, _) = begin("https://vimeo.com/1");
    let reply = Event::ProviderReplied { status: 200, record: None };
    let (state, action) = provider().advance(state, reply);
    assert_eq!(state.tier, Tier::Page);
    assert_eq!(action, Action::FetchPage { url: "https://vimeo.com/1".to_string() });
}

#[test]
fn page_with_title_and_image_ends_the_resolution() {
    let (state, action) = begin("https://example.org/post");
    assert_eq!(action, Action::FetchPage { url: "https://example.org/post".to_string() });
    let (state, action) = provider().advance(state, page(200, "200 OK", FULL_PAGE));
    assert_eq!(state.tier, Tier::Done);
    let record = record_of(action);
    assert_eq!(record.title, Some("A post".to_string()));
    assert_eq!(record.thumbnail_url, Some("https://example.org/cover.png".to_string()));
    assert_eq!(record.provider_url, Some("https://example.org".to_string()));
    assert_eq!(record.response_type, "rich");
}

#[test]
fn page_without_image_starts_the_job() {
    let (state, _) = begin("https://example.org/post");
    let (state, action) = provider().advance(state, page(200, "200 OK", PAGE_WITHOUT_IMAGE));
    assert_eq!(action, Action::SubmitJob { url: "https://example.org/post".to_string() });
    match state.tier {
        Tier::Job { job, fallback } => {
            assert_eq!(job.stage, JobStage::Submitting);
            assert_eq!(job.url, "https://example.org/post");
            let kept = fallback.unwrap();
            assert_eq!(kept.title, Some("A post".to_string()));
            assert_eq!(kept.thumbnail_url, None);
        }
        other => panic!("unexpected tier {:?}", other),
    }
}

#[test]
fn page_without_title_starts_the_job() {
    let body = r#"<head><meta property="og:image" content="https://example.org/c.png"></head>"#;
    let (state, _) = begin("https://example.org/post");
    let (_, action) = provider().advance(state, page(200, "200 OK", body));
    assert_eq!(action, Action::SubmitJob { url: "https://example.org/post".to_string() });
}

#[test]
fn job_timeout_gives_the_page_record_back() {
    let (state, action) = begin("https://example.org/post");
    let mut replies = vec![
        page(200, "200 OK", PAGE_WITHOUT_IMAGE),
        Event::JobSubmitted { id: Some("job-1".to_string()) },
    ];
    for _ in 0..10 {
        replies.push(running());
        replies.push(Event::Elapsed);
    }
    let (asked, last) = drive(state, action, replies);
    let reads = asked.iter().filter(|a| matches!(a, Action::PollJob { .. })).count();
    assert_eq!(reads, 10);
    let pauses = asked.iter().filter(|a| matches!(a, Action::Sleep { seconds: 2 })).count();
    assert_eq!(pauses, 10);
    let record = record_of(last);
    assert_eq!(record.title, Some("A post".to_string()));
    assert_eq!(record.thumbnail_url, None);
    assert_eq!(record.provider_url, Some("https://example.org".to_string()));
}

#[test]
fn job_record_replaces_the_page_record() {
    let (state, action) = begin("https://example.org/post");
    let data = ExtractedData {
        title: Some("From the job".to_string()),
        description: None,
        provider_url: None,
        provider_name: Some("Example".to_string()),
        article_image: Some("https://example.org/job.png".to_string()),
    };
    let replies = vec![
        page(200, "200 OK", PAGE_WITHOUT_IMAGE),
        Event::JobSubmitted { id: Some("job-1".to_string()) },
        running(),
        Event::Elapsed,
        Event::JobStatus { status: Some("completed".to_string()), data: Some(data) },
    ];
    let (_, last) = drive(state, action, replies);
    let record = record_of(last);
    assert_eq!(record.title, Some("From the job".to_string()));
    assert_eq!(record.thumbnail_url, Some("https://example.org/job.png".to_string()));
    assert_eq!(record.provider_name, Some("Example".to_string()));
    assert_eq!(record.provider_url, None);
}

#[test]
fn failed_job_gives_the_page_record_back() {
    let (state, action) = begin("https://example.org/post");
    let replies = vec![
        page(200, "200 OK", PAGE_WITHOUT_IMAGE),
        Event::JobSubmitted { id: Some("job-1".to_string()) },
        Event::JobStatus { status: Some("failed".to_string()), data: None },
    ];
    let (_, last) = drive(state, action, replies);
    let record = record_of(last);
    assert_eq!(record.title, Some("A post".to_string()));
    assert_eq!(record.thumbnail_url, None);
}

#[test]
fn failed_submission_gives_the_page_record_back() {
    let (state, action) = begin("https://example.org/post");
    let replies = vec![
        page(200, "200 OK", PAGE_WITHOUT_IMAGE),
        Event::JobSubmitFailed(CallFailure::Send("refused".to_string())),
    ];
    let (_, last) = drive(state, action, replies);
    assert_eq!(record_of(last).title, Some("A post".to_string()));
}

#[test]
fn page_error_status_is_remembered_while_the_job_runs() {
    let (state, _) = begin("https://example.org/post");
    let (state, action) = provider().advance(state, page(404, "404 Not Found", ""));
    assert_eq!(action, Action::SubmitJob { url: "https://example.org/post".to_string() });
    match state.tier {
        Tier::Job { fallback, .. } => assert_eq!(
            fallback,
            Err(OEmbedError::UpstreamUnavailable(
                "Failed to fetch HTML: HTTP 404 Not Found".to_string()
            ))
        ),
        other => panic!("unexpected tier {:?}", other),
    }
}

#[test]
fn page_error_surfaces_when_the_job_fails_too() {
    let (state, action) = begin("https://example.org/post");
    let replies = vec![
        Event::PageFailed(CallFailure::Send("dns error".to_string())),
        Event::JobSubmitted { id: None },
    ];
    let (_, last) = drive(state, action, replies);
    assert_eq!(
        last,
        Action::Finish(Err(OEmbedError::UpstreamUnavailable(
            "Failed to fetch HTML: dns error".to_string()
        )))
    );
}

#[test]
fn unreadable_page_body_surfaces_when_the_job_times_out() {
    let (state, action) = begin("https://example.org/post");
    let mut replies = vec![
        Event::PageFailed(CallFailure::Decode("invalid utf-8".to_string())),
        Event::JobSubmitted { id: Some("job-1".to_string()) },
    ];
    for _ in 0..10 {
        replies.push(running());
        replies.push(Event::Elapsed);
    }
    let (_, last) = drive(state, action, replies);
    assert_eq!(
        last,
        Action::Finish(Err(OEmbedError::UpstreamUnavailable("invalid utf-8".to_string())))
    );
}

#[test]
fn job_record_is_returned_after_a_page_error() {
    let (state, action) = begin("https://example.org/post");
    let data = ExtractedData {
        title: Some("From the job".to_string()),
        description: Some("Words".to_string()),
        provider_url: None,
        provider_name: None,
        article_image: None,
    };
    let replies = vec![
        page(500, "500 Internal Server Error", "<title>ignored</title>"),
        Event::JobSubmitted { id: Some("job-1".to_string()) },
        Event::JobStatus { status: Some("completed".to_string()), data: Some(data) },
    ];
    let (_, last) = drive(state, action, replies);
    let record = record_of(last);
    assert_eq!(record.title, Some("From the job".to_string()));
    assert_eq!(
        record.html,
        Some(
            "<div><h3>From the job</h3><p>Words</p><a href=\"https://example.org/post\" target=\"_blank\">View Original</a></div>"
                .to_string()
        )
    );
}

#[test]
fn resolving_twice_gives_the_same_record_whatever_the_job_identifier() {
    let run = |id: &str| {
        let (state, action) = begin("https://example.org/post");
        let mut replies = vec![
            page(200, "200 OK", PAGE_WITHOUT_IMAGE),
            Event::JobSubmitted { id: Some(id.to_string()) },
            running(),
            Event::Elapsed,
            Event::JobStatus { status: Some("cancelled".to_string()), data: None },
        ];
        replies.truncate(5);
        drive(state, action, replies).1
    };
    assert_eq!(run("job-1"), run("job-2"));
    assert_eq!(run("job-1"), run("job-1"));
}

#[test]
fn event_that_answers_nothing_ends_without_a_record() {
    let (state, _) = begin("https://youtu.be/abc123");
    let (state, action) = provider().advance(state, Event::Elapsed);
    assert_eq!(state.tier, Tier::Done);
    assert_eq!(action, Action::Finish(Err(OEmbedError::NoResult)));
    let (state, _) = begin("https://example.org/post");
    let (_, action) = provider().advance(state, Event::ProviderFailed);
    assert_eq!(action, Action::Finish(Err(OEmbedError::NoResult)));
}

#[test]
fn ended_resolution_stays_ended() {
    let (state, _) = begin("https://example.org/post");
    let (state, _) = provider().advance(state, page(200, "200 OK", FULL_PAGE));
    let (state, action) = provider().advance(state, page(200, "200 OK", FULL_PAGE));
    assert_eq!(state.tier, Tier::Done);
    assert_eq!(action, Action::Finish(Err(OEmbedError::NoResult)));
}

#[test]
fn continue_after_page_decides_on_title_and_thumbnail() {
    let url = || ParsedUrl {
        text: "https://example.org/post".to_string(),
        host: Some("example.org".to_string()),
    };
    let p = provider();
    let (next, action) = p.continue_after_page(url(), Ok(video_record()));
    assert_eq!(next.tier, Tier::Done);
    assert_eq!(action, Action::Finish(Ok(video_record())));
    let mut partial = video_record();
    partial.title = None;
    let (_, action) = p.continue_after_page(url(), Ok(partial));
    assert_eq!(action, Action::SubmitJob { url: "https://example.org/post".to_string() });
    let (_, action) = p.continue_after_page(url(), Err(OEmbedError::NoResult));
    assert_eq!(action, Action::SubmitJob { url: "https://example.org/post".to_string() });
}

#[test]
fn job_client_of_the_provider_keeps_its_token() {
    assert_eq!(provider().firecrawl_service().authorization(), "Bearer SECRET-REDACTED");
}
