use oembed_service::address::ParsedUrl;
use oembed_service::errors::OEmbedError;
use oembed_service::exchange::{Action, CallFailure, Event, ExtractedData};
use oembed_service::firecrawl_service::{
    ExtractionJob, FirecrawlService, JobStage, MAX_ATTEMPTS, POLL_DELAY_SECONDS,
};

fn service() -> FirecrawlService {
    FirecrawlService::new("SECRET-REDACTED".to_string())
}

fn page() -> ParsedUrl {
    ParsedUrl { text: "https://example.org/post".to_string(), host: Some("example.org".to_string()) }
}

fn polling(attempts: u32) -> ExtractionJob {
    ExtractionJob {
        url: "https://example.org/post".to_string(),
        stage: JobStage::Polling { id: "job-1".to_string(), attempts },
    }
}

fn status(text: &str) -> Event {
    Event::JobStatus { status: Some(text.to_string()), data: None }
}

fn payload() -> ExtractedData {
    ExtractedData {
        title: Some("T".to_string()),
        description: Some("D".to_string()),
        provider_url: Some("https://example.org".to_string()),
        provider_name: Some("Example".to_string()),
        article_image: Some("https://img/i.png".to_string()),
    }
}

fn fails_with(out: (ExtractionJob, Action)) -> OEmbedError {
    assert_eq!(out.0.stage, JobStage::Closed);
    match out.1 {
        Action::Finish(Err(error)) => error,
        other => panic!("expected a failure, got {:?}", other),
    }
}

#[test]
fn polling_constants() {
    assert_eq!(MAX_ATTEMPTS, 10);
    assert_eq!(POLL_DELAY_SECONDS, 2);
}

#[test]
fn job_starts_with_the_submission() {
    let (job, action) = service().firecrawl_extract(&page());
    assert_eq!(job.url, "https://example.org/post");
    assert_eq!(job.stage, JobStage::Submitting);
    assert_eq!(action, Action::SubmitJob { url: "https://example.org/post".to_string() });
}

#[test]
fn submission_carries_prompt_schema_and_token() {
    let request = service().extract("https://example.org/post");
    assert_eq!(request.endpoint, "https://api.firecrawl.dev/v1/extract");
    assert_eq!(request.authorization, "Bearer SECRET-REDACTED");
    assert_eq!(request.urls, vec!["https://example.org/post".to_string()]);
    assert_eq!(
        request.prompt,
        "Extract the article title, article image, description, provider url and provider name."
    );
    assert_eq!(
        request.properties,
        vec!["title", "description", "provider_url", "provider_name", "article_image"]
    );
    assert_eq!(request.required, vec!["title", "article_image"]);
}

#[test]
fn status_read_addresses_the_job() {
    let request = service().status_request("job-1");
    assert_eq!(request.endpoint, "https://api.firecrawl.dev/v1/extract/job-1");
    assert_eq!(request.authorization, "Bearer SECRET-REDACTED");
    assert_eq!(service().authorization(), "Bearer SECRET-REDACTED");
}

#[test]
fn submitted_job_is_polled_at_once() {
    let (job, _) = service().firecrawl_extract(&page());
    let (job, action) =
        service().get_extract_result(job, Event::JobSubmitted { id: Some("job-1".to_string()) });
    assert_eq!(job.stage, JobStage::Polling { id: "job-1".to_string(), attempts: 0 });
    assert_eq!(action, Action::PollJob { id: "job-1".to_string() });
}

#[test]
fn submission_without_identifier_fails_the_tier() {
    let (job, _) = service().firecrawl_extract(&page());
    let error = fails_with(service().get_extract_result(job, Event::JobSubmitted { id: None }));
    assert_eq!(error, OEmbedError::UpstreamUnavailable("No execution ID in response".to_string()));
}

#[test]
fn failed_submission_fails_the_tier() {
    let (job, _) = service().firecrawl_extract(&page());
    let error = fails_with(service().get_extract_result(
        job,
        Event::JobSubmitFailed(CallFailure::Send("connection refused".to_string())),
    ));
    assert_eq!(
        error,
        OEmbedError::UpstreamUnavailable(
            "Failed to start extraction: connection refused".to_string()
        )
    );
    let (job, _) = service().firecrawl_extract(&page());
    let error = fails_with(service().get_extract_result(
        job,
        Event::JobSubmitFailed(CallFailure::Decode("expected value".to_string())),
    ));
    assert_eq!(
        error,
        OEmbedError::UpstreamUnavailable(
            "Failed to parse extraction response: expected value".to_string()
        )
    );
}

#[test]
fn completed_job_maps_its_payload() {
    let event = Event::JobStatus { status: Some("completed".to_string()), data: Some(payload()) };
    let (job, action) = service().get_extract_result(polling(3), event);
    assert_eq!(job.stage, JobStage::Closed);
    let record = match action {
        Action::Finish(Ok(record)) => record,
        other => panic!("expected a record, got {:?}", other),
    };
    assert_eq!(record.response_type, "rich");
    assert_eq!(record.version, "1.0");
    assert_eq!(record.title, Some("T".to_string()));
    assert_eq!(record.author_name, None);
    assert_eq!(record.author_url, None);
    assert_eq!(record.provider_name, Some("Example".to_string()));
    assert_eq!(record.provider_url, Some("https://example.org".to_string()));
    assert_eq!(record.thumbnail_url, Some("https://img/i.png".to_string()));
    assert_eq!(record.thumbnail_width, None);
    assert_eq!(record.thumbnail_height, None);
    assert_eq!(
        record.html,
        Some(
            "<div><h3>T</h3><p>D</p><a href=\"https://example.org/post\" target=\"_blank\">View Original</a></div>"
                .to_string()
        )
    );
    assert_eq!(record.width, None);
    assert_eq!(record.height, None);
}

#[test]
fn completed_job_with_empty_payload_gives_defaults() {
    let data = ExtractedData {
        title: None,
        description: None,
        provider_url: None,
        provider_name: None,
        article_image: None,
    };
    let record = FirecrawlService::completed_record(data, "https://example.org/");
    assert_eq!(record.title, None);
    assert_eq!(record.thumbnail_url, None);
    assert_eq!(
        record.html,
        Some(
            "<div><h3>Untitled</h3><p></p><a href=\"https://example.org/\" target=\"_blank\">View Original</a></div>"
                .to_string()
        )
    );
}

#[test]
fn completed_job_without_payload_fails_the_tier() {
    let error = fails_with(service().get_extract_result(polling(0), status("completed")));
    assert_eq!(
        error,
        OEmbedError::UpstreamUnavailable("No data in completed response".to_string())
    );
}

#[test]
fn failed_job_ends_at_once() {
    let error = fails_with(service().get_extract_result(polling(0), status("failed")));
    assert_eq!(error, OEmbedError::ExtractionFailed("Extraction failed: job-1".to_string()));
}

#[test]
fn cancelled_job_ends_at_once() {
    let error = fails_with(service().get_extract_result(polling(4), status("cancelled")));
    assert_eq!(error, OEmbedError::ExtractionFailed("Extraction cancelled: job-1".to_string()));
}

#[test]
fn status_without_text_fails_the_tier() {
    let event = Event::JobStatus { status: None, data: Some(payload()) };
    let error = fails_with(service().get_extract_result(polling(0), event));
    assert_eq!(error, OEmbedError::UpstreamUnavailable("No status in response".to_string()));
}

#[test]
fn failed_status_read_fails_the_tier() {
    let error = fails_with(service().get_extract_result(
        polling(0),
        Event::JobStatusFailed(CallFailure::Send("timed out".to_string())),
    ));
    assert_eq!(
        error,
        OEmbedError::UpstreamUnavailable("Failed to get extraction status: timed out".to_string())
    );
    let error = fails_with(service().get_extract_result(
        polling(0),
        Event::JobStatusFailed(CallFailure::Decode("EOF".to_string())),
    ));
    assert_eq!(
        error,
        OEmbedError::UpstreamUnavailable("Failed to parse status response: EOF".to_string())
    );
}

#[test]
fn any_other_status_means_still_running() {
    for text in ["processing", "pending", "", "Completed", "FAILED"] {
        let (job, action) = service().get_extract_result(polling(2), status(text));
        assert_eq!(job.stage, JobStage::Waiting { id: "job-1".to_string(), attempts: 2 });
        assert_eq!(action, Action::Sleep { seconds: 2 });
    }
}

#[test]
fn pause_is_followed_by_the_next_read() {
    let waiting = ExtractionJob {
        url: "https://example.org/post".to_string(),
        stage: JobStage::Waiting { id: "job-1".to_string(), attempts: 2 },
    };
    let (job, action) = service().get_extract_result(waiting, Event::Elapsed);
    assert_eq!(job.stage, JobStage::Polling { id: "job-1".to_string(), attempts: 3 });
    assert_eq!(action, Action::PollJob { id: "job-1".to_string() });
}

#[test]
fn job_that_keeps_running_times_out_after_ten_reads() {
    let svc = service();
    let (job, _) = svc.firecrawl_extract(&page());
    let (mut job, mut action) =
        svc.get_extract_result(job, Event::JobSubmitted { id: Some("job-1".to_string()) });
    let mut reads = 0;
    let mut pauses = 0;
    loop {
        match action {
            Action::PollJob { ref id } => {
                assert_eq!(id, "job-1");
                reads += 1;
                assert!(reads <= 10);
                (job, action) = svc.get_extract_result(job, status("processing"));
            }
            Action::Sleep { seconds } => {
                assert_eq!(seconds, 2);
                pauses += 1;
                (job, action) = svc.get_extract_result(job, Event::Elapsed);
            }
            Action::Finish(outcome) => {
                assert_eq!(outcome, Err(OEmbedError::ExtractionTimedOut));
                break;
            }
            other => panic!("unexpected action {:?}", other),
        }
    }
    assert_eq!(reads, 10);
    assert_eq!(pauses, 10);
    assert_eq!(job.stage, JobStage::Closed);
}

#[test]
fn budget_holds_for_a_stage_beyond_it() {
    let waiting = ExtractionJob {
        url: "u".to_string(),
        stage: JobStage::Waiting { id: "job-1".to_string(), attempts: u32::MAX },
    };
    let error = fails_with(service().get_extract_result(waiting, Event::Elapsed));
    assert_eq!(error, OEmbedError::ExtractionTimedOut);
}

#[test]
fn event_that_answers_nothing_ends_the_tier_without_a_record() {
    let (job, _) = service().firecrawl_extract(&page());
    assert_eq!(fails_with(service().get_extract_result(job, Event::Elapsed)), OEmbedError::NoResult);
    assert_eq!(
        fails_with(service().get_extract_result(polling(0), Event::Elapsed)),
        OEmbedError::NoResult
    );
    let closed = ExtractionJob { url: "u".to_string(), stage: JobStage::Closed };
    assert_eq!(
        fails_with(service().get_extract_result(closed, status("completed"))),
        OEmbedError::NoResult
    );
    let waiting = ExtractionJob {
        url: "u".to_string(),
        stage: JobStage::Waiting { id: "job-1".to_string(), attempts: 0 },
    };
    assert_eq!(
        fails_with(service().get_extract_result(waiting, status("completed"))),
        OEmbedError::NoResult
    );
}
