//! The extraction-job client: submit a URL, poll the job a bounded number of times at
//! a fixed interval, and map a completed job's payload into a record.

use vstd::prelude::*;
use vstd::string::*;
use crate::address::ParsedUrl;
use crate::errors::{ErrorView, OEmbedError};
use crate::exchange::{
    outcome_view,
    Action,
    ActionView,
    CallFailure,
    DataView,
    Event,
    EventView,
    ExtractedData,
    FailureView,
};
use crate::html::{embed_html, embed_markup};
use crate::models::{OEmbedResponse, ResponseView};

verus! {

/// How many times a job's status is read before the job tier gives up.
pub const MAX_ATTEMPTS: u32 = 10;

/// The pause between two status reads, in seconds.
pub const POLL_DELAY_SECONDS: u64 = 2;

/// Where an extraction job stands.
#[derive(Debug, PartialEq, Eq)]
pub enum JobStage {
    /// The submission is under way.
    Submitting,
    /// A status read is under way; `attempts` reads found the job still running.
    Polling { id: String, attempts: u32 },
    /// The pause after a status read that found the job still running.
    Waiting { id: String, attempts: u32 },
    /// The job tier has ended.
    Closed,
}

/// A `JobStage` with its texts as character sequences.
pub enum StageView {
    Submitting,
    Polling { id: Seq<char>, attempts: u32 },
    Waiting { id: Seq<char>, attempts: u32 },
    Closed,
}

impl View for JobStage {
    type V = StageView;

    open spec fn view(&self) -> StageView {
        match self {
            JobStage::Submitting => StageView::Submitting,
            JobStage::Polling { id, attempts } => StageView::Polling {
                id: id@,
                attempts: *attempts,
            },
            JobStage::Waiting { id, attempts } => StageView::Waiting {
                id: id@,
                attempts: *attempts,
            },
            JobStage::Closed => StageView::Closed,
        }
    }
}

/// One extraction job: the page it is for, and where it stands.
#[derive(Debug, PartialEq, Eq)]
pub struct ExtractionJob {
    pub url: String,
    pub stage: JobStage,
}

/// An `ExtractionJob` with its texts as character sequences.
pub struct JobView {
    pub url: Seq<char>,
    pub stage: StageView,
}

impl View for ExtractionJob {
    type V = JobView;

    open spec fn view(&self) -> JobView {
        JobView { url: self.url@, stage: self.stage@ }
    }
}

/// The record that a completed job's payload maps to. Title, provider name, provider
/// URL and image are taken as they are; there is never an author.
pub open spec fn job_record(data: DataView, url: Seq<char>) -> ResponseView {
    ResponseView {
        response_type: "rich"@,
        version: "1.0"@,
        title: data.title,
        author_name: None,
        author_url: None,
        provider_name: data.provider_name,
        provider_url: data.provider_url,
        thumbnail_url: data.article_image,
        thumbnail_width: None,
        thumbnail_height: None,
        html: Some(embed_markup(data.title, data.description, url)),
        width: None,
        height: None,
    }
}

/// The job tier ends with `outcome`.
pub open spec fn job_closed(url: Seq<char>, outcome: Result<ResponseView, ErrorView>) -> (
    JobView,
    ActionView,
) {
    (JobView { url, stage: StageView::Closed }, ActionView::Finish(outcome))
}

/// The job tier ends without a record.
pub open spec fn job_failed(url: Seq<char>, error: ErrorView) -> (JobView, ActionView) {
    job_closed(url, Err(error))
}

/// What follows a reply to the submission.
pub open spec fn after_submission(url: Seq<char>, event: EventView) -> (JobView, ActionView) {
    match event {
        EventView::JobSubmitted { id: Some(id) } => (
            JobView { url, stage: StageView::Polling { id, attempts: 0 } },
            ActionView::PollJob { id },
        ),
        EventView::JobSubmitted { id: None } => job_failed(
            url,
            ErrorView::UpstreamUnavailable("No execution ID in response"@),
        ),
        EventView::JobSubmitFailed(FailureView::Send(message)) => job_failed(
            url,
            ErrorView::UpstreamUnavailable("Failed to start extraction: "@ + message),
        ),
        EventView::JobSubmitFailed(FailureView::Decode(message)) => job_failed(
            url,
            ErrorView::UpstreamUnavailable("Failed to parse extraction response: "@ + message),
        ),
        _ => job_failed(url, ErrorView::NoResult),
    }
}

/// What follows a status that the job reported.
pub open spec fn after_status(
    url: Seq<char>,
    id: Seq<char>,
    attempts: u32,
    status: Seq<char>,
    data: Option<DataView>,
) -> (JobView, ActionView) {
    if status == "completed"@ {
        match data {
            Some(payload) => job_closed(url, Ok(job_record(payload, url))),
            None => job_failed(
                url,
                ErrorView::UpstreamUnavailable("No data in completed response"@),
            ),
        }
    } else if status == "failed"@ || status == "cancelled"@ {
        job_failed(url, ErrorView::ExtractionFailed("Extraction "@ + status + ": "@ + id))
    } else {
        (
            JobView { url, stage: StageView::Waiting { id, attempts } },
            ActionView::Sleep { seconds: POLL_DELAY_SECONDS },
        )
    }
}

/// What follows a reply to a status read.
pub open spec fn after_poll(url: Seq<char>, id: Seq<char>, attempts: u32, event: EventView) -> (
    JobView,
    ActionView,
) {
    match event {
        EventView::JobStatus { status: Some(status), data } => after_status(
            url,
            id,
            attempts,
            status,
            data,
        ),
        EventView::JobStatus { status: None, data } => job_failed(
            url,
            ErrorView::UpstreamUnavailable("No status in response"@),
        ),
        EventView::JobStatusFailed(FailureView::Send(message)) => job_failed(
            url,
            ErrorView::UpstreamUnavailable("Failed to get extraction status: "@ + message),
        ),
        EventView::JobStatusFailed(FailureView::Decode(message)) => job_failed(
            url,
            ErrorView::UpstreamUnavailable("Failed to parse status response: "@ + message),
        ),
        _ => job_failed(url, ErrorView::NoResult),
    }
}

/// What follows the pause: the next status read, or the timeout once the budget is spent.
pub open spec fn after_pause(url: Seq<char>, id: Seq<char>, attempts: u32, event: EventView) -> (
    JobView,
    ActionView,
) {
    match event {
        EventView::Elapsed => if attempts + 1 >= MAX_ATTEMPTS {
            job_failed(url, ErrorView::ExtractionTimedOut)
        } else {
            (
                JobView { url, stage: StageView::Polling { id, attempts: (attempts + 1) as u32 } },
                ActionView::PollJob { id },
            )
        },
        _ => job_failed(url, ErrorView::NoResult),
    }
}

/// One step of the job tier: the job after `event`, and what it asks for next. An
/// event that does not answer what the job last asked for ends the tier without a record.
pub open spec fn job_step(job: JobView, event: EventView) -> (JobView, ActionView) {
    match job.stage {
        StageView::Submitting => after_submission(job.url, event),
        StageView::Polling { id, attempts } => after_poll(job.url, id, attempts, event),
        StageView::Waiting { id, attempts } => after_pause(job.url, id, attempts, event),
        StageView::Closed => job_failed(job.url, ErrorView::NoResult),
    }
}

/// The fixed instruction sent with every submission.
pub open spec fn extraction_prompt() -> Seq<char> {
    "Extract the article title, article image, description, provider url and provider name."@
}

/// The fields of the result schema, all of them strings.
pub open spec fn schema_properties() -> Seq<Seq<char>> {
    seq!["title"@, "description"@, "provider_url"@, "provider_name"@, "article_image"@]
}

/// The fields that the result schema requires.
pub open spec fn schema_required() -> Seq<Seq<char>> {
    seq!["title"@, "article_image"@]
}

/// A job submission: `POST {endpoint}` with the `Authorization` header and a JSON
/// body of `urls`, `prompt` and `schema`.
#[derive(Debug, PartialEq, Eq)]
pub struct SubmitRequest {
    pub endpoint: String,
    pub authorization: String,
    pub urls: Vec<String>,
    pub prompt: String,
    /// The properties of the schema object; each is of type string.
    pub properties: Vec<String>,
    /// The properties that the schema requires.
    pub required: Vec<String>,
}

/// A status read: `GET {endpoint}` with the `Authorization` header.
#[derive(Debug, PartialEq, Eq)]
pub struct StatusRequest {
    pub endpoint: String,
    pub authorization: String,
}

/// The client of the extraction job API, holding the API token it was made with.
pub struct FirecrawlService {
    api_token: String,
}

fn is_text(text: &String, expected: &str) -> (same: bool)
    ensures
        same == (text@ == expected@),
{
    *text == String::from_str(expected)
}

fn upstream(prefix: &str, message: &String) -> (error: OEmbedError)
    ensures
        error@ == ErrorView::UpstreamUnavailable(prefix@ + message@),
{
    OEmbedError::UpstreamUnavailable(String::from_str(prefix).concat(message.as_str()))
}

fn closed(url: String, outcome: Result<OEmbedResponse, OEmbedError>) -> (out: (
    ExtractionJob,
    Action,
))
    ensures
        (out.0@, out.1@) == job_closed(url@, outcome_view(outcome)),
{
    (ExtractionJob { url, stage: JobStage::Closed }, Action::Finish(outcome))
}

impl FirecrawlService {
    /// The API token this client sends.
    pub closed spec fn token(&self) -> Seq<char> {
        self.api_token@
    }

    /// A client that authenticates with `api_token`.
    pub fn new(api_token: String) -> (service: FirecrawlService)
        ensures
            service.token() == api_token@,
    {
        FirecrawlService { api_token }
    }

    /// The value of the `Authorization` header.
    pub fn authorization(&self) -> (header: String)
        ensures
            header@ == "Bearer "@ + self.token(),
    {
        String::from_str("Bearer ").concat(self.api_token.as_str())
    }

    /// Starts the job tier for `url`: the job, and the submission it asks for.
    pub fn firecrawl_extract(&self, url: &ParsedUrl) -> (out: (ExtractionJob, Action))
        ensures
            out.0@ == (JobView { url: url@.text, stage: StageView::Submitting }),
            out.1@ == (ActionView::SubmitJob { url: url@.text }),
    {
        (
            ExtractionJob { url: url.text.clone(), stage: JobStage::Submitting },
            Action::SubmitJob { url: url.text.clone() },
        )
    }

    /// The submission for `url`: target URL, fixed prompt and fixed result schema.
    pub fn extract(&self, url: &str) -> (request: SubmitRequest)
        ensures
            request.endpoint@ == "https://api.firecrawl.dev/v1/extract"@,
            request.authorization@ == "Bearer "@ + self.token(),
            request.urls.deep_view() == seq![url@],
            request.prompt@ == extraction_prompt(),
            request.properties.deep_view() == schema_properties(),
            request.required.deep_view() == schema_required(),
    {
        let mut urls: Vec<String> = Vec::new();
        urls.push(String::from_str(url));
        let mut properties: Vec<String> = Vec::new();
        properties.push(String::from_str("title"));
        properties.push(String::from_str("description"));
        properties.push(String::from_str("provider_url"));
        properties.push(String::from_str("provider_name"));
        properties.push(String::from_str("article_image"));
        let mut required: Vec<String> = Vec::new();
        required.push(String::from_str("title"));
        required.push(String::from_str("article_image"));
        proof {
            assert(urls.deep_view() =~= seq![url@]);
            assert(properties.deep_view() =~= schema_properties());
            assert(required.deep_view() =~= schema_required());
        }
        SubmitRequest {
            endpoint: String::from_str("https://api.firecrawl.dev/v1/extract"),
            authorization: self.authorization(),
            urls,
            prompt: String::from_str(
                "Extract the article title, article image, description, provider url and provider name.",
            ),
            properties,
            required,
        }
    }

    /// The status read for the job `id`.
    pub fn status_request(&self, id: &str) -> (request: StatusRequest)
        ensures
            request.endpoint@ == "https://api.firecrawl.dev/v1/extract/"@ + id@,
            request.authorization@ == "Bearer "@ + self.token(),
    {
        StatusRequest {
            endpoint: String::from_str("https://api.firecrawl.dev/v1/extract/").concat(id),
            authorization: self.authorization(),
        }
    }

    /// Maps a completed job's payload into a record for the page `url`.
    pub fn completed_record(data: ExtractedData, url: &str) -> (record: OEmbedResponse)
        ensures
            record@ == job_record(data@, url@),
    {
        let markup = embed_html(&data.title, &data.description, url);
        OEmbedResponse {
            response_type: String::from_str("rich"),
            version: String::from_str("1.0"),
            title: data.title,
            author_name: None,
            author_url: None,
            provider_name: data.provider_name,
            provider_url: data.provider_url,
            thumbnail_url: data.article_image,
            thumbnail_width: None,
            thumbnail_height: None,
            html: Some(markup),
            width: None,
            height: None,
        }
    }

    /// One step of the job tier: takes the reply to what the job last asked for and
    /// gives the job's next state with what it asks for next. `Finish` ends the tier.
    pub fn get_extract_result(&self, job: ExtractionJob, event: Event) -> (out: (
        ExtractionJob,
        Action,
    ))
        ensures
            (out.0@, out.1@) == job_step(job@, event@),
    {
        let ExtractionJob { url, stage } = job;
        match stage {
            JobStage::Submitting => match event {
                Event::JobSubmitted { id: Some(id) } => {
                    let poll = Action::PollJob { id: id.clone() };
                    (ExtractionJob { url, stage: JobStage::Polling { id, attempts: 0 } }, poll)
                },
                Event::JobSubmitted { id: None } => closed(
                    url,
                    Err(
                        OEmbedError::UpstreamUnavailable(
                            String::from_str("No execution ID in response"),
                        ),
                    ),
                ),
                Event::JobSubmitFailed(CallFailure::Send(message)) => closed(
                    url,
                    Err(upstream("Failed to start extraction: ", &message)),
                ),
                Event::JobSubmitFailed(CallFailure::Decode(message)) => closed(
                    url,
                    Err(upstream("Failed to parse extraction response: ", &message)),
                ),
                _ => closed(url, Err(OEmbedError::NoResult)),
            },
            JobStage::Polling { id, attempts } => match event {
                Event::JobStatus { status: Some(status), data } => {
                    if is_text(&status, "completed") {
                        match data {
                            Some(payload) => {
                                let record = Self::completed_record(payload, url.as_str());
                                closed(url, Ok(record))
                            },
                            None => closed(
                                url,
                                Err(
                                    OEmbedError::UpstreamUnavailable(
                                        String::from_str("No data in completed response"),
                                    ),
                                ),
                            ),
                        }
                    } else if is_text(&status, "failed") || is_text(&status, "cancelled") {
                        let mut detail = String::from_str("Extraction ");
                        detail.append(status.as_str());
                        detail.append(": ");
                        detail.append(id.as_str());
                        closed(url, Err(OEmbedError::ExtractionFailed(detail)))
                    } else {
                        (
                            ExtractionJob { url, stage: JobStage::Waiting { id, attempts } },
                            Action::Sleep { seconds: POLL_DELAY_SECONDS },
                        )
                    }
                },
                Event::JobStatus { status: None, data } => closed(
                    url,
                    Err(OEmbedError::UpstreamUnavailable(String::from_str("No status in response"))),
                ),
                Event::JobStatusFailed(CallFailure::Send(message)) => closed(
                    url,
                    Err(upstream("Failed to get extraction status: ", &message)),
                ),
                Event::JobStatusFailed(CallFailure::Decode(message)) => closed(
                    url,
                    Err(upstream("Failed to parse status response: ", &message)),
                ),
                _ => closed(url, Err(OEmbedError::NoResult)),
            },
            JobStage::Waiting { id, attempts } => match event {
                Event::Elapsed => {
                    if attempts >= MAX_ATTEMPTS - 1 {
                        closed(url, Err(OEmbedError::ExtractionTimedOut))
                    } else {
                        let poll = Action::PollJob { id: id.clone() };
                        (
                            ExtractionJob {
                                url,
                                stage: JobStage::Polling { id, attempts: attempts + 1 },
                            },
                            poll,
                        )
                    }
                },
                _ => closed(url, Err(OEmbedError::NoResult)),
            },
            JobStage::Closed => closed(url, Err(OEmbedError::NoResult)),
        }
    }
}


/// The actions a job asks for while `events` answer it, one after the other.
pub open spec fn job_run(job: JobView, events: Seq<EventView>) -> Seq<ActionView>
    decreases events.len(),
{
    if events.len() == 0 {
        Seq::<ActionView>::empty()
    } else {
        let step = job_step(job, events[0]);
        seq![step.1] + job_run(step.0, events.drop_first())
    }
}

/// How many of the actions are status reads.
pub open spec fn poll_count(actions: Seq<ActionView>) -> nat
    decreases actions.len(),
{
    if actions.len() == 0 {
        0
    } else {
        (if actions[0] is PollJob {
            1nat
        } else {
            0nat
        }) + poll_count(actions.drop_first())
    }
}

/// How many status reads a job at this stage may still ask for.
pub open spec fn polls_left(stage: StageView) -> nat {
    match stage {
        StageView::Submitting => MAX_ATTEMPTS as nat,
        StageView::Polling { id, attempts } => if attempts < MAX_ATTEMPTS {
            (MAX_ATTEMPTS - 1 - attempts) as nat
        } else {
            0
        },
        StageView::Waiting { id, attempts } => if attempts < MAX_ATTEMPTS {
            (MAX_ATTEMPTS - 1 - attempts) as nat
        } else {
            0
        },
        StageView::Closed => 0,
    }
}

/// A status read found the job neither completed, failed nor cancelled.
pub open spec fn is_running(event: EventView) -> bool {
    event matches EventView::JobStatus { status: Some(status), data } && status != "completed"@
        && status != "failed"@ && status != "cancelled"@
}

/// The events are `rounds` status reads that each find the job running, each
/// followed by the end of the pause.
pub open spec fn keeps_running(events: Seq<EventView>, rounds: nat) -> bool
    decreases rounds,
{
    if rounds == 0 {
        events.len() == 0
    } else {
        &&& events.len() >= 2
        &&& is_running(events[0])
        &&& events[1] == EventView::Elapsed
        &&& keeps_running(events.skip(2), (rounds - 1) as nat)
    }
}

/// Whatever the replies are, a job never asks for more status reads than its stage
/// leaves it: at most `MAX_ATTEMPTS` over its whole life.
pub proof fn lemma_poll_budget(job: JobView, events: Seq<EventView>)
    ensures
        poll_count(job_run(job, events)) <= polls_left(job.stage),
        polls_left(job.stage) <= MAX_ATTEMPTS,
    decreases events.len(),
{
    if events.len() > 0 {
        let step = job_step(job, events[0]);
        let rest = job_run(step.0, events.drop_first());
        lemma_poll_budget(step.0, events.drop_first());
        assert((seq![step.1] + rest).drop_first() =~= rest);
    }
}

/// A job whose status reads all find it running ends in `ExtractionTimedOut` when the
/// budget is spent, having asked for no status read beyond the budget.
pub proof fn lemma_poll_timeout(url: Seq<char>, id: Seq<char>, attempts: u32, events: Seq<EventView>)
    requires
        attempts < MAX_ATTEMPTS,
        keeps_running(events, (MAX_ATTEMPTS - attempts) as nat),
    ensures
        ({
            let job = JobView { url, stage: StageView::Polling { id, attempts } };
            &&& job_run(job, events).len() == events.len()
            &&& job_run(job, events).last() == ActionView::Finish(
                Err(ErrorView::ExtractionTimedOut),
            )
            &&& poll_count(job_run(job, events)) == MAX_ATTEMPTS - 1 - attempts
        }),
    decreases MAX_ATTEMPTS - attempts,
{
    let job = JobView { url, stage: StageView::Polling { id, attempts } };
    let first = job_step(job, events[0]);
    let tail = events.drop_first();
    let second = job_step(first.0, tail[0]);
    let rest = tail.drop_first();
    let run = job_run(job, events);
    let run_tail = job_run(first.0, tail);
    let run_rest = job_run(second.0, rest);
    assert(rest =~= events.skip(2));
    assert(keeps_running(rest, (MAX_ATTEMPTS - attempts - 1) as nat));
    assert(run.drop_first() =~= run_tail);
    assert(run_tail.drop_first() =~= run_rest);
    assert(poll_count(run) == poll_count(run_tail));
    if attempts + 1 >= MAX_ATTEMPTS {
        assert(run.last() == second.1);
        assert(poll_count(run_rest) == 0);
        assert(poll_count(run_tail) == 0);
    } else {
        lemma_poll_timeout(url, id, (attempts + 1) as u32, rest);
        assert(run.last() == run_rest.last());
        assert(poll_count(run_tail) == 1 + poll_count(run_rest));
    }
}

} // verus!
