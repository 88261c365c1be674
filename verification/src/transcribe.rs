//! Submitting a recording and waiting for its transcript.
//!
//! A [`Transcriber`] says which request starts a job and reads the job's
//! identifier from the reply. A [`Poller`] follows one job: after every reply
//! to a status request it says whether to wait and ask again, to store the
//! transcript, or to give up.

use crate::cli::TranscriberArgs;
use crate::error::{missing_setting, require_setting, ApiError, ApiErrorView, Field};
use crate::headers::{client_headers, header_entries, is_header_text, json_headers};
use crate::http::{Method, Reply, ReplyView, Request, RequestView};
use crate::json::{push_member, Json, JsonView};
use crate::text::{join, same_text};
use crate::wire::{parsed, pretty};
use reqwest::header::{HeaderMap, HeaderValue};
use vstd::prelude::*;

verus! {

/// Seconds between a reply that leaves the job unfinished and the next
/// status request.
pub const POLL_INTERVAL_SECS: u64 = 10;

/// The body of the request that starts a transcription of the recording at
/// `audio_url`.
pub open spec fn submission_body(audio_url: Seq<char>) -> JsonView {
    JsonView::Object(
        Map::empty().insert("audio_url"@, JsonView::String(audio_url)).insert(
            "iab_categories"@,
            JsonView::Bool(true),
        ).insert("entity_detection"@, JsonView::Bool(true)),
    )
}

/// What the reply to a submission says: the job's identifier where the reply
/// has a member `id` that is a string, and else that the member is missing.
pub open spec fn submitted_id(response: JsonView) -> Result<Seq<char>, ApiErrorView> {
    match response.text_field(Field::Id.key()) {
        Some(id) => Ok(id),
        None => Err(ApiErrorView::MissingField { field: Field::Id, document: response }),
    }
}

/// The address at which the state of job `transcript_id` is asked.
pub open spec fn polling_endpoint(api_url: Seq<char>, transcript_id: Seq<char>) -> Seq<char> {
    api_url + "/"@ + transcript_id
}

/// The name of the file that receives the transcript of job `transcript_id`.
pub open spec fn transcript_file_name(transcript_id: Seq<char>) -> Seq<char> {
    transcript_id + ".json"@
}

/// The mathematical value of the outcome of reading an identifier.
pub open spec fn id_outcome(outcome: Result<String, ApiError>) -> Result<Seq<char>, ApiErrorView> {
    match outcome {
        Ok(id) => Ok(id@),
        Err(error) => Err(error@),
    }
}

/// The settings of the transcription service: its address and the headers
/// that go with every request.
pub struct Transcriber<'a> {
    headers: HeaderMap<HeaderValue>,
    api_url: &'a str,
}

/// The mathematical value of a [`Transcriber`].
pub struct TranscriberView {
    pub api_url: Seq<char>,
    pub headers: Map<Seq<char>, Seq<u8>>,
}

impl<'a> View for Transcriber<'a> {
    type V = TranscriberView;

    closed spec fn view(&self) -> TranscriberView {
        TranscriberView { api_url: self.api_url@, headers: header_entries(self.headers) }
    }
}

/// Where a job stands.
#[derive(Clone, Copy, Debug, PartialEq, Eq, Structural)]
pub enum PollState {
    /// The job is not known to have ended: polling goes on.
    Pending,
    /// The service has delivered the transcript.
    Completed,
    /// The job or the exchange with the service has failed.
    Failed,
}

/// What to do after a reply to a status request.
#[derive(Debug, PartialEq)]
pub enum PollStep {
    /// Wait `seconds` seconds, then ask again.
    Wait { seconds: u64 },
    /// Store `payload`, the whole reply, as the transcript. The run has
    /// succeeded.
    Complete { payload: Json },
    /// Give up with this error. Nothing is asked again.
    Fail(ApiError),
}

/// The mathematical value of a [`PollStep`].
pub enum PollStepView {
    Wait { seconds: u64 },
    Complete { payload: JsonView },
    Fail(ApiErrorView),
}

impl View for PollStep {
    type V = PollStepView;

    open spec fn view(&self) -> PollStepView {
        match self {
            PollStep::Wait { seconds } => PollStepView::Wait { seconds: *seconds },
            PollStep::Complete { payload } => PollStepView::Complete { payload: payload@ },
            PollStep::Fail(error) => PollStepView::Fail(error@),
        }
    }
}

/// The step that follows a reply whose body is the document `payload`.
///
/// The member `status` decides. `completed` ends the run with the whole
/// reply as the transcript. `error` ends it with the member `error` as the
/// service's report. Any other text leaves the job pending. A reply without
/// a `status` that is a string, and a report of failure without an `error`,
/// lack a member.
pub open spec fn poll_step(payload: JsonView) -> PollStepView {
    match payload.text_field(Field::Status.key()) {
        None => PollStepView::Fail(
            ApiErrorView::MissingField { field: Field::Status, document: payload },
        ),
        Some(status) => if status == "completed"@ {
            PollStepView::Complete { payload }
        } else if status == "error"@ {
            match payload.field(Field::Error.key()) {
                Some(report) => PollStepView::Fail(ApiErrorView::ServiceReported(report)),
                None => PollStepView::Fail(
                    ApiErrorView::MissingField { field: Field::Error, document: payload },
                ),
            }
        } else {
            PollStepView::Wait { seconds: POLL_INTERVAL_SECS }
        },
    }
}

/// The state in which a step leaves the job.
pub open spec fn state_after(step: PollStepView) -> PollState {
    match step {
        PollStepView::Wait { .. } => PollState::Pending,
        PollStepView::Complete { .. } => PollState::Completed,
        PollStepView::Fail(_) => PollState::Failed,
    }
}

/// The step that follows an exchange. An exchange that failed ends the run
/// with what the transport said. A body that is no JSON ends it as a
/// malformed response, whatever the parser says about it; on this one
/// outcome the function says only the kind of the error.
pub open spec fn reply_step_is(reply: ReplyView, step: PollStepView) -> bool {
    match reply {
        ReplyView::Failed(detail) => step == PollStepView::Fail(ApiErrorView::Transport(detail)),
        ReplyView::Body(bytes) => match parsed(bytes) {
            Some(payload) => step == poll_step(payload),
            None => step matches PollStepView::Fail(ApiErrorView::MalformedResponse(_)),
        },
    }
}

/// One job that is being followed.
pub struct Poller<'a> {
    headers: &'a HeaderMap<HeaderValue>,
    endpoint: String,
    transcript_id: String,
    state: PollState,
}

/// The mathematical value of a [`Poller`].
pub struct PollerView {
    pub headers: Map<Seq<char>, Seq<u8>>,
    pub endpoint: Seq<char>,
    pub transcript_id: Seq<char>,
    pub state: PollState,
}

impl<'a> View for Poller<'a> {
    type V = PollerView;

    closed spec fn view(&self) -> PollerView {
        PollerView {
            headers: header_entries(*self.headers),
            endpoint: self.endpoint@,
            transcript_id: self.transcript_id@,
            state: self.state,
        }
    }
}

/// The poller that starts to follow job `transcript_id` at a service: the
/// job is pending, whatever became of it in an earlier run.
pub open spec fn fresh_poller(service: TranscriberView, transcript_id: Seq<char>) -> PollerView {
    PollerView {
        headers: service.headers,
        endpoint: polling_endpoint(service.api_url, transcript_id),
        transcript_id,
        state: PollState::Pending,
    }
}

/// The request that asks for the state of a poller's job.
pub open spec fn status_request(poller: PollerView) -> RequestView {
    RequestView { method: Method::Get, url: poller.endpoint, headers: poller.headers, body: None }
}

/// What a run of the poller has done when it ends: how many status requests
/// it sent, how many times it waited, and the step that ended it.
pub struct PollTrace {
    pub requests: nat,
    pub waits: nat,
    pub last: PollStepView,
}

/// The run in which the status requests are answered by `payloads`, one
/// after the other. Every payload that is reached costs one request. After a
/// step that says to wait the run waits once and asks again; any other step
/// ends it. `None` where the payloads run out before the run has ended.
pub open spec fn poll_run(payloads: Seq<JsonView>) -> Option<PollTrace>
    decreases payloads.len(),
{
    if payloads.len() == 0 {
        None
    } else {
        match poll_step(payloads[0]) {
            PollStepView::Wait { .. } => match poll_run(payloads.drop_first()) {
                Some(rest) => Some(
                    PollTrace {
                        requests: rest.requests + 1,
                        waits: rest.waits + 1,
                        last: rest.last,
                    },
                ),
                None => None,
            },
            last => Some(PollTrace { requests: 1, waits: 0, last }),
        }
    }
}

/// What a run of the `transcribe` command does.
#[derive(Debug, PartialEq)]
pub enum Plan {
    /// Submit the recording at `audio_url`, then follow the job that the
    /// service opens for it.
    Submit { audio_url: String },
    /// Follow the job `transcript_id`, which exists already.
    Follow { transcript_id: String },
    /// Neither a recording nor a job was named: there is nothing to do.
    Nothing,
}

/// The mathematical value of a [`Plan`].
pub enum PlanView {
    Submit { audio_url: Seq<char> },
    Follow { transcript_id: Seq<char> },
    Nothing,
}

impl View for Plan {
    type V = PlanView;

    open spec fn view(&self) -> PlanView {
        match self {
            Plan::Submit { audio_url } => PlanView::Submit { audio_url: audio_url@ },
            Plan::Follow { transcript_id } => PlanView::Follow { transcript_id: transcript_id@ },
            Plan::Nothing => PlanView::Nothing,
        }
    }
}

/// What the arguments ask for. A recording comes first: where one is named,
/// it is submitted, and a job that is named beside it is left alone.
pub open spec fn plan_of(args: TranscriberArgs) -> PlanView {
    match args.audio_url {
        Some(audio_url) => PlanView::Submit { audio_url: audio_url@ },
        None => match args.transcript_id {
            Some(transcript_id) => PlanView::Follow { transcript_id: transcript_id@ },
            None => PlanView::Nothing,
        },
    }
}

/// A run of the `transcribe` command that is ready to start.
pub struct Job<'a> {
    pub transcriber: Transcriber<'a>,
    pub plan: Plan,
}

/// A file to write: its name, in the working directory, and its contents.
#[derive(Debug, PartialEq)]
pub struct FileWrite {
    pub file_name: String,
    pub contents: String,
}

impl<'a> Transcriber<'a> {
    /// The settings for the service at `api_url`, with `token` as the
    /// authorization. The token must be a text that can stand in a header;
    /// [`accepts_token`](crate::headers::accepts_token) tells.
    pub fn new(token: &str, api_url: &'a str) -> (transcriber: Self)
        requires
            is_header_text(token@),
        ensures
            transcriber@ == (TranscriberView {
                api_url: api_url@,
                headers: client_headers(token@),
            }),
    {
        Transcriber { headers: json_headers(token), api_url }
    }

    /// The address of the service.
    pub fn api_url(&self) -> (url: &'a str)
        ensures
            url@ == self@.api_url,
    {
        self.api_url
    }

    /// The headers that go with every request.
    pub fn headers(&self) -> (headers: &HeaderMap<HeaderValue>)
        ensures
            header_entries(*headers) == self@.headers,
    {
        &self.headers
    }

    /// The one request that starts a transcription of the recording at
    /// `audio_url`.
    pub fn transcribe(&self, audio_url: &str) -> (request: Request<'_>)
        ensures
            request@ == (RequestView {
                method: Method::Post,
                url: self@.api_url,
                headers: self@.headers,
                body: Some(submission_body(audio_url@)),
            }),
    {
        let mut members: Vec<(String, Json)> = Vec::new();
        push_member(&mut members, "audio_url", Json::string(audio_url));
        push_member(&mut members, "iab_categories", Json::Bool(true));
        push_member(&mut members, "entity_detection", Json::Bool(true));
        Request {
            method: Method::Post,
            url: self.api_url.to_owned(),
            headers: &self.headers,
            body: Some(Json::Object(members)),
        }
    }

    /// Reads the job's identifier from the reply to a submission.
    pub fn transcript_id(response: Json) -> (outcome: Result<String, ApiError>)
        ensures
            id_outcome(outcome) == submitted_id(response@),
    {
        let id = match response.get(Field::Id.name()) {
            Some(value) => match value.as_str() {
                Some(text) => Some(text.to_owned()),
                None => None,
            },
            None => None,
        };
        match id {
            Some(id) => Ok(id),
            None => Err(ApiError::MissingField { field: Field::Id, document: response }),
        }
    }

    /// Reads the job's identifier from the exchange that submitted the
    /// recording. An exchange that failed and a body that is no JSON are
    /// both failures of the transport.
    pub fn submitted(reply: Reply) -> (outcome: Result<String, ApiError>)
        ensures
            match reply@ {
                ReplyView::Failed(detail) => id_outcome(outcome) == Err::<Seq<char>, ApiErrorView>(
                    ApiErrorView::Transport(detail),
                ),
                ReplyView::Body(bytes) => match parsed(bytes) {
                    Some(response) => id_outcome(outcome) == submitted_id(response),
                    None => outcome matches Err(ApiError::Transport(_)),
                },
            },
    {
        match reply {
            Reply::Failed(detail) => Err(ApiError::Transport(detail)),
            Reply::Body(bytes) => match Json::parse_bytes(bytes.as_slice()) {
                Ok(response) => Self::transcript_id(response),
                Err(detail) => Err(ApiError::Transport(detail)),
            },
        }
    }

    /// Starts to follow job `transcript_id`. The job is pending, and its
    /// state is asked at the service's address followed by `/` and the
    /// identifier.
    pub fn wait_for_transcription(&self, transcript_id: &str) -> (poller: Poller<'_>)
        ensures
            poller@ == fresh_poller(self@, transcript_id@),
    {
        let base = join(self.api_url, "/");
        Poller {
            headers: &self.headers,
            endpoint: join(base.as_str(), transcript_id),
            transcript_id: transcript_id.to_owned(),
            state: PollState::Pending,
        }
    }
}

impl<'a> Poller<'a> {
    /// The address at which the job's state is asked.
    pub fn endpoint(&self) -> (url: &str)
        ensures
            url@ == self@.endpoint,
    {
        self.endpoint.as_str()
    }

    /// The request that asks for the job's state: a GET at the job's address
    /// with the headers of the service.
    pub fn request(&self) -> (request: Request<'a>)
        ensures
            request@ == status_request(self@),
    {
        Request {
            method: Method::Get,
            url: self.endpoint.clone(),
            headers: self.headers,
            body: None,
        }
    }

    /// The job's identifier.
    pub fn transcript_id(&self) -> (id: &str)
        ensures
            id@ == self@.transcript_id,
    {
        self.transcript_id.as_str()
    }

    /// Where the job stands.
    pub fn state(&self) -> (state: PollState)
        ensures
            state == self@.state,
    {
        self.state
    }

    /// Takes the document of a reply to a status request and says what to do
    /// next. The job must be pending: once it has completed or failed, no
    /// further reply is taken.
    pub fn decide(&mut self, payload: Json) -> (step: PollStep)
        requires
            old(self)@.state == PollState::Pending,
        ensures
            step@ == poll_step(payload@),
            final(self)@ == (PollerView { state: state_after(step@), ..old(self)@ }),
    {
        let status = match payload.get(Field::Status.name()) {
            Some(value) => match value.as_str() {
                Some(text) => Some(text.to_owned()),
                None => None,
            },
            None => None,
        };
        match status {
            None => {
                self.state = PollState::Failed;
                PollStep::Fail(ApiError::MissingField { field: Field::Status, document: payload })
            },
            Some(status) => {
                if same_text(status.as_str(), "completed") {
                    self.state = PollState::Completed;
                    PollStep::Complete { payload }
                } else if same_text(status.as_str(), "error") {
                    self.state = PollState::Failed;
                    match payload.take(Field::Error.name()) {
                        Ok(report) => PollStep::Fail(ApiError::ServiceReported(report)),
                        Err(document) => PollStep::Fail(
                            ApiError::MissingField { field: Field::Error, document },
                        ),
                    }
                } else {
                    PollStep::Wait { seconds: POLL_INTERVAL_SECS }
                }
            },
        }
    }

    /// Takes the outcome of a status request and says what to do next. The
    /// job must be pending.
    pub fn observe(&mut self, reply: Reply) -> (step: PollStep)
        requires
            old(self)@.state == PollState::Pending,
        ensures
            reply_step_is(reply@, step@),
            final(self)@ == (PollerView { state: state_after(step@), ..old(self)@ }),
    {
        match reply {
            Reply::Failed(detail) => {
                self.state = PollState::Failed;
                PollStep::Fail(ApiError::Transport(detail))
            },
            Reply::Body(bytes) => match Json::parse_bytes(bytes.as_slice()) {
                Ok(payload) => self.decide(payload),
                Err(detail) => {
                    self.state = PollState::Failed;
                    PollStep::Fail(ApiError::MalformedResponse(detail))
                },
            },
        }
    }
}

/// Prepares a run of the `transcribe` command. `transcript_url` is the
/// setting `TRANSCRIPT_URL`, the address of the service; without it the run
/// fails before anything is sent. With it, the token must be a text that can
/// stand in a header.
pub fn run<'a>(token: &str, transcript_url: Option<&'a str>, args: TranscriberArgs) -> (outcome:
    Result<Job<'a>, ApiError>)
    requires
        transcript_url is Some ==> is_header_text(token@),
    ensures
        match transcript_url {
            Some(api_url) => outcome matches Ok(job) && job.plan@ == plan_of(args)
                && job.transcriber@ == (TranscriberView {
                api_url: api_url@,
                headers: client_headers(token@),
            }),
            None => outcome matches Err(error) && error@ == ApiErrorView::Configuration(
                missing_setting("TRANSCRIPT_URL"@),
            ),
        },
{
    let api_url = match require_setting("TRANSCRIPT_URL", transcript_url) {
        Ok(api_url) => api_url,
        Err(error) => {
            return Err(error);
        },
    };
    let transcriber = Transcriber::new(token, api_url);
    let plan = match args.audio_url {
        Some(audio_url) => Plan::Submit { audio_url },
        None => match args.transcript_id {
            Some(transcript_id) => Plan::Follow { transcript_id },
            None => Plan::Nothing,
        },
    };
    Ok(Job { transcriber, plan })
}

/// The file that holds the transcript of job `transcript_id`: `contents`
/// under the job's identifier followed by `.json`.
pub fn named_transcript(transcript_id: &str, contents: String) -> (file: FileWrite)
    ensures
        file.file_name@ == transcript_file_name(transcript_id@),
        file.contents == contents,
{
    FileWrite { file_name: join(transcript_id, ".json"), contents }
}

/// The file to write for a finished job: the whole payload, indented, under
/// the job's identifier followed by `.json`.
pub fn transcript_file(transcript_id: &str, payload: &Json) -> (outcome: Result<
    FileWrite,
    ApiError,
>)
    ensures
        match outcome {
            Ok(file) => file.file_name@ == transcript_file_name(transcript_id@) && pretty(payload@)
                == Some(file.contents@),
            Err(error) => pretty(payload@) is None && error is Storage,
        },
{
    match payload.to_pretty_text() {
        Ok(contents) => Ok(named_transcript(transcript_id, contents)),
        Err(detail) => Err(ApiError::Storage(detail)),
    }
}

/// Polling goes on after a reply exactly where its `status` is a string
/// other than `completed` and `error`, and then always after ten seconds.
pub proof fn lemma_wait_means_unfinished(payload: JsonView)
    ensures
        poll_step(payload) is Wait <==> (payload.text_field(Field::Status.key()) matches Some(
            status,
        ) && status != "completed"@ && status != "error"@),
        poll_step(payload) is Wait ==> poll_step(payload) == (PollStepView::Wait { seconds: 10 }),
{
}

/// A run whose first `n` replies leave the job pending and whose next reply
/// says `completed` sends `n + 1` status requests, waits `n` times, once
/// between any two requests, and ends with the last of these replies as the
/// transcript. What the service would have answered after that is never
/// asked.
pub proof fn lemma_run_until_completed(payloads: Seq<JsonView>, n: int)
    requires
        0 <= n < payloads.len(),
        forall|i: int| 0 <= i < n ==> (#[trigger] poll_step(payloads[i])) is Wait,
        payloads[n].text_field(Field::Status.key()) == Some("completed"@),
    ensures
        poll_run(payloads) == Some(
            PollTrace {
                requests: (n + 1) as nat,
                waits: n as nat,
                last: PollStepView::Complete { payload: payloads[n] },
            },
        ),
    decreases n,
{
    if n == 0 {
        assert(poll_step(payloads[0]) == PollStepView::Complete { payload: payloads[0] });
    } else {
        let rest = payloads.drop_first();
        assert(poll_step(payloads[0]) is Wait);
        assert forall|i: int| 0 <= i < n - 1 implies (#[trigger] poll_step(rest[i])) is Wait by {
            assert(rest[i] == payloads[i + 1]);
            assert(poll_step(payloads[i + 1]) is Wait);
        }
        assert(rest[n - 1] == payloads[n]);
        lemma_run_until_completed(rest, n - 1);
    }
}

/// A run whose first reply says `error` and holds a member `error` sends one
/// status request, never waits, and ends with that member as the service's
/// report.
pub proof fn lemma_run_fails_at_once(payloads: Seq<JsonView>, report: JsonView)
    requires
        payloads.len() > 0,
        payloads[0].text_field(Field::Status.key()) == Some("error"@),
        payloads[0].field(Field::Error.key()) == Some(report),
    ensures
        poll_run(payloads) == Some(
            PollTrace {
                requests: 1,
                waits: 0,
                last: PollStepView::Fail(ApiErrorView::ServiceReported(report)),
            },
        ),
{
    reveal_strlit("error");
    reveal_strlit("completed");
    assert("error"@ != "completed"@) by {
        assert("error"@.len() == 5);
        assert("completed"@.len() == 9);
    }
}

/// Nothing protects a finished job from being fetched and stored again. The
/// poller of a new run starts pending and asks at the same address, whatever
/// an earlier run did; and a reply that says `completed` is handed on as the
/// transcript every time, to be written under the same name.
pub proof fn lemma_completed_job_is_stored_again(
    service: TranscriberView,
    transcript_id: Seq<char>,
    payload: JsonView,
)
    requires
        payload.text_field(Field::Status.key()) == Some("completed"@),
    ensures
        fresh_poller(service, transcript_id).state == PollState::Pending,
        status_request(fresh_poller(service, transcript_id)) == (RequestView {
            method: Method::Get,
            url: polling_endpoint(service.api_url, transcript_id),
            headers: service.headers,
            body: None,
        }),
        poll_step(payload) == (PollStepView::Complete { payload }),
        state_after(poll_step(payload)) == PollState::Completed,
        poll_run(seq![payload]) == Some(
            PollTrace { requests: 1, waits: 0, last: PollStepView::Complete { payload } },
        ),
{
    lemma_run_until_completed(seq![payload], 0);
}

} // verus!
