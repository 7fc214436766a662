//! The completion poller: asks a job's polling location until the job is done.
//!
//! The poller makes no request itself. It is created for the first request,
//! takes what came back for each request as a [`PollEvent`], and answers with a
//! [`PollStep`]: wait and ask again, or stop with the result. Requests are
//! counted from 1, the first one included.

use crate::schemas::create_music::{first_result, CreateMusicResponse, CreateMusicResponseView};
use vstd::prelude::*;

verus! {

/// The status of a response that carries the finished job.
pub const STATUS_OK: u16 = 200;

/// The status of a response that says the job is still running.
pub const STATUS_ACCEPTED: u16 = 202;

/// The usual budget: the first request and twenty more.
pub const DEFAULT_MAX_ATTEMPTS: u32 = 21;

/// The usual pause between two requests, in seconds.
pub const DEFAULT_RETRY_DELAY_SECS: u64 = 3;

/// Why polling ended without an artifact.
#[derive(Clone, Copy, Debug, PartialEq, Eq)]
pub enum PollError {
    /// The request failed below HTTP: no response came back.
    TransportError,
    /// The service answered with a status that is neither "ready" nor "pending".
    RejectedStatus(u16),
    /// The job was still pending at the last attempt of the budget.
    MaxAttemptsExceeded,
    /// A "ready" response did not name an artifact.
    MalformedResponse,
}

/// A submitted job: the location at which its outcome is asked for.
/// The location is fixed when the descriptor is made.
#[derive(Clone, Debug, PartialEq, Eq)]
pub struct JobDescriptor {
    polling_url: String,
}

impl View for JobDescriptor {
    type V = Seq<char>;

    closed spec fn view(&self) -> Seq<char> {
        self.polling_url@
    }
}

impl JobDescriptor {
    /// A descriptor for the given polling location; `None` for an empty one.
    pub fn new(polling_url: String) -> (job: Option<JobDescriptor>)
        ensures
            job.is_some() == (polling_url@.len() > 0),
            job matches Some(j) ==> j@ == polling_url@,
    {
        if polling_url.as_str().is_empty() {
            None
        } else {
            Some(JobDescriptor { polling_url })
        }
    }

    /// The descriptor of the job that a submission response names first;
    /// `None` where it names no job or gives it an empty result link.
    pub fn from_submission(response: &CreateMusicResponse) -> (job: Option<JobDescriptor>)
        ensures
            job.is_some() == artifact_url(Some(response@)).is_some(),
            job matches Some(j) ==> artifact_url(Some(response@)) == Some(j@),
    {
        match response.result_url() {
            Some(url) => JobDescriptor::new(url),
            None => None,
        }
    }

    /// The polling location.
    pub fn polling_url(&self) -> (url: &str)
        ensures
            url@ == self@,
    {
        self.polling_url.as_str()
    }
}

/// How often to ask, and how long to wait in between.
#[derive(Clone, Copy, Debug, PartialEq, Eq)]
pub struct PollConfig {
    pub max_attempts: u32,
    pub retry_delay_secs: u64,
}

impl PollConfig {
    /// A budget allows at least one request.
    pub open spec fn valid(&self) -> bool {
        self.max_attempts >= 1
    }

    /// Whether the budget allows at least one request.
    pub fn is_valid(&self) -> (ok: bool)
        ensures
            ok == self.valid(),
    {
        self.max_attempts >= 1
    }
}

impl Default for PollConfig {
    fn default() -> (config: PollConfig)
        ensures
            config.max_attempts == DEFAULT_MAX_ATTEMPTS,
            config.retry_delay_secs == DEFAULT_RETRY_DELAY_SECS,
            config.valid(),
    {
        PollConfig { max_attempts: DEFAULT_MAX_ATTEMPTS, retry_delay_secs: DEFAULT_RETRY_DELAY_SECS }
    }
}

/// One response to a poll request: its status, its body as text, and the
/// document that the body holds, where it holds one.
#[derive(Clone, Debug, PartialEq, Eq)]
pub struct PollResponse {
    pub status: u16,
    pub body: String,
    pub document: Option<CreateMusicResponse>,
}

/// Mathematical model of a [`PollResponse`].
pub ghost struct PollResponseView {
    pub status: u16,
    pub body: Seq<char>,
    pub document: Option<CreateMusicResponseView>,
}

/// The model of a document that may be missing.
pub open spec fn document_view(document: Option<CreateMusicResponse>) -> Option<
    CreateMusicResponseView,
> {
    match document {
        Some(d) => Some(d@),
        None => None,
    }
}

impl View for PollResponse {
    type V = PollResponseView;

    open spec fn view(&self) -> PollResponseView {
        PollResponseView {
            status: self.status,
            body: self.body@,
            document: document_view(self.document),
        }
    }
}

/// What one poll request led to.
#[derive(Clone, Debug, PartialEq, Eq)]
pub enum PollEvent {
    /// A response came back.
    Response(PollResponse),
    /// The request failed below HTTP.
    TransportFailure,
}

/// Mathematical model of a [`PollEvent`].
pub ghost enum PollEventView {
    Response(PollResponseView),
    TransportFailure,
}

impl View for PollEvent {
    type V = PollEventView;

    open spec fn view(&self) -> PollEventView {
        match self {
            PollEvent::Response(r) => PollEventView::Response(r@),
            PollEvent::TransportFailure => PollEventView::TransportFailure,
        }
    }
}

/// What a response says of the job. It is read off that one response alone.
#[derive(Clone, Debug, PartialEq, Eq)]
pub enum PollOutcome {
    /// The job is done; the artifact is at this location.
    Ready(String),
    /// The job is still running.
    Pending,
    /// The service refused: the status and the body it sent.
    Rejected(u16, String),
}

/// Mathematical model of a [`PollOutcome`].
pub ghost enum PollOutcomeView {
    Ready(Seq<char>),
    Pending,
    Rejected(u16, Seq<char>),
}

impl View for PollOutcome {
    type V = PollOutcomeView;

    open spec fn view(&self) -> PollOutcomeView {
        match self {
            PollOutcome::Ready(url) => PollOutcomeView::Ready(url@),
            PollOutcome::Pending => PollOutcomeView::Pending,
            PollOutcome::Rejected(status, body) => PollOutcomeView::Rejected(*status, body@),
        }
    }
}

/// The artifact location that a document names: the result link of its first
/// job, unless there is no document, no job, or the link is empty.
pub open spec fn artifact_url(document: Option<CreateMusicResponseView>) -> Option<Seq<char>> {
    match document {
        Some(d) => match first_result(d) {
            Some(url) => if url.len() > 0 {
                Some(url)
            } else {
                None
            },
            None => None,
        },
        None => None,
    }
}

/// What a response says of the job. Status 200 means ready and needs an
/// artifact location, else the response is malformed; 202 means pending; every
/// other status is a rejection.
pub open spec fn classify_response(response: PollResponseView) -> Result<
    PollOutcomeView,
    PollError,
> {
    if response.status == STATUS_OK {
        match artifact_url(response.document) {
            Some(url) => Ok(PollOutcomeView::Ready(url)),
            None => Err(PollError::MalformedResponse),
        }
    } else if response.status == STATUS_ACCEPTED {
        Ok(PollOutcomeView::Pending)
    } else {
        Ok(PollOutcomeView::Rejected(response.status, response.body))
    }
}

/// The model of a classification.
pub open spec fn classified_view(outcome: Result<PollOutcome, PollError>) -> Result<
    PollOutcomeView,
    PollError,
> {
    match outcome {
        Ok(o) => Ok(o@),
        Err(e) => Err(e),
    }
}

/// Reads off a response what it says of the job.
pub fn classify(response: PollResponse) -> (outcome: Result<PollOutcome, PollError>)
    ensures
        classified_view(outcome) == classify_response(response@),
{
    if response.status == STATUS_OK {
        match response.document {
            Some(document) => match document.result_url() {
                Some(url) => {
                    if url.as_str().is_empty() {
                        Err(PollError::MalformedResponse)
                    } else {
                        Ok(PollOutcome::Ready(url))
                    }
                },
                None => Err(PollError::MalformedResponse),
            },
            None => Err(PollError::MalformedResponse),
        }
    } else if response.status == STATUS_ACCEPTED {
        Ok(PollOutcome::Pending)
    } else {
        Ok(PollOutcome::Rejected(response.status, response.body))
    }
}

/// The state of polling while a request is under way.
#[derive(Clone, Debug, PartialEq, Eq)]
pub struct Poller {
    job: JobDescriptor,
    config: PollConfig,
    attempt: u32,
}

/// Mathematical model of a [`Poller`]: the location, the budget, the pause, and
/// the number of the request that is under way.
pub ghost struct PollerView {
    pub polling_url: Seq<char>,
    pub max_attempts: nat,
    pub retry_delay_secs: nat,
    pub attempt: nat,
}

impl PollerView {
    /// The poller as it is made: the first request is under way.
    pub open spec fn start(polling_url: Seq<char>, max_attempts: nat, retry_delay_secs: nat) -> PollerView {
        PollerView { polling_url, max_attempts, retry_delay_secs, attempt: 1 }
    }

    /// The location is not empty and the request under way is within the budget.
    pub open spec fn valid(self) -> bool {
        &&& self.polling_url.len() > 0
        &&& 1 <= self.attempt <= self.max_attempts
    }

    /// The poller once the next request is under way.
    pub open spec fn next(self) -> PollerView {
        PollerView { attempt: self.attempt + 1, ..self }
    }
}

impl View for Poller {
    type V = PollerView;

    closed spec fn view(&self) -> PollerView {
        PollerView {
            polling_url: self.job@,
            max_attempts: self.config.max_attempts as nat,
            retry_delay_secs: self.config.retry_delay_secs as nat,
            attempt: self.attempt as nat,
        }
    }
}

/// What the caller does next.
#[derive(Debug, PartialEq, Eq)]
pub enum PollStep {
    /// Wait `delay_secs` seconds, ask again, and hand what comes back to `poller`.
    Retry { poller: Poller, delay_secs: u64 },
    /// Stop: the artifact location, or why there is none.
    Done(Result<String, PollError>),
}

/// Mathematical model of a [`PollStep`].
pub ghost enum PollStepView {
    Retry { poller: PollerView, delay_secs: nat },
    Done(Result<Seq<char>, PollError>),
}

/// The model of the end of polling.
pub open spec fn polled_view(result: Result<String, PollError>) -> Result<Seq<char>, PollError> {
    match result {
        Ok(url) => Ok(url@),
        Err(e) => Err(e),
    }
}

impl View for PollStep {
    type V = PollStepView;

    open spec fn view(&self) -> PollStepView {
        match self {
            PollStep::Retry { poller, delay_secs } => PollStepView::Retry {
                poller: poller@,
                delay_secs: *delay_secs as nat,
            },
            PollStep::Done(result) => PollStepView::Done(polled_view(*result)),
        }
    }
}

/// The decision after one request. A transport failure, a malformed response
/// and a rejection end polling at once, and so does a ready job. A pending job
/// ends it only when the request was the last of the budget; else the next
/// request follows after the pause.
pub open spec fn poll_step(poller: PollerView, event: PollEventView) -> PollStepView {
    match event {
        PollEventView::TransportFailure => PollStepView::Done(Err(PollError::TransportError)),
        PollEventView::Response(response) => match classify_response(response) {
            Err(e) => PollStepView::Done(Err(e)),
            Ok(PollOutcomeView::Ready(url)) => PollStepView::Done(Ok(url)),
            Ok(PollOutcomeView::Rejected(status, _)) => PollStepView::Done(
                Err(PollError::RejectedStatus(status)),
            ),
            Ok(PollOutcomeView::Pending) => if poller.attempt >= poller.max_attempts {
                PollStepView::Done(Err(PollError::MaxAttemptsExceeded))
            } else {
                PollStepView::Retry { poller: poller.next(), delay_secs: poller.retry_delay_secs }
            },
        },
    }
}

impl Poller {
    /// A poller for the job, with its first request under way; `None` where the
    /// budget allows no request.
    pub fn new(job: JobDescriptor, config: PollConfig) -> (poller: Option<Poller>)
        ensures
            poller.is_some() == config.valid(),
            poller matches Some(p) ==> p@ == PollerView::start(
                job@,
                config.max_attempts as nat,
                config.retry_delay_secs as nat,
            ),
    {
        if config.max_attempts >= 1 {
            Some(Poller { job, config, attempt: 1 })
        } else {
            None
        }
    }

    /// The location to ask.
    pub fn polling_url(&self) -> (url: &str)
        ensures
            url@ == self@.polling_url,
    {
        self.job.polling_url()
    }

    /// The number of the request that is under way, counted from 1.
    pub fn attempt(&self) -> (n: u32)
        ensures
            n == self@.attempt,
    {
        self.attempt
    }

    /// The budget of requests.
    pub fn max_attempts(&self) -> (n: u32)
        ensures
            n == self@.max_attempts,
    {
        self.config.max_attempts
    }

    /// Decides what follows the request that was under way.
    pub fn step(self, event: PollEvent) -> (step: PollStep)
        ensures
            step@ == poll_step(self@, event@),
    {
        match event {
            PollEvent::TransportFailure => PollStep::Done(Err(PollError::TransportError)),
            PollEvent::Response(response) => match classify(response) {
                Err(e) => PollStep::Done(Err(e)),
                Ok(PollOutcome::Ready(url)) => PollStep::Done(Ok(url)),
                Ok(PollOutcome::Rejected(status, _)) => PollStep::Done(
                    Err(PollError::RejectedStatus(status)),
                ),
                Ok(PollOutcome::Pending) => {
                    if self.attempt >= self.config.max_attempts {
                        PollStep::Done(Err(PollError::MaxAttemptsExceeded))
                    } else {
                        let delay_secs = self.config.retry_delay_secs;
                        let poller = Poller {
                            job: self.job,
                            config: self.config,
                            attempt: self.attempt + 1,
                        };
                        PollStep::Retry { poller, delay_secs }
                    }
                },
            },
        }
    }
}

/// A run of the poller over the events of its requests, in order.
pub ghost struct PollRun {
    /// The number of requests made; while the run is open, the last of them
    /// is still under way.
    pub attempts: nat,
    /// How polling ended; `None` while the run is open.
    pub outcome: Option<Result<Seq<char>, PollError>>,
}

/// The run of a poller whose requests lead to `events`, the first of them to
/// the request under way. Events after the one that ends polling belong to
/// requests that are never made.
pub open spec fn poll_run(poller: PollerView, events: Seq<PollEventView>) -> PollRun
    decreases events.len(),
{
    if events.len() == 0 {
        PollRun { attempts: poller.attempt, outcome: None }
    } else {
        match poll_step(poller, events[0]) {
            PollStepView::Done(result) => PollRun { attempts: poller.attempt, outcome: Some(result) },
            PollStepView::Retry { poller: next, .. } => poll_run(next, events.drop_first()),
        }
    }
}

/// How a replay of recorded events went.
#[derive(Debug, PartialEq, Eq)]
pub struct PollReplay {
    /// The number of requests that the poller made.
    pub attempts: u32,
    /// How polling ended; `None` where the events ran out first.
    pub outcome: Option<Result<String, PollError>>,
}

impl View for PollReplay {
    type V = PollRun;

    open spec fn view(&self) -> PollRun {
        PollRun {
            attempts: self.attempts as nat,
            outcome: match self.outcome {
                Some(result) => Some(polled_view(result)),
                None => None,
            },
        }
    }
}

/// The models of recorded events.
pub open spec fn events_view(events: Seq<PollEvent>) -> Seq<PollEventView> {
    events.map_values(|e: PollEvent| e@)
}

impl Poller {
    /// Runs the poller over recorded events in place of live requests: each
    /// event answers the request under way, and no event is taken after the
    /// one that ends polling.
    #[verifier::loop_isolation(false)]
    pub fn replay(self, events: Vec<PollEvent>) -> (replay: PollReplay)
        ensures
            replay@ == poll_run(self@, events_view(events@)),
    {
        let ghost whole = poll_run(self@, events_view(events@));
        let mut poller = self;
        let mut events = events;
        loop
            invariant
                poll_run(poller@, events_view(events@)) == whole,
            decreases events.len(),
        {
            if events.len() == 0 {
                return PollReplay { attempts: poller.attempt, outcome: None };
            }
            let ghost before = events_view(events@);
            let attempt = poller.attempt;
            let event = events.remove(0);
            proof {
                assert(before[0] == event@);
                assert(events_view(events@) =~= before.drop_first());
            }
            match poller.step(event) {
                PollStep::Retry { poller: next, .. } => {
                    poller = next;
                },
                PollStep::Done(result) => {
                    return PollReplay { attempts: attempt, outcome: Some(result) };
                },
            }
        }
    }
}

/// The event is a response that says the job is still running.
pub open spec fn is_pending(event: PollEventView) -> bool {
    event matches PollEventView::Response(r) && r.status == STATUS_ACCEPTED
}

/// The event is a response that names the artifact at `url`.
pub open spec fn is_ready(event: PollEventView, url: Seq<char>) -> bool {
    event matches PollEventView::Response(r) && r.status == STATUS_OK && artifact_url(r.document)
        == Some(url)
}

/// The event is a response with the status `status`, which is neither "ready"
/// nor "pending".
pub open spec fn is_rejection(event: PollEventView, status: u16) -> bool {
    event matches PollEventView::Response(r) && r.status == status && status != STATUS_OK && status
        != STATUS_ACCEPTED
}

/// Pending responses only move the poller on: after `n` of them, with budget
/// left, the run is that of the poller `n` requests later on the other events.
proof fn lemma_pending_prefix(poller: PollerView, events: Seq<PollEventView>, n: nat)
    requires
        n <= events.len(),
        poller.attempt + n <= poller.max_attempts,
        forall|i: int| 0 <= i < n ==> is_pending(#[trigger] events[i]),
    ensures
        poll_run(poller, events) == poll_run(
            PollerView { attempt: poller.attempt + n, ..poller },
            events.skip(n as int),
        ),
    decreases n,
{
    if n == 0 {
        assert(events.skip(0) =~= events);
    } else {
        assert(is_pending(events[0]));
        let rest = events.drop_first();
        assert forall|i: int| 0 <= i < n - 1 implies is_pending(#[trigger] rest[i]) by {
            assert(rest[i] == events[i + 1]);
        }
        lemma_pending_prefix(poller.next(), rest, (n - 1) as nat);
        assert(rest.skip(n - 1) =~= events.skip(n as int));
    }
}

/// Whatever comes back, the poller never asks more often than its budget
/// allows, and the request under way only moves forward.
pub proof fn attempts_stay_within_budget(poller: PollerView, events: Seq<PollEventView>)
    requires
        poller.valid(),
    ensures
        poller.attempt <= poll_run(poller, events).attempts <= poller.max_attempts,
    decreases events.len(),
{
    if events.len() > 0 {
        if let PollStepView::Retry { poller: next, .. } = poll_step(poller, events[0]) {
            attempts_stay_within_budget(next, events.drop_first());
        }
    }
}

/// With a budget of `max_attempts` requests and nothing but pending responses,
/// the poller asks exactly `max_attempts` times and then gives up with
/// `MaxAttemptsExceeded`. With fewer responses than that the run is still open.
pub proof fn all_pending_exhausts_budget(
    polling_url: Seq<char>,
    max_attempts: nat,
    retry_delay_secs: nat,
    events: Seq<PollEventView>,
)
    requires
        polling_url.len() > 0,
        max_attempts >= 1,
        forall|i: int| 0 <= i < events.len() ==> is_pending(#[trigger] events[i]),
    ensures
        ({
            let run = poll_run(PollerView::start(polling_url, max_attempts, retry_delay_secs), events);
            if events.len() >= max_attempts {
                &&& run.attempts == max_attempts
                &&& run.outcome == Some(Err::<Seq<char>, PollError>(PollError::MaxAttemptsExceeded))
            } else {
                &&& run.attempts == events.len() + 1
                &&& run.outcome.is_none()
            }
        }),
{
    let poller = PollerView::start(polling_url, max_attempts, retry_delay_secs);
    if events.len() >= max_attempts {
        let n = (max_attempts - 1) as nat;
        lemma_pending_prefix(poller, events, n);
        assert(is_pending(events.skip(n as int)[0]));
    } else {
        lemma_pending_prefix(poller, events, events.len());
    }
}

/// If request `k` of a budget of at least `k` is the first whose response is
/// not pending, and that response names an artifact, the poller asks exactly
/// `k` times and ends with that artifact's location. What later requests would
/// have led to plays no part: they are not made.
pub proof fn ready_ends_polling(
    polling_url: Seq<char>,
    max_attempts: nat,
    retry_delay_secs: nat,
    events: Seq<PollEventView>,
    k: nat,
    url: Seq<char>,
)
    requires
        polling_url.len() > 0,
        1 <= k <= max_attempts,
        k <= events.len(),
        forall|i: int| 0 <= i < k - 1 ==> is_pending(#[trigger] events[i]),
        is_ready(events[k - 1], url),
    ensures
        ({
            let run = poll_run(PollerView::start(polling_url, max_attempts, retry_delay_secs), events);
            &&& run.attempts == k
            &&& run.outcome == Some(Ok::<Seq<char>, PollError>(url))
        }),
{
    let poller = PollerView::start(polling_url, max_attempts, retry_delay_secs);
    let n = (k - 1) as nat;
    lemma_pending_prefix(poller, events, n);
    assert(events.skip(n as int)[0] == events[k - 1]);
}

/// If request `k` of a budget of at least `k` is the first whose response is
/// not pending, and that response has a status that is neither "ready" nor
/// "pending", the poller asks exactly `k` times and ends with
/// `RejectedStatus`, however much of the budget is left.
pub proof fn rejection_ends_polling(
    polling_url: Seq<char>,
    max_attempts: nat,
    retry_delay_secs: nat,
    events: Seq<PollEventView>,
    k: nat,
    status: u16,
)
    requires
        polling_url.len() > 0,
        1 <= k <= max_attempts,
        k <= events.len(),
        forall|i: int| 0 <= i < k - 1 ==> is_pending(#[trigger] events[i]),
        is_rejection(events[k - 1], status),
    ensures
        ({
            let run = poll_run(PollerView::start(polling_url, max_attempts, retry_delay_secs), events);
            &&& run.attempts == k
            &&& run.outcome == Some(
                Err::<Seq<char>, PollError>(PollError::RejectedStatus(status)),
            )
        }),
{
    let poller = PollerView::start(polling_url, max_attempts, retry_delay_secs);
    let n = (k - 1) as nat;
    lemma_pending_prefix(poller, events, n);
    assert(events.skip(n as int)[0] == events[k - 1]);
}

} // verus!
