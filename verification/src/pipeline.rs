//! The pipeline: poll until the job is done, then download the artifact.
//!
//! Retrying belongs to the poller alone. The pipeline passes the artifact
//! location on to the downloader, stops at the first failure of either part,
//! and hands that failure on as it is.

use crate::downloader::{
    chunk_events, chunks_reach_sink_in_order, download_run, is_success, stream_view,
    DownloadError, DownloadOutcome, DownloadResult, Downloader, ResponseEvent, StreamEvent,
    StreamEventView,
};
use crate::poller::{
    all_pending_exhausts_budget, events_view, is_pending, is_ready, poll_run, polled_view,
    ready_ends_polling, PollError, PollEvent, PollEventView, Poller, PollerView,
};
use vstd::prelude::*;

verus! {

/// Why the pipeline ended without the artifact: the failure of the part that
/// failed, unchanged.
#[derive(Clone, Copy, Debug, PartialEq, Eq)]
pub enum PipelineError {
    Poll(PollError),
    Download(DownloadError),
}

/// What follows the end of polling: the location to download from, or the
/// poller's failure. A location is never empty; an empty one counts as a
/// response that did not name an artifact.
pub open spec fn download_after(polled: Result<Seq<char>, PollError>) -> Result<
    Seq<char>,
    PipelineError,
> {
    match polled {
        Ok(url) => if url.len() > 0 {
            Ok(url)
        } else {
            Err(PipelineError::Poll(PollError::MalformedResponse))
        },
        Err(e) => Err(PipelineError::Poll(e)),
    }
}

/// How the pipeline ends once the download has ended.
pub open spec fn surfaced(outcome: DownloadOutcome) -> Result<nat, PipelineError> {
    match outcome {
        DownloadOutcome::Success(n) => Ok(n),
        DownloadOutcome::Failure(e) => Err(PipelineError::Download(e)),
    }
}

/// The model of a download that may not have been started.
pub open spec fn started_view(started: Result<Downloader, PipelineError>) -> Result<
    Seq<char>,
    PipelineError,
> {
    match started {
        Ok(downloader) => Ok(downloader@),
        Err(e) => Err(e),
    }
}

/// The model of the end of the pipeline.
pub open spec fn finished_view(finished: Result<u64, PipelineError>) -> Result<nat, PipelineError> {
    match finished {
        Ok(n) => Ok(n as nat),
        Err(e) => Err(e),
    }
}

/// Goes on from the end of polling: starts the download of the artifact, or
/// stops with the poller's failure.
pub fn start_download(polled: Result<String, PollError>) -> (started: Result<
    Downloader,
    PipelineError,
>)
    ensures
        started_view(started) == download_after(polled_view(polled)),
{
    match polled {
        Ok(url) => match Downloader::new(url) {
            Some(downloader) => Ok(downloader),
            None => Err(PipelineError::Poll(PollError::MalformedResponse)),
        },
        Err(e) => Err(PipelineError::Poll(e)),
    }
}

/// Ends the pipeline with the end of the download.
pub fn finish(downloaded: DownloadResult) -> (finished: Result<u64, PipelineError>)
    ensures
        finished_view(finished) == surfaced(downloaded@),
{
    match downloaded {
        DownloadResult::Success(n) => Ok(n),
        DownloadResult::Failure(e) => Err(PipelineError::Download(e)),
    }
}

/// A run of the pipeline as far as its events go.
pub ghost struct PipelineRun {
    /// The number of poll requests made.
    pub attempts: nat,
    /// The location that the artifact was requested from; `None` where no
    /// download was attempted.
    pub fetched: Option<Seq<char>>,
    /// What the sink holds.
    pub sink: Seq<u8>,
    /// The byte count or the failure; `None` while the run is open.
    pub outcome: Option<Result<nat, PipelineError>>,
}

/// The end of the pipeline for the end of the download, where there is one.
pub open spec fn surfaced_end(outcome: Option<DownloadOutcome>) -> Option<
    Result<nat, PipelineError>,
> {
    match outcome {
        Some(o) => Some(surfaced(o)),
        None => None,
    }
}

/// The run of the pipeline: the poll requests lead to `events`, and the
/// request for the artifact, if it is made, to `response` and to a body that
/// arrives as `stream`.
pub open spec fn pipeline_run(
    poller: PollerView,
    events: Seq<PollEventView>,
    response: ResponseEvent,
    stream: Seq<StreamEventView>,
) -> PipelineRun {
    let polling = poll_run(poller, events);
    match polling.outcome {
        None => PipelineRun {
            attempts: polling.attempts,
            fetched: None,
            sink: Seq::empty(),
            outcome: None,
        },
        Some(polled) => match download_after(polled) {
            Err(e) => PipelineRun {
                attempts: polling.attempts,
                fetched: None,
                sink: Seq::empty(),
                outcome: Some(Err(e)),
            },
            Ok(url) => {
                let download = download_run(response, stream);
                PipelineRun {
                    attempts: polling.attempts,
                    fetched: Some(url),
                    sink: download.sink,
                    outcome: surfaced_end(download.outcome),
                }
            },
        },
    }
}

/// How a replay of a recorded run went.
#[derive(Debug, PartialEq, Eq)]
pub struct PipelineReplay {
    /// The number of poll requests made.
    pub attempts: u32,
    /// The location that the artifact was requested from, if it was.
    pub fetched: Option<String>,
    /// The byte count or the failure; `None` where the events ran out first.
    pub outcome: Option<Result<u64, PipelineError>>,
}

/// The model of a replay that left `sink` in the sink.
pub open spec fn replayed(replay: PipelineReplay, sink: Seq<u8>) -> PipelineRun {
    PipelineRun {
        attempts: replay.attempts as nat,
        fetched: match replay.fetched {
            Some(url) => Some(url@),
            None => None,
        },
        sink,
        outcome: match replay.outcome {
            Some(finished) => Some(finished_view(finished)),
            None => None,
        },
    }
}

/// Runs the whole pipeline over recorded events in place of live requests,
/// appending to a sink in memory: `events` answer the poll requests,
/// `response` the request for the artifact, and `stream` is what reading its
/// body leads to. The byte count must fit in `u64`.
pub fn replay(
    poller: Poller,
    events: Vec<PollEvent>,
    response: ResponseEvent,
    stream: Vec<StreamEvent>,
    sink: &mut Vec<u8>,
) -> (replay: PipelineReplay)
    requires
        pipeline_run(poller@, events_view(events@), response, stream_view(stream@)).sink.len()
            <= u64::MAX,
    ensures
        final(sink)@ == old(sink)@ + pipeline_run(
            poller@,
            events_view(events@),
            response,
            stream_view(stream@),
        ).sink,
        replayed(
            replay,
            pipeline_run(poller@, events_view(events@), response, stream_view(stream@)).sink,
        ) == pipeline_run(poller@, events_view(events@), response, stream_view(stream@)),
{
    let ghost whole = pipeline_run(poller@, events_view(events@), response, stream_view(stream@));
    let ghost held = sink@;
    let polling = poller.replay(events);
    let attempts = polling.attempts;
    let replay = match polling.outcome {
        None => PipelineReplay { attempts, fetched: None, outcome: None },
        Some(polled) => match start_download(polled) {
            Err(e) => PipelineReplay { attempts, fetched: None, outcome: Some(Err(e)) },
            Ok(downloader) => {
                let url = downloader.artifact_url().to_owned();
                let outcome = match downloader.replay(response, stream, sink) {
                    Some(result) => Some(finish(result)),
                    None => None,
                };
                PipelineReplay { attempts, fetched: Some(url), outcome }
            },
        },
    };
    assert(sink@ =~= held + whole.sink);
    replay
}

/// A failure of the poller ends the pipeline with that very failure. No
/// download is attempted and the sink stays empty, whatever the artifact
/// request would have led to.
pub proof fn poll_failure_stops_pipeline(
    poller: PollerView,
    events: Seq<PollEventView>,
    response: ResponseEvent,
    stream: Seq<StreamEventView>,
    error: PollError,
)
    requires
        poller.valid(),
        poll_run(poller, events).outcome == Some(Err::<Seq<char>, PollError>(error)),
    ensures
        ({
            let run = pipeline_run(poller, events, response, stream);
            &&& run.attempts == poll_run(poller, events).attempts
            &&& run.fetched.is_none()
            &&& run.sink == Seq::<u8>::empty()
            &&& run.outcome == Some(Err::<nat, PipelineError>(PipelineError::Poll(error)))
        }),
{
}

/// A failure of the download ends the pipeline with that very failure, and
/// the sink holds what the download left in it.
pub proof fn download_failure_ends_pipeline(
    poller: PollerView,
    events: Seq<PollEventView>,
    response: ResponseEvent,
    stream: Seq<StreamEventView>,
    url: Seq<char>,
    error: DownloadError,
)
    requires
        poller.valid(),
        url.len() > 0,
        poll_run(poller, events).outcome == Some(Ok::<Seq<char>, PollError>(url)),
        download_run(response, stream).outcome == Some(DownloadOutcome::Failure(error)),
    ensures
        ({
            let run = pipeline_run(poller, events, response, stream);
            &&& run.fetched == Some(url)
            &&& run.sink == download_run(response, stream).sink
            &&& run.outcome == Some(Err::<nat, PipelineError>(PipelineError::Download(error)))
        }),
{
}

/// With a budget of `max_attempts` requests and that many pending responses,
/// the pipeline ends with `MaxAttemptsExceeded` after exactly `max_attempts`
/// poll requests: no download is attempted and nothing is written.
pub proof fn exhausted_budget_downloads_nothing(
    polling_url: Seq<char>,
    max_attempts: nat,
    retry_delay_secs: nat,
    events: Seq<PollEventView>,
    response: ResponseEvent,
    stream: Seq<StreamEventView>,
)
    requires
        polling_url.len() > 0,
        max_attempts >= 1,
        events.len() >= max_attempts,
        forall|i: int| 0 <= i < events.len() ==> is_pending(#[trigger] events[i]),
    ensures
        ({
            let poller = PollerView::start(polling_url, max_attempts, retry_delay_secs);
            let run = pipeline_run(poller, events, response, stream);
            &&& run.attempts == max_attempts
            &&& run.fetched.is_none()
            &&& run.sink == Seq::<u8>::empty()
            &&& run.outcome == Some(
                Err::<nat, PipelineError>(PipelineError::Poll(PollError::MaxAttemptsExceeded)),
            )
        }),
{
    all_pending_exhausts_budget(polling_url, max_attempts, retry_delay_secs, events);
}

/// If poll request `k` is the first whose response is not pending and names
/// the artifact at `url`, and the artifact arrives with a success status in
/// chunks that then end, the pipeline makes exactly `k` poll requests, fetches
/// from `url`, leaves the chunks end to end in the sink, and succeeds with the
/// count of those bytes.
pub proof fn ready_job_is_delivered(
    polling_url: Seq<char>,
    max_attempts: nat,
    retry_delay_secs: nat,
    events: Seq<PollEventView>,
    k: nat,
    url: Seq<char>,
    status: u16,
    chunks: Seq<Seq<u8>>,
)
    requires
        polling_url.len() > 0,
        1 <= k <= max_attempts,
        k <= events.len(),
        forall|i: int| 0 <= i < k - 1 ==> is_pending(#[trigger] events[i]),
        is_ready(events[k - 1], url),
        is_success(status),
    ensures
        ({
            let poller = PollerView::start(polling_url, max_attempts, retry_delay_secs);
            let stream = chunk_events(chunks).push(StreamEventView::End);
            let run = pipeline_run(poller, events, ResponseEvent::Status(status), stream);
            &&& run.attempts == k
            &&& run.fetched == Some(url)
            &&& run.sink == chunks.flatten()
            &&& run.outcome == Some(Ok::<nat, PipelineError>(chunks.flatten().len()))
        }),
{
    ready_ends_polling(polling_url, max_attempts, retry_delay_secs, events, k, url);
    chunks_reach_sink_in_order(status, chunks);
}

} // verus!
