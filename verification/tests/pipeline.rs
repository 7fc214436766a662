use stable_audio::downloader::{
    DownloadError, DownloadResult, ResponseEvent, StreamEvent, TransferStep,
};
use stable_audio::pipeline::{finish, start_download, PipelineError};
use stable_audio::poller::{
    JobDescriptor, PollConfig, PollError, PollEvent, PollResponse, PollStep, Poller,
};
use stable_audio::schemas::create_music::{CreateMusicResponse, MusicLinks, ResponseParams};

/// What a scripted run of the pipeline did.
struct Script {
    poll_requests: Vec<String>,
    download_requests: Vec<String>,
    sink: Option<Vec<u8>>,
    outcome: Result<u64, PipelineError>,
}

fn accepted() -> PollEvent {
    PollEvent::Response(PollResponse { status: 202, body: String::new(), document: None })
}

fn ok_with_artifact(url: &str) -> PollEvent {
    let document = CreateMusicResponse {
        data: vec![ResponseParams {
            kind: "generations".to_string(),
            id: "1".to_string(),
            links: MusicLinks { result: url.to_string(), endpoint: String::new() },
        }],
    };
    PollEvent::Response(PollResponse { status: 200, body: String::new(), document: Some(document) })
}

/// Runs the whole pipeline as a caller would, against a service that answers
/// the poll requests with `polls`, and the artifact request with `response`
/// and a body that arrives as `stream`. The sink is opened only once a body is
/// to be read.
fn run_pipeline(
    polling_url: &str,
    max_attempts: u32,
    polls: Vec<PollEvent>,
    response: ResponseEvent,
    stream: Vec<StreamEvent>,
) -> Script {
    let mut script =
        Script { poll_requests: vec![], download_requests: vec![], sink: None, outcome: Ok(0) };
    let job = JobDescriptor::new(polling_url.to_string()).unwrap();
    let mut poller = Poller::new(job, PollConfig { max_attempts, retry_delay_secs: 3 }).unwrap();
    let mut polls = polls.into_iter();
    let polled = loop {
        script.poll_requests.push(poller.polling_url().to_string());
        let event = polls.next().expect("the service was asked more often than scripted");
        match poller.step(event) {
            PollStep::Retry { poller: next, .. } => poller = next,
            PollStep::Done(result) => break result,
        }
    };
    let downloader = match start_download(polled) {
        Ok(downloader) => downloader,
        Err(e) => {
            script.outcome = Err(e);
            return script;
        }
    };
    script.download_requests.push(downloader.artifact_url().to_string());
    let mut transfer = match downloader.begin(response) {
        Ok(transfer) => transfer,
        Err(e) => {
            script.outcome = finish(DownloadResult::Failure(e));
            return script;
        }
    };
    let mut sink = Vec::new();
    let mut stream = stream.into_iter();
    let result = loop {
        let event = stream.next().expect("the body was read further than scripted");
        match transfer.step(event) {
            TransferStep::Write { transfer: next, bytes } => {
                sink.extend_from_slice(&bytes);
                transfer = next;
            }
            TransferStep::Done(result) => break result,
        }
    };
    script.sink = Some(sink);
    script.outcome = finish(result);
    script
}

#[test]
fn job_ready_at_second_poll_is_downloaded_whole() {
    let chunks: Vec<Vec<u8>> = (0..3u8).map(|i| vec![i; 1024]).collect();
    let mut stream: Vec<StreamEvent> = chunks.iter().cloned().map(StreamEvent::Chunk).collect();
    stream.push(StreamEvent::End);
    let script = run_pipeline(
        "https://api/poll/1",
        21,
        vec![accepted(), ok_with_artifact("https://cdn/art/1")],
        ResponseEvent::Status(200),
        stream,
    );
    assert_eq!(script.outcome, Ok(3072));
    assert_eq!(script.poll_requests, vec!["https://api/poll/1", "https://api/poll/1"]);
    assert_eq!(script.download_requests, vec!["https://cdn/art/1"]);
    let sink = script.sink.unwrap();
    assert_eq!(sink.len(), 3072);
    assert_eq!(sink, chunks.concat());
}

#[test]
fn budget_of_one_with_pending_job_downloads_nothing() {
    let script = run_pipeline(
        "https://api/poll/1",
        1,
        vec![accepted()],
        ResponseEvent::Status(200),
        vec![StreamEvent::Chunk(vec![1]), StreamEvent::End],
    );
    assert_eq!(script.outcome, Err(PipelineError::Poll(PollError::MaxAttemptsExceeded)));
    assert_eq!(script.poll_requests.len(), 1);
    assert!(script.download_requests.is_empty());
    assert!(script.sink.is_none());
}

#[test]
fn rejected_poll_downloads_nothing() {
    let script = run_pipeline(
        "https://api/poll/1",
        21,
        vec![
            accepted(),
            PollEvent::Response(PollResponse {
                status: 500,
                body: "down".to_string(),
                document: None,
            }),
        ],
        ResponseEvent::Status(200),
        vec![StreamEvent::End],
    );
    assert_eq!(script.outcome, Err(PipelineError::Poll(PollError::RejectedStatus(500))));
    assert_eq!(script.poll_requests.len(), 2);
    assert!(script.download_requests.is_empty());
    assert!(script.sink.is_none());
}

#[test]
fn bad_download_status_opens_no_sink() {
    let script = run_pipeline(
        "https://api/poll/1",
        21,
        vec![ok_with_artifact("https://cdn/art/1")],
        ResponseEvent::Status(404),
        vec![StreamEvent::Chunk(vec![1]), StreamEvent::End],
    );
    assert_eq!(script.outcome, Err(PipelineError::Download(DownloadError::BadStatus(404))));
    assert_eq!(script.download_requests, vec!["https://cdn/art/1"]);
    assert!(script.sink.is_none());
}

#[test]
fn interrupted_download_surfaces_and_keeps_the_bytes() {
    let script = run_pipeline(
        "https://api/poll/1",
        21,
        vec![ok_with_artifact("https://cdn/art/1")],
        ResponseEvent::Status(200),
        vec![StreamEvent::Chunk(vec![1, 2]), StreamEvent::Failure],
    );
    assert_eq!(script.outcome, Err(PipelineError::Download(DownloadError::StreamInterrupted)));
    assert_eq!(script.sink, Some(vec![1u8, 2]));
}

#[test]
fn start_download_hands_on_the_artifact_location() {
    let downloader = start_download(Ok("https://cdn/art/1".to_string())).unwrap();
    assert_eq!(downloader.artifact_url(), "https://cdn/art/1");
}

#[test]
fn start_download_surfaces_each_poll_error_unchanged() {
    for error in [
        PollError::TransportError,
        PollError::RejectedStatus(403),
        PollError::MaxAttemptsExceeded,
        PollError::MalformedResponse,
    ] {
        assert_eq!(start_download(Err(error)).unwrap_err(), PipelineError::Poll(error));
    }
}

#[test]
fn start_download_takes_an_empty_location_as_malformed() {
    assert_eq!(
        start_download(Ok(String::new())).unwrap_err(),
        PipelineError::Poll(PollError::MalformedResponse)
    );
}

#[test]
fn finish_surfaces_each_download_result_unchanged() {
    assert_eq!(finish(DownloadResult::Success(3072)), Ok(3072));
    assert_eq!(finish(DownloadResult::Success(0)), Ok(0));
    for error in [
        DownloadError::TransportError,
        DownloadError::BadStatus(404),
        DownloadError::StreamInterrupted,
    ] {
        assert_eq!(finish(DownloadResult::Failure(error)), Err(PipelineError::Download(error)));
    }
}

fn fresh_poller(polling_url: &str, max_attempts: u32) -> Poller {
    let job = JobDescriptor::new(polling_url.to_string()).unwrap();
    Poller::new(job, PollConfig { max_attempts, retry_delay_secs: 3 }).unwrap()
}

#[test]
fn replay_of_job_ready_at_second_poll_delivers_3072_bytes() {
    let chunks: Vec<Vec<u8>> = vec![vec![0xaa; 1024], vec![0xbb; 1024], vec![0xcc; 1024]];
    let mut stream: Vec<StreamEvent> = chunks.iter().cloned().map(StreamEvent::Chunk).collect();
    stream.push(StreamEvent::End);
    let mut sink = Vec::new();
    let replayed = stable_audio::pipeline::replay(
        fresh_poller("https://api/poll/1", 21),
        vec![accepted(), ok_with_artifact("https://cdn/art/1")],
        ResponseEvent::Status(200),
        stream,
        &mut sink,
    );
    assert_eq!(replayed.attempts, 2);
    assert_eq!(replayed.fetched, Some("https://cdn/art/1".to_string()));
    assert_eq!(replayed.outcome, Some(Ok(3072)));
    assert_eq!(sink.len(), 3072);
    assert_eq!(sink, chunks.concat());
}

#[test]
fn replay_of_budget_of_one_with_pending_job_fetches_nothing() {
    let mut sink = Vec::new();
    let replayed = stable_audio::pipeline::replay(
        fresh_poller("https://api/poll/1", 1),
        vec![accepted()],
        ResponseEvent::Status(200),
        vec![StreamEvent::Chunk(vec![1, 2, 3]), StreamEvent::End],
        &mut sink,
    );
    assert_eq!(replayed.attempts, 1);
    assert_eq!(replayed.fetched, None);
    assert_eq!(replayed.outcome, Some(Err(PipelineError::Poll(PollError::MaxAttemptsExceeded))));
    assert!(sink.is_empty());
}

#[test]
fn replay_of_a_bad_download_status_writes_nothing() {
    let mut sink = Vec::new();
    let replayed = stable_audio::pipeline::replay(
        fresh_poller("https://api/poll/1", 21),
        vec![ok_with_artifact("https://cdn/art/1")],
        ResponseEvent::Status(500),
        vec![StreamEvent::Chunk(vec![1]), StreamEvent::End],
        &mut sink,
    );
    assert_eq!(replayed.attempts, 1);
    assert_eq!(replayed.fetched, Some("https://cdn/art/1".to_string()));
    assert_eq!(replayed.outcome, Some(Err(PipelineError::Download(DownloadError::BadStatus(500)))));
    assert!(sink.is_empty());
}

#[test]
fn replay_of_unfinished_polling_is_open() {
    let mut sink = Vec::new();
    let replayed = stable_audio::pipeline::replay(
        fresh_poller("https://api/poll/1", 5),
        vec![accepted(), accepted()],
        ResponseEvent::Status(200),
        vec![StreamEvent::End],
        &mut sink,
    );
    assert_eq!(replayed.attempts, 3);
    assert_eq!(replayed.fetched, None);
    assert_eq!(replayed.outcome, None);
    assert!(sink.is_empty());
}

#[test]
fn pipeline_replay_agrees_with_running_by_hand() {
    let script = run_pipeline(
        "https://api/poll/1",
        3,
        vec![accepted(), accepted(), ok_with_artifact("https://cdn/art/2")],
        ResponseEvent::Status(200),
        vec![StreamEvent::Chunk(vec![5, 6]), StreamEvent::Chunk(vec![7]), StreamEvent::End],
    );
    let mut sink = Vec::new();
    let replayed = stable_audio::pipeline::replay(
        fresh_poller("https://api/poll/1", 3),
        vec![accepted(), accepted(), ok_with_artifact("https://cdn/art/2")],
        ResponseEvent::Status(200),
        vec![StreamEvent::Chunk(vec![5, 6]), StreamEvent::Chunk(vec![7]), StreamEvent::End],
        &mut sink,
    );
    assert_eq!(replayed.attempts as usize, script.poll_requests.len());
    assert_eq!(replayed.fetched.into_iter().collect::<Vec<String>>(), script.download_requests);
    assert_eq!(replayed.outcome, Some(script.outcome));
    assert_eq!(Some(sink), script.sink);
}
