use stable_audio::downloader::{
    status_is_success, DownloadError, DownloadResult, Downloader, ResponseEvent, StreamEvent,
    TransferStep,
};

fn new_downloader() -> Downloader {
    Downloader::new("https://cdn/art/1".to_string()).unwrap()
}

/// Runs a download over the events as a caller would, appending to a sink in
/// memory. Gives the sink and how the download ended, if it did.
fn run_download(response: ResponseEvent, stream: Vec<StreamEvent>) -> (Vec<u8>, Option<DownloadResult>) {
    let mut sink = Vec::new();
    let mut transfer = match new_downloader().begin(response) {
        Ok(transfer) => transfer,
        Err(e) => return (sink, Some(DownloadResult::Failure(e))),
    };
    for event in stream {
        assert!(transfer.accepts(&event));
        match transfer.step(event) {
            TransferStep::Write { transfer: next, bytes } => {
                sink.extend_from_slice(&bytes);
                assert_eq!(next.bytes_written(), sink.len() as u64);
                transfer = next;
            }
            TransferStep::Done(result) => return (sink, Some(result)),
        }
    }
    (sink, None)
}

#[test]
fn chunks_are_written_in_arrival_order() {
    let a = vec![1u8, 2, 3];
    let b = vec![4u8];
    let c = vec![5u8, 6];
    let stream = vec![
        StreamEvent::Chunk(a.clone()),
        StreamEvent::Chunk(b.clone()),
        StreamEvent::Chunk(c.clone()),
        StreamEvent::End,
    ];
    let (sink, result) = run_download(ResponseEvent::Status(200), stream);
    assert_eq!(sink, vec![1u8, 2, 3, 4, 5, 6]);
    assert_eq!(result, Some(DownloadResult::Success(6)));
}

#[test]
fn equal_and_empty_chunks_are_kept_as_they_come() {
    let stream = vec![
        StreamEvent::Chunk(vec![9, 9]),
        StreamEvent::Chunk(vec![]),
        StreamEvent::Chunk(vec![9, 9]),
        StreamEvent::Chunk(vec![0]),
        StreamEvent::End,
    ];
    let (sink, result) = run_download(ResponseEvent::Status(206), stream);
    assert_eq!(sink, vec![9u8, 9, 9, 9, 0]);
    assert_eq!(result, Some(DownloadResult::Success(5)));
}

#[test]
fn write_step_hands_back_the_chunk_itself() {
    let transfer = new_downloader().begin(ResponseEvent::Status(200)).unwrap();
    assert_eq!(transfer.bytes_written(), 0);
    match transfer.step(StreamEvent::Chunk(vec![7, 8, 9])) {
        TransferStep::Write { transfer: next, bytes } => {
            assert_eq!(bytes, vec![7u8, 8, 9]);
            assert_eq!(next.bytes_written(), 3);
        }
        TransferStep::Done(result) => panic!("download ended: {:?}", result),
    }
}

#[test]
fn empty_body_succeeds_with_zero_bytes() {
    let (sink, result) = run_download(ResponseEvent::Status(200), vec![StreamEvent::End]);
    assert!(sink.is_empty());
    assert_eq!(result, Some(DownloadResult::Success(0)));
}

#[test]
fn bad_status_writes_nothing() {
    for status in [404u16, 500, 401, 302, 300, 199, 100, 0, 999] {
        let stream = vec![StreamEvent::Chunk(vec![1, 2, 3]), StreamEvent::End];
        let (sink, result) = run_download(ResponseEvent::Status(status), stream);
        assert!(sink.is_empty());
        assert_eq!(result, Some(DownloadResult::Failure(DownloadError::BadStatus(status))));
    }
}

#[test]
fn every_success_status_starts_the_transfer() {
    for status in [200u16, 201, 202, 204, 250, 299] {
        assert!(new_downloader().begin(ResponseEvent::Status(status)).is_ok());
    }
}

#[test]
fn transport_failure_writes_nothing() {
    let (sink, result) = run_download(ResponseEvent::TransportFailure, vec![StreamEvent::End]);
    assert!(sink.is_empty());
    assert_eq!(result, Some(DownloadResult::Failure(DownloadError::TransportError)));
}

#[test]
fn interruption_keeps_what_arrived_before_it() {
    let stream = vec![
        StreamEvent::Chunk(vec![1, 2]),
        StreamEvent::Chunk(vec![3]),
        StreamEvent::Failure,
        StreamEvent::Chunk(vec![4]),
        StreamEvent::End,
    ];
    let (sink, result) = run_download(ResponseEvent::Status(200), stream);
    assert_eq!(sink, vec![1u8, 2, 3]);
    assert_eq!(result, Some(DownloadResult::Failure(DownloadError::StreamInterrupted)));
}

#[test]
fn interruption_before_any_chunk_leaves_the_sink_empty() {
    let (sink, result) = run_download(ResponseEvent::Status(200), vec![StreamEvent::Failure]);
    assert!(sink.is_empty());
    assert_eq!(result, Some(DownloadResult::Failure(DownloadError::StreamInterrupted)));
}

#[test]
fn events_after_the_end_are_not_read() {
    let stream = vec![StreamEvent::Chunk(vec![1]), StreamEvent::End, StreamEvent::Chunk(vec![2])];
    let (sink, result) = run_download(ResponseEvent::Status(200), stream);
    assert_eq!(sink, vec![1u8]);
    assert_eq!(result, Some(DownloadResult::Success(1)));
}

#[test]
fn body_without_end_leaves_the_download_open() {
    let (sink, result) = run_download(ResponseEvent::Status(200), vec![StreamEvent::Chunk(vec![1])]);
    assert_eq!(sink, vec![1u8]);
    assert_eq!(result, None);
}

#[test]
fn success_class_is_two_hundred_to_two_ninety_nine() {
    assert!(!status_is_success(0));
    assert!(!status_is_success(199));
    assert!(status_is_success(200));
    assert!(status_is_success(202));
    assert!(status_is_success(299));
    assert!(!status_is_success(300));
    assert!(!status_is_success(404));
    assert!(!status_is_success(u16::MAX));
}

#[test]
fn transfer_accepts_every_event_while_the_count_fits() {
    let transfer = new_downloader().begin(ResponseEvent::Status(200)).unwrap();
    assert!(transfer.accepts(&StreamEvent::Chunk(vec![0; 4096])));
    assert!(transfer.accepts(&StreamEvent::Chunk(vec![])));
    assert!(transfer.accepts(&StreamEvent::End));
    assert!(transfer.accepts(&StreamEvent::Failure));
}

#[test]
fn downloader_needs_a_location() {
    assert!(Downloader::new(String::new()).is_none());
    assert_eq!(new_downloader().artifact_url(), "https://cdn/art/1");
}

#[test]
fn download_result_turns_into_a_result() {
    assert_eq!(DownloadResult::Success(3072).into_result(), Ok(3072));
    assert_eq!(
        DownloadResult::Failure(DownloadError::BadStatus(404)).into_result(),
        Err(DownloadError::BadStatus(404))
    );
    assert_eq!(
        DownloadResult::Failure(DownloadError::StreamInterrupted).into_result(),
        Err(DownloadError::StreamInterrupted)
    );
    assert_eq!(
        DownloadResult::Failure(DownloadError::TransportError).into_result(),
        Err(DownloadError::TransportError)
    );
}

#[test]
fn replay_appends_the_chunks_to_the_sink() {
    let mut sink = vec![0xffu8];
    let stream = vec![
        StreamEvent::Chunk(vec![1, 2, 3]),
        StreamEvent::Chunk(vec![4]),
        StreamEvent::Chunk(vec![5, 6]),
        StreamEvent::End,
    ];
    let ended = new_downloader().replay(ResponseEvent::Status(200), stream, &mut sink);
    assert_eq!(ended, Some(DownloadResult::Success(6)));
    assert_eq!(sink, vec![0xffu8, 1, 2, 3, 4, 5, 6]);
}

#[test]
fn replay_of_a_bad_status_leaves_the_sink_alone() {
    let mut sink = vec![7u8];
    let stream = vec![StreamEvent::Chunk(vec![1]), StreamEvent::End];
    let ended = new_downloader().replay(ResponseEvent::Status(403), stream, &mut sink);
    assert_eq!(ended, Some(DownloadResult::Failure(DownloadError::BadStatus(403))));
    assert_eq!(sink, vec![7u8]);
}

#[test]
fn replay_of_an_interrupted_body_keeps_what_arrived() {
    let mut sink = Vec::new();
    let stream =
        vec![StreamEvent::Chunk(vec![1, 2]), StreamEvent::Failure, StreamEvent::Chunk(vec![3])];
    let ended = new_downloader().replay(ResponseEvent::Status(200), stream, &mut sink);
    assert_eq!(ended, Some(DownloadResult::Failure(DownloadError::StreamInterrupted)));
    assert_eq!(sink, vec![1u8, 2]);
}

#[test]
fn replay_of_an_open_body_has_no_end() {
    let mut sink = Vec::new();
    let ended = new_downloader().replay(
        ResponseEvent::Status(200),
        vec![StreamEvent::Chunk(vec![1])],
        &mut sink,
    );
    assert_eq!(ended, None);
    assert_eq!(sink, vec![1u8]);
}

#[test]
fn download_replay_agrees_with_stepping_by_hand() {
    let scripts: Vec<Vec<StreamEvent>> = vec![
        vec![],
        vec![StreamEvent::End],
        vec![StreamEvent::Failure],
        vec![StreamEvent::Chunk(vec![1, 2]), StreamEvent::Chunk(vec![]), StreamEvent::End],
        vec![StreamEvent::Chunk(vec![3]), StreamEvent::Failure, StreamEvent::End],
        vec![StreamEvent::Chunk(vec![4; 100])],
    ];
    for response in [
        ResponseEvent::Status(200),
        ResponseEvent::Status(299),
        ResponseEvent::Status(404),
        ResponseEvent::TransportFailure,
    ] {
        for script in &scripts {
            let (by_hand, result) = run_download(response, script.clone());
            let mut sink = Vec::new();
            let ended = new_downloader().replay(response, script.clone(), &mut sink);
            assert_eq!(ended, result);
            assert_eq!(sink, by_hand);
        }
    }
}
