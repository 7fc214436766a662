//! The streaming downloader: takes an artifact chunk by chunk into a sink.
//!
//! The downloader reads and writes nothing itself. It is told the status of
//! the one response, then each chunk as it arrives, and says for each what is
//! to be done with the sink: append these bytes, flush and close, or release.
//! It keeps count of the bytes, and in its model the content of the sink.

use vstd::prelude::*;

verus! {

/// Why a download ended without the whole artifact.
#[derive(Clone, Copy, Debug, PartialEq, Eq)]
pub enum DownloadError {
    /// The request failed below HTTP: no response came back.
    TransportError,
    /// The response had a status outside the success class. Nothing was written.
    BadStatus(u16),
    /// Reading a chunk failed. What arrived before it is in the sink.
    StreamInterrupted,
}

/// How a download ended. On `Success` the sink is flushed and closed; on
/// `Failure` it is released as it is.
#[derive(Clone, Copy, Debug, PartialEq, Eq)]
pub enum DownloadResult {
    /// The stream ended; the sink holds this many bytes.
    Success(u64),
    Failure(DownloadError),
}

/// Mathematical model of a [`DownloadResult`].
pub ghost enum DownloadOutcome {
    Success(nat),
    Failure(DownloadError),
}

impl View for DownloadResult {
    type V = DownloadOutcome;

    open spec fn view(&self) -> DownloadOutcome {
        match self {
            DownloadResult::Success(n) => DownloadOutcome::Success(*n as nat),
            DownloadResult::Failure(e) => DownloadOutcome::Failure(*e),
        }
    }
}

impl DownloadResult {
    /// The byte count, or the error.
    pub fn into_result(self) -> (result: Result<u64, DownloadError>)
        ensures
            result == match self {
                DownloadResult::Success(n) => Ok::<u64, DownloadError>(n),
                DownloadResult::Failure(e) => Err::<u64, DownloadError>(e),
            },
    {
        match self {
            DownloadResult::Success(n) => Ok(n),
            DownloadResult::Failure(e) => Err(e),
        }
    }
}

/// What the request for the artifact led to.
#[derive(Clone, Copy, Debug, PartialEq, Eq)]
pub enum ResponseEvent {
    /// A response came back with this status.
    Status(u16),
    /// The request failed below HTTP.
    TransportFailure,
}

/// What reading the body led to.
#[derive(Clone, Debug, PartialEq, Eq)]
pub enum StreamEvent {
    /// The next chunk arrived.
    Chunk(Vec<u8>),
    /// The body is complete.
    End,
    /// Reading failed.
    Failure,
}

/// Mathematical model of a [`StreamEvent`].
pub ghost enum StreamEventView {
    Chunk(Seq<u8>),
    End,
    Failure,
}

impl View for StreamEvent {
    type V = StreamEventView;

    open spec fn view(&self) -> StreamEventView {
        match self {
            StreamEvent::Chunk(bytes) => StreamEventView::Chunk(bytes@),
            StreamEvent::End => StreamEventView::End,
            StreamEvent::Failure => StreamEventView::Failure,
        }
    }
}

/// The success class of HTTP statuses.
pub open spec fn is_success(status: u16) -> bool {
    200 <= status < 300
}

/// Whether the status is in the success class.
pub fn status_is_success(status: u16) -> (ok: bool)
    ensures
        ok == is_success(status),
{
    200 <= status && status < 300
}

/// A download whose request is under way. Its model is the artifact location.
#[derive(Clone, Debug, PartialEq, Eq)]
pub struct Downloader {
    artifact_url: String,
}

impl View for Downloader {
    type V = Seq<char>;

    closed spec fn view(&self) -> Seq<char> {
        self.artifact_url@
    }
}

/// A download whose body is being read. Its model is what the sink holds.
pub struct Transfer {
    bytes_written: u64,
    sink: Ghost<Seq<u8>>,
}

impl View for Transfer {
    type V = Seq<u8>;

    closed spec fn view(&self) -> Seq<u8> {
        self.sink@
    }
}

/// What the caller does next with the sink.
pub enum TransferStep {
    /// Append `bytes` to the sink, read on, and hand what comes to `transfer`.
    Write { transfer: Transfer, bytes: Vec<u8> },
    /// Stop: flush and close the sink on success, release it on failure.
    Done(DownloadResult),
}

/// Mathematical model of a [`TransferStep`]: for `Write`, the sink after the
/// bytes are appended.
pub ghost enum TransferStepView {
    Write { sink: Seq<u8>, bytes: Seq<u8> },
    Done(DownloadOutcome),
}

impl View for TransferStep {
    type V = TransferStepView;

    open spec fn view(&self) -> TransferStepView {
        match self {
            TransferStep::Write { transfer, bytes } => TransferStepView::Write {
                sink: transfer@,
                bytes: bytes@,
            },
            TransferStep::Done(result) => TransferStepView::Done(result@),
        }
    }
}

/// The decision on the response: a body is read only after a success status,
/// and then into an empty sink.
pub open spec fn begin_transfer(event: ResponseEvent) -> Result<Seq<u8>, DownloadError> {
    match event {
        ResponseEvent::TransportFailure => Err(DownloadError::TransportError),
        ResponseEvent::Status(status) => if is_success(status) {
            Ok(Seq::empty())
        } else {
            Err(DownloadError::BadStatus(status))
        },
    }
}

/// The decision on one stream event: a chunk is appended whole and as it is,
/// the end of the stream ends the download with the count of what the sink
/// holds, and a failure ends it as interrupted.
pub open spec fn transfer_step(sink: Seq<u8>, event: StreamEventView) -> TransferStepView {
    match event {
        StreamEventView::Chunk(bytes) => TransferStepView::Write { sink: sink + bytes, bytes },
        StreamEventView::End => TransferStepView::Done(DownloadOutcome::Success(sink.len())),
        StreamEventView::Failure => TransferStepView::Done(
            DownloadOutcome::Failure(DownloadError::StreamInterrupted),
        ),
    }
}

/// The model of a transfer that may not have begun.
pub open spec fn begun_view(begun: Result<Transfer, DownloadError>) -> Result<
    Seq<u8>,
    DownloadError,
> {
    match begun {
        Ok(transfer) => Ok(transfer@),
        Err(e) => Err(e),
    }
}

impl Downloader {
    /// A download of the artifact at the given location; `None` for an empty one.
    pub fn new(artifact_url: String) -> (downloader: Option<Downloader>)
        ensures
            downloader.is_some() == (artifact_url@.len() > 0),
            downloader matches Some(d) ==> d@ == artifact_url@,
    {
        if artifact_url.as_str().is_empty() {
            None
        } else {
            Some(Downloader { artifact_url })
        }
    }

    /// The location to fetch.
    pub fn artifact_url(&self) -> (url: &str)
        ensures
            url@ == self@,
    {
        self.artifact_url.as_str()
    }

    /// Decides what follows the request: the transfer of the body, or the end.
    pub fn begin(self, event: ResponseEvent) -> (begun: Result<Transfer, DownloadError>)
        ensures
            begun_view(begun) == begin_transfer(event),
    {
        match event {
            ResponseEvent::TransportFailure => Err(DownloadError::TransportError),
            ResponseEvent::Status(status) => {
                if status_is_success(status) {
                    Ok(Transfer { bytes_written: 0, sink: Ghost(Seq::empty()) })
                } else {
                    Err(DownloadError::BadStatus(status))
                }
            },
        }
    }
}

impl Transfer {
    #[verifier::type_invariant]
    spec fn counted(self) -> bool {
        self.bytes_written == self.sink@.len()
    }

    /// The event leaves the byte count within `u64`.
    pub open spec fn has_room(&self, event: StreamEventView) -> bool {
        event matches StreamEventView::Chunk(bytes) ==> self@.len() + bytes.len() <= u64::MAX
    }

    /// The number of bytes handed to the sink so far.
    pub fn bytes_written(&self) -> (n: u64)
        ensures
            n == self@.len(),
    {
        proof {
            use_type_invariant(self);
        }
        self.bytes_written
    }

    /// Whether the event leaves the byte count within `u64`.
    pub fn accepts(&self, event: &StreamEvent) -> (ok: bool)
        ensures
            ok == self.has_room(event@),
    {
        proof {
            use_type_invariant(self);
        }
        match event {
            StreamEvent::Chunk(bytes) => bytes.len() as u64 <= u64::MAX - self.bytes_written,
            _ => true,
        }
    }

    /// Decides what follows one stream event.
    pub fn step(self, event: StreamEvent) -> (step: TransferStep)
        requires
            self.has_room(event@),
        ensures
            step@ == transfer_step(self@, event@),
    {
        proof {
            use_type_invariant(&self);
        }
        match event {
            StreamEvent::Chunk(bytes) => {
                let transfer = Transfer {
                    bytes_written: self.bytes_written + bytes.len() as u64,
                    sink: Ghost(self.sink@ + bytes@),
                };
                TransferStep::Write { transfer, bytes }
            },
            StreamEvent::End => TransferStep::Done(DownloadResult::Success(self.bytes_written)),
            StreamEvent::Failure => TransferStep::Done(
                DownloadResult::Failure(DownloadError::StreamInterrupted),
            ),
        }
    }
}

/// A download as far as its events go.
pub ghost struct DownloadRun {
    /// What the sink holds.
    pub sink: Seq<u8>,
    /// How the download ended; `None` while the body is still being read.
    pub outcome: Option<DownloadOutcome>,
}

/// The transfer of a body into a sink that holds `sink`, over the stream
/// events in order. Events after the one that ends the download are not read.
pub open spec fn transfer_run(sink: Seq<u8>, stream: Seq<StreamEventView>) -> DownloadRun
    decreases stream.len(),
{
    if stream.len() == 0 {
        DownloadRun { sink, outcome: None }
    } else {
        match transfer_step(sink, stream[0]) {
            TransferStepView::Write { sink: grown, .. } => transfer_run(grown, stream.drop_first()),
            TransferStepView::Done(outcome) => DownloadRun { sink, outcome: Some(outcome) },
        }
    }
}

/// A whole download: the decision on the response, then the transfer.
pub open spec fn download_run(response: ResponseEvent, stream: Seq<StreamEventView>) -> DownloadRun {
    match begin_transfer(response) {
        Ok(sink) => transfer_run(sink, stream),
        Err(e) => DownloadRun { sink: Seq::empty(), outcome: Some(DownloadOutcome::Failure(e)) },
    }
}

/// The models of recorded stream events.
pub open spec fn stream_view(stream: Seq<StreamEvent>) -> Seq<StreamEventView> {
    stream.map_values(|e: StreamEvent| e@)
}

/// The model of the end of a download that may still be open.
pub open spec fn ended_view(ended: Option<DownloadResult>) -> Option<DownloadOutcome> {
    match ended {
        Some(result) => Some(result@),
        None => None,
    }
}

/// What the sink holds is never taken back or changed: however the transfer
/// goes on, the sink begins with what it held.
pub proof fn sink_only_grows(sink: Seq<u8>, stream: Seq<StreamEventView>)
    ensures
        sink.is_prefix_of(transfer_run(sink, stream).sink),
    decreases stream.len(),
{
    if stream.len() > 0 {
        if let TransferStepView::Write { sink: grown, .. } = transfer_step(sink, stream[0]) {
            sink_only_grows(grown, stream.drop_first());
            let end = transfer_run(grown, stream.drop_first()).sink;
            assert(sink =~= grown.subrange(0, sink.len() as int));
            assert(sink =~= end.subrange(0, sink.len() as int));
        }
    }
}

impl Downloader {
    /// Runs the download over recorded events in place of a live response,
    /// appending to a sink in memory: `response` answers the request, and
    /// `stream` is what reading the body leads to. Nothing is read after the
    /// event that ends the download. The byte count must fit in `u64`.
    #[verifier::loop_isolation(false)]
    pub fn replay(self, response: ResponseEvent, stream: Vec<StreamEvent>, sink: &mut Vec<u8>) -> (ended:
        Option<DownloadResult>)
        requires
            download_run(response, stream_view(stream@)).sink.len() <= u64::MAX,
        ensures
            final(sink)@ == old(sink)@ + download_run(response, stream_view(stream@)).sink,
            ended_view(ended) == download_run(response, stream_view(stream@)).outcome,
    {
        let ghost whole = download_run(response, stream_view(stream@));
        let ghost held = sink@;
        let mut transfer = match self.begin(response) {
            Ok(transfer) => transfer,
            Err(e) => {
                assert(held + whole.sink =~= held);
                return Some(DownloadResult::Failure(e));
            },
        };
        assert(held + transfer@ =~= held);
        let mut stream = stream;
        loop
            invariant
                transfer_run(transfer@, stream_view(stream@)) == whole,
                sink@ == held + transfer@,
                whole.sink.len() <= u64::MAX,
            decreases stream.len(),
        {
            if stream.len() == 0 {
                return None;
            }
            let ghost before = stream_view(stream@);
            let event = stream.remove(0);
            proof {
                assert(before[0] == event@);
                assert(stream_view(stream@) =~= before.drop_first());
                if let TransferStepView::Write { sink: grown, .. } = transfer_step(
                    transfer@,
                    event@,
                ) {
                    sink_only_grows(grown, before.drop_first());
                }
            }
            match transfer.step(event) {
                TransferStep::Write { transfer: next, bytes } => {
                    let mut bytes = bytes;
                    sink.append(&mut bytes);
                    transfer = next;
                    assert(sink@ =~= held + transfer@);
                },
                TransferStep::Done(result) => {
                    return Some(result);
                },
            }
        }
    }
}

/// The stream events of chunks that arrive one after the other.
pub open spec fn chunk_events(chunks: Seq<Seq<u8>>) -> Seq<StreamEventView> {
    chunks.map_values(|bytes: Seq<u8>| StreamEventView::Chunk(bytes))
}

/// Chunks are appended in the order of their arrival: after them the transfer
/// goes on from a sink that holds what it held, then the chunks end to end.
proof fn lemma_chunks_append(sink: Seq<u8>, chunks: Seq<Seq<u8>>, rest: Seq<StreamEventView>)
    ensures
        transfer_run(sink, chunk_events(chunks) + rest) == transfer_run(
            sink + chunks.flatten(),
            rest,
        ),
    decreases chunks.len(),
{
    let stream = chunk_events(chunks) + rest;
    if chunks.len() == 0 {
        assert(stream =~= rest);
        assert(sink + chunks.flatten() =~= sink);
    } else {
        let later = chunks.drop_first();
        assert(stream[0] == StreamEventView::Chunk(chunks[0]));
        assert(stream.drop_first() =~= chunk_events(later) + rest);
        lemma_chunks_append(sink + chunks[0], later, rest);
        assert((sink + chunks[0]) + later.flatten() =~= sink + chunks.flatten());
    }
}

/// A body that arrives in chunks and then ends is in the sink byte for byte:
/// the chunks end to end in the order of their arrival, nothing else, and the
/// download succeeds with the count of those bytes.
pub proof fn chunks_reach_sink_in_order(status: u16, chunks: Seq<Seq<u8>>)
    requires
        is_success(status),
    ensures
        ({
            let stream = chunk_events(chunks).push(StreamEventView::End);
            let run = download_run(ResponseEvent::Status(status), stream);
            &&& run.sink == chunks.flatten()
            &&& run.outcome == Some(DownloadOutcome::Success(chunks.flatten().len()))
        }),
{
    let rest = seq![StreamEventView::End];
    assert(chunk_events(chunks).push(StreamEventView::End) =~= chunk_events(chunks) + rest);
    lemma_chunks_append(Seq::empty(), chunks, rest);
    assert(Seq::<u8>::empty() + chunks.flatten() =~= chunks.flatten());
}

/// A response outside the success class ends the download with `BadStatus`
/// and an empty sink, whatever the body would have held.
pub proof fn bad_status_writes_nothing(status: u16, stream: Seq<StreamEventView>)
    requires
        !is_success(status),
    ensures
        ({
            let run = download_run(ResponseEvent::Status(status), stream);
            &&& run.sink == Seq::<u8>::empty()
            &&& run.outcome == Some(
                DownloadOutcome::Failure(DownloadError::BadStatus(status)),
            )
        }),
{
}

/// A read failure after some chunks ends the download with
/// `StreamInterrupted`; the sink holds exactly the chunks that arrived before
/// it, and nothing of what would have followed.
pub proof fn interruption_keeps_what_arrived(
    status: u16,
    chunks: Seq<Seq<u8>>,
    later: Seq<StreamEventView>,
)
    requires
        is_success(status),
    ensures
        ({
            let stream = chunk_events(chunks).push(StreamEventView::Failure) + later;
            let run = download_run(ResponseEvent::Status(status), stream);
            &&& run.sink == chunks.flatten()
            &&& run.outcome == Some(
                DownloadOutcome::Failure(DownloadError::StreamInterrupted),
            )
        }),
{
    let rest = seq![StreamEventView::Failure] + later;
    assert(chunk_events(chunks).push(StreamEventView::Failure) + later =~= chunk_events(chunks)
        + rest);
    lemma_chunks_append(Seq::empty(), chunks, rest);
    assert(Seq::<u8>::empty() + chunks.flatten() =~= chunks.flatten());
}

} // verus!
