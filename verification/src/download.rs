//! The streamer of a download.
//!
//! A download is one request for the whole object. The body arrives as a
//! run of pieces of whatever size the transport gives; each piece is
//! written to the file as it arrives, and its length is added to a running
//! count. The streamer decides and counts; the caller asks, reads and
//! writes.

use crate::error::TransferError;
use crate::error::TransferErrorView;
use crate::params::S3Params;
use crate::params::S3ParamsView;
use vstd::prelude::*;

verus! {

/// Where a download stands.
#[derive(Debug, Clone, Copy, PartialEq, Eq, Structural)]
pub enum DownloadPhase {
    /// The file to write to has been asked for.
    Preparing,
    /// The object has been asked for.
    Requesting,
    /// The body is arriving.
    Streaming,
    /// The body has ended and all of it is written.
    Completed,
    /// The download has failed.
    Aborted,
}

/// What the caller reports to the streamer.
#[derive(Debug, Clone, PartialEq, Eq)]
pub enum DownloadEvent {
    /// The file to write to has been created.
    FileCreated,
    /// The file to write to could not be created.
    FileRefused { cause: String },
    /// The backend answered the request; the body can be read.
    ResponseOpened,
    /// The request failed.
    RequestRefused { cause: String },
    /// A piece of `len` bytes has arrived and has been written to the file.
    ChunkWritten { len: u64 },
    /// A piece has arrived and could not be written to the file.
    WriteFailed { cause: String },
    /// The body broke off.
    StreamFailed { cause: String },
    /// The body has ended.
    StreamEnded,
}

/// Mathematical value of a `DownloadEvent`.
pub enum DownloadEventView {
    FileCreated,
    FileRefused { cause: Seq<char> },
    ResponseOpened,
    RequestRefused { cause: Seq<char> },
    ChunkWritten { len: nat },
    WriteFailed { cause: Seq<char> },
    StreamFailed { cause: Seq<char> },
    StreamEnded,
}

impl View for DownloadEvent {
    type V = DownloadEventView;

    open spec fn view(&self) -> DownloadEventView {
        match *self {
            DownloadEvent::FileCreated => DownloadEventView::FileCreated,
            DownloadEvent::FileRefused { cause } => DownloadEventView::FileRefused {
                cause: cause@,
            },
            DownloadEvent::ResponseOpened => DownloadEventView::ResponseOpened,
            DownloadEvent::RequestRefused { cause } => DownloadEventView::RequestRefused {
                cause: cause@,
            },
            DownloadEvent::ChunkWritten { len } => DownloadEventView::ChunkWritten {
                len: len as nat,
            },
            DownloadEvent::WriteFailed { cause } => DownloadEventView::WriteFailed {
                cause: cause@,
            },
            DownloadEvent::StreamFailed { cause } => DownloadEventView::StreamFailed {
                cause: cause@,
            },
            DownloadEvent::StreamEnded => DownloadEventView::StreamEnded,
        }
    }
}

/// What the streamer asks the caller to do.
#[derive(Debug, PartialEq, Eq)]
pub enum DownloadAction {
    /// Create the file to write to, empty.
    CreateFile { path: String },
    /// Ask for the whole object, in one request.
    GetObject { bucket: String, key: String },
    /// Read the next piece of the body and write it to the file at once.
    ReadNext,
    /// The download has ended: with the number of bytes written, or with
    /// the error that stopped it.
    Finish { outcome: Result<u64, TransferError> },
    /// The event does not belong to the phase the download is in; nothing
    /// has changed.
    Ignore,
}

/// Mathematical value of a `DownloadAction`.
pub enum DownloadActionView {
    CreateFile { path: Seq<char> },
    GetObject { bucket: Seq<char>, key: Seq<char> },
    ReadNext,
    Finish { outcome: Result<nat, TransferErrorView> },
    Ignore,
}

impl View for DownloadAction {
    type V = DownloadActionView;

    open spec fn view(&self) -> DownloadActionView {
        match *self {
            DownloadAction::CreateFile { path } => DownloadActionView::CreateFile { path: path@ },
            DownloadAction::GetObject { bucket, key } => DownloadActionView::GetObject {
                bucket: bucket@,
                key: key@,
            },
            DownloadAction::ReadNext => DownloadActionView::ReadNext,
            DownloadAction::Finish { outcome } => DownloadActionView::Finish {
                outcome: match outcome {
                    Ok(bytes) => Ok(bytes as nat),
                    Err(error) => Err(error@),
                },
            },
            DownloadAction::Ignore => DownloadActionView::Ignore,
        }
    }
}

/// Mathematical value of a `DownloadStreamer`.
pub struct StreamerState {
    pub phase: DownloadPhase,
    pub bucket: Seq<char>,
    pub key: Seq<char>,
    /// Bytes written to the file so far.
    pub byte_count: nat,
}

/// The state in which a download starts.
pub open spec fn initial_stream(params: S3ParamsView) -> StreamerState {
    StreamerState {
        phase: DownloadPhase::Preparing,
        bucket: params.bucket,
        key: params.object,
        byte_count: 0,
    }
}

/// The end of a download that failed.
pub open spec fn stream_aborted(state: StreamerState, error: TransferErrorView) -> (
    StreamerState,
    DownloadActionView,
) {
    (
        StreamerState { phase: DownloadPhase::Aborted, ..state },
        DownloadActionView::Finish { outcome: Err(error) },
    )
}

/// The transition of a download: the state after an event, and what the
/// caller is asked to do. Every piece written adds its length to the count;
/// the end of the body reports the count. An event that does not belong to
/// the phase changes nothing.
pub open spec fn download_step(state: StreamerState, event: DownloadEventView) -> (
    StreamerState,
    DownloadActionView,
) {
    match state.phase {
        DownloadPhase::Preparing => match event {
            DownloadEventView::FileCreated => (
                StreamerState { phase: DownloadPhase::Requesting, ..state },
                DownloadActionView::GetObject { bucket: state.bucket, key: state.key },
            ),
            DownloadEventView::FileRefused { cause } => stream_aborted(
                state,
                TransferErrorView::LocalIo { cause },
            ),
            _ => (state, DownloadActionView::Ignore),
        },
        DownloadPhase::Requesting => match event {
            DownloadEventView::ResponseOpened => (
                StreamerState { phase: DownloadPhase::Streaming, ..state },
                DownloadActionView::ReadNext,
            ),
            DownloadEventView::RequestRefused { cause } => stream_aborted(
                state,
                TransferErrorView::Download { cause },
            ),
            _ => (state, DownloadActionView::Ignore),
        },
        DownloadPhase::Streaming => match event {
            DownloadEventView::ChunkWritten { len } => (
                StreamerState { byte_count: state.byte_count + len, ..state },
                DownloadActionView::ReadNext,
            ),
            DownloadEventView::WriteFailed { cause } => stream_aborted(
                state,
                TransferErrorView::LocalIo { cause },
            ),
            DownloadEventView::StreamFailed { cause } => stream_aborted(
                state,
                TransferErrorView::Download { cause },
            ),
            DownloadEventView::StreamEnded => (
                StreamerState { phase: DownloadPhase::Completed, ..state },
                DownloadActionView::Finish { outcome: Ok(state.byte_count) },
            ),
            _ => (state, DownloadActionView::Ignore),
        },
        DownloadPhase::Completed => (state, DownloadActionView::Ignore),
        DownloadPhase::Aborted => (state, DownloadActionView::Ignore),
    }
}

/// The state after a run of pieces has been written, one after the other.
pub open spec fn after_chunks(state: StreamerState, lens: Seq<nat>) -> StreamerState
    decreases lens.len(),
{
    if lens.len() == 0 {
        state
    } else {
        download_step(
            after_chunks(state, lens.drop_last()),
            DownloadEventView::ChunkWritten { len: lens.last() },
        ).0
    }
}

/// The bytes that a run of pieces holds.
pub open spec fn sum_of(lens: Seq<nat>) -> nat
    decreases lens.len(),
{
    if lens.len() == 0 {
        0
    } else {
        sum_of(lens.drop_last()) + lens.last()
    }
}

/// A download counts every byte once: after any run of pieces the count has
/// grown by their lengths together, and the end of the body then reports
/// exactly that count.
pub proof fn lemma_download_counts_every_byte(state: StreamerState, lens: Seq<nat>)
    requires
        state.phase == DownloadPhase::Streaming,
    ensures
        after_chunks(state, lens) == (StreamerState {
            byte_count: state.byte_count + sum_of(lens),
            ..state
        }),
        download_step(after_chunks(state, lens), DownloadEventView::StreamEnded).1 == (
        DownloadActionView::Finish { outcome: Ok(state.byte_count + sum_of(lens)) }),
    decreases lens.len(),
{
    if lens.len() > 0 {
        lemma_download_counts_every_byte(state, lens.drop_last());
    }
}

/// Streamer of one download.
#[derive(Debug)]
pub struct DownloadStreamer {
    phase: DownloadPhase,
    bucket: String,
    key: String,
    byte_count: u64,
}

impl View for DownloadStreamer {
    type V = StreamerState;

    closed spec fn view(&self) -> StreamerState {
        StreamerState {
            phase: self.phase,
            bucket: self.bucket@,
            key: self.key@,
            byte_count: self.byte_count as nat,
        }
    }
}

impl DownloadStreamer {
    /// Starts a download of the object that the request names. The caller
    /// is asked to create the file that the request names.
    pub fn begin(params: &S3Params) -> (started: (DownloadStreamer, DownloadAction))
        ensures
            started.0@ == initial_stream(params@),
            started.1@ == (DownloadActionView::CreateFile { path: params@.file_path }),
    {
        (
            DownloadStreamer {
                phase: DownloadPhase::Preparing,
                bucket: params.bucket.clone(),
                key: params.object.clone(),
                byte_count: 0,
            },
            DownloadAction::CreateFile { path: params.file_path.clone() },
        )
    }

    /// The phase the download is in.
    pub fn phase(&self) -> (phase: DownloadPhase)
        ensures
            phase == self@.phase,
    {
        self.phase
    }

    /// Bytes written to the file so far.
    pub fn byte_count(&self) -> (count: u64)
        ensures
            count == self@.byte_count,
    {
        self.byte_count
    }

    /// Whether a piece of `len` bytes can still be counted: the count would
    /// not pass the largest `u64`.
    pub fn can_count(&self, len: u64) -> (fits: bool)
        ensures
            fits == (self@.byte_count + len <= u64::MAX),
    {
        len <= u64::MAX - self.byte_count
    }

    /// Takes one event and says what to do next, as `download_step` lays
    /// down. The count of bytes must stay a `u64`.
    pub fn step(self, event: DownloadEvent) -> (next: (DownloadStreamer, DownloadAction))
        requires
            event matches DownloadEvent::ChunkWritten { len } ==> self@.byte_count + len
                <= u64::MAX,
        ensures
            (next.0@, next.1@) == download_step(self@, event@),
    {
        match self.phase {
            DownloadPhase::Preparing => match event {
                DownloadEvent::FileCreated => {
                    let bucket = self.bucket.clone();
                    let key = self.key.clone();
                    (
                        DownloadStreamer { phase: DownloadPhase::Requesting, ..self },
                        DownloadAction::GetObject { bucket, key },
                    )
                },
                DownloadEvent::FileRefused { cause } => self.abort(
                    TransferError::LocalIo { cause },
                ),
                _ => (self, DownloadAction::Ignore),
            },
            DownloadPhase::Requesting => match event {
                DownloadEvent::ResponseOpened => (
                    DownloadStreamer { phase: DownloadPhase::Streaming, ..self },
                    DownloadAction::ReadNext,
                ),
                DownloadEvent::RequestRefused { cause } => self.abort(
                    TransferError::Download { cause },
                ),
                _ => (self, DownloadAction::Ignore),
            },
            DownloadPhase::Streaming => match event {
                DownloadEvent::ChunkWritten { len } => {
                    let byte_count = self.byte_count + len;
                    (DownloadStreamer { byte_count, ..self }, DownloadAction::ReadNext)
                },
                DownloadEvent::WriteFailed { cause } => self.abort(
                    TransferError::LocalIo { cause },
                ),
                DownloadEvent::StreamFailed { cause } => self.abort(
                    TransferError::Download { cause },
                ),
                DownloadEvent::StreamEnded => {
                    let byte_count = self.byte_count;
                    (
                        DownloadStreamer { phase: DownloadPhase::Completed, ..self },
                        DownloadAction::Finish { outcome: Ok(byte_count) },
                    )
                },
                _ => (self, DownloadAction::Ignore),
            },
            DownloadPhase::Completed => (self, DownloadAction::Ignore),
            DownloadPhase::Aborted => (self, DownloadAction::Ignore),
        }
    }

    /// Ends the download with `error`.
    fn abort(self, error: TransferError) -> (next: (DownloadStreamer, DownloadAction))
        ensures
            (next.0@, next.1@) == stream_aborted(self@, error@),
    {
        (
            DownloadStreamer { phase: DownloadPhase::Aborted, ..self },
            DownloadAction::Finish { outcome: Err(error) },
        )
    }
}

} // verus!
