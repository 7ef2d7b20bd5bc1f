//! A single-file download, read as a stream of chunks.
//!
//! [`XetReader`] decides what a poll of the stream does. Its surroundings
//! perform what it asks for, spawning the download task and polling it and its
//! channel, and hand the answers back.

use std::sync::Arc;

use bytes::Bytes;
use vstd::prelude::*;
use vstd::string::*;

use crate::backend::Backend;
use crate::error::{DataHashHexParseError, DataProcessingError};
use crate::file_info::XetFileInfo;
use crate::file_range::FileRange;

verus! {

/// The answer to a poll: the value, or that there is none yet.
#[derive(Debug, PartialEq, Eq)]
pub enum Polled<T> {
    Ready(T),
    Pending,
}

/// How a download task ended: the number of bytes written, or why it failed.
pub type TaskResult = Result<u64, DataProcessingError>;

/// An item of the stream of chunks.
pub type StreamItem = Result<Bytes, DataProcessingError>;

/// Where a download stands.
pub enum ReaderState<B: Backend> {
    /// The download has not started yet; it starts on the first poll.
    Init { config: Arc<B::Config> },
    /// The download task was asked for and is about to be spawned.
    Starting,
    /// The download task was spawned; `handle` is held until the task has
    /// reported its result.
    Streaming { rx: B::Receiver, handle: Option<B::DownloadTask> },
    /// The stream has ended.
    Completed,
}

/// Where a download stands, without what it holds there.
#[derive(Debug, Clone, Copy, PartialEq, Eq, Structural)]
pub enum ReaderPhase {
    Init,
    Starting,
    Streaming,
    Completed,
}

/// What happened: the stream was polled, or what the reader asked for last was done.
#[derive(Debug, PartialEq, Eq)]
pub enum ReaderEvent {
    /// The stream is polled for its next item.
    Poll,
    /// The download task was polled, as [`ReaderAction::PollTask`] asked.
    TaskPolled(Polled<TaskResult>),
    /// The channel was polled, as [`ReaderAction::PollChannel`] asked.
    ChannelPolled(Polled<Option<Bytes>>),
    /// The download task was polled, as [`ReaderAction::RecheckTask`] asked.
    TaskRechecked(Polled<TaskResult>),
}

/// What is to be done next.
#[derive(Debug, PartialEq, Eq)]
pub enum ReaderAction {
    /// Start the download, with [`XetReader::start`] and
    /// [`XetReader::streaming`], and poll again.
    Start,
    /// Poll the download task.
    PollTask,
    /// Poll the channel for the next chunk.
    PollChannel,
    /// Poll the download task once more: its channel is closed.
    RecheckTask,
    /// Answer the poll of the stream.
    Return(Polled<Option<StreamItem>>),
}

/// Everything that a download task is given.
pub struct DownloadRequest<B: Backend> {
    pub config: Arc<B::Config>,
    /// How many chunks the channel buffers.
    pub buffer_size: usize,
    pub merkle_hash: B::MerkleHash,
    pub file_hash: String,
    pub file_range: Option<FileRange>,
    pub progress_updater: Option<B::ProgressUpdater>,
}

/// Goes on with a download task, given the result of building its downloader:
/// returns the downloader and the request that it is to download. Where there
/// is no downloader, nothing is downloaded. The result of the task is then
/// [`download_ended`].
pub fn downloader_opened<B: Backend, D>(
    downloader: Result<D, DataProcessingError>,
    request: DownloadRequest<B>,
) -> (next: Result<(D, DownloadRequest<B>), DataProcessingError>)
    ensures
        match downloader {
            Ok(downloader) => next == Ok::<_, DataProcessingError>((downloader, request)),
            Err(error) => next == Err::<(D, DownloadRequest<B>), _>(error),
        },
{
    match downloader {
        Ok(downloader) => Ok((downloader, request)),
        Err(error) => Err(error),
    }
}

/// How a download task ends: with the result of its download, or with why it
/// has no downloader.
pub open spec fn task_result(download: Result<TaskResult, DataProcessingError>) -> TaskResult {
    match download {
        Ok(result) => result,
        Err(error) => Err(error),
    }
}

/// The result of a download task, given the result of its download, or why it
/// has no downloader.
pub fn download_ended(download: Result<TaskResult, DataProcessingError>) -> (result: TaskResult)
    ensures
        result == task_result(download),
{
    match download {
        Ok(result) => result,
        Err(error) => Err(error),
    }
}

/// A single-file download reader.
///
/// The download is lazy: it starts on the first poll, or when
/// [`start`](XetReader::start) is called.
pub struct XetReader<B: Backend> {
    buffer_size: usize,
    merkle_hash: B::MerkleHash,
    file_hash: String,
    file_range: Option<FileRange>,
    progress_updater: Option<B::ProgressUpdater>,
    state: ReaderState<B>,
}

/// The contents of an [`XetReader`].
#[verifier::ext_equal]
pub struct ReaderView<B: Backend> {
    pub buffer_size: usize,
    pub merkle_hash: B::MerkleHash,
    pub file_hash: Seq<char>,
    pub file_range: Option<FileRange>,
    pub progress_updater: Option<B::ProgressUpdater>,
    pub state: ReaderState<B>,
}

impl<B: Backend> View for XetReader<B> {
    type V = ReaderView<B>;

    closed spec fn view(&self) -> ReaderView<B> {
        ReaderView {
            buffer_size: self.buffer_size,
            merkle_hash: self.merkle_hash,
            file_hash: self.file_hash@,
            file_range: self.file_range,
            progress_updater: self.progress_updater,
            state: self.state,
        }
    }
}

impl<B: Backend> ReaderState<B> {
    /// Whether a task handle is held, so that the task may be polled.
    pub open spec fn holds_task(self) -> bool {
        self matches ReaderState::Streaming { handle, .. } && handle is Some
    }

    /// Whether the event can happen in this state.
    pub open spec fn expects(self, event: ReaderEvent) -> bool {
        match event {
            ReaderEvent::Poll => self !is Starting,
            ReaderEvent::TaskPolled(_) => self.holds_task(),
            ReaderEvent::ChannelPolled(_) => self is Streaming,
            ReaderEvent::TaskRechecked(_) => self.holds_task(),
        }
    }

    /// The state without its task handle.
    pub open spec fn without_task(self) -> Self {
        match self {
            ReaderState::Streaming { rx, .. } => ReaderState::Streaming { rx, handle: None },
            _ => self,
        }
    }

    /// What a reader in this state does on an event: its next state and what
    /// it asks for.
    pub open spec fn step(self, event: ReaderEvent) -> (Self, ReaderAction) {
        match event {
            ReaderEvent::Poll => match self {
                ReaderState::Init { .. } => (self, ReaderAction::Start),
                ReaderState::Starting => (self, ReaderAction::Return(Polled::Pending)),
                ReaderState::Streaming { .. } => if self.holds_task() {
                    (self, ReaderAction::PollTask)
                } else {
                    (self, ReaderAction::PollChannel)
                },
                ReaderState::Completed => (self, ReaderAction::Return(Polled::Ready(None))),
            },
            // The task comes first, so that its error is seen early.
            ReaderEvent::TaskPolled(answer) => match answer {
                Polled::Ready(Ok(_)) => (self.without_task(), ReaderAction::PollChannel),
                Polled::Ready(Err(error)) => (
                    ReaderState::Completed,
                    ReaderAction::Return(Polled::Ready(Some(Err(error)))),
                ),
                Polled::Pending => (self, ReaderAction::PollChannel),
            },
            ReaderEvent::ChannelPolled(answer) => match answer {
                Polled::Ready(Some(chunk)) => (
                    self,
                    ReaderAction::Return(Polled::Ready(Some(Ok(chunk)))),
                ),
                Polled::Ready(None) => if self.holds_task() {
                    (self, ReaderAction::RecheckTask)
                } else {
                    (ReaderState::Completed, ReaderAction::Return(Polled::Ready(None)))
                },
                Polled::Pending => (self, ReaderAction::Return(Polled::Pending)),
            },
            ReaderEvent::TaskRechecked(answer) => match answer {
                Polled::Ready(Ok(_)) => (
                    ReaderState::Completed,
                    ReaderAction::Return(Polled::Ready(None)),
                ),
                Polled::Ready(Err(error)) => (
                    ReaderState::Completed,
                    ReaderAction::Return(Polled::Ready(Some(Err(error)))),
                ),
                Polled::Pending => (self, ReaderAction::Return(Polled::Pending)),
            },
        }
    }
}

impl<B: Backend> XetReader<B> {
    /// Creates a reader that will download a single file.
    ///
    /// `merkle_hash` is the result of parsing the hash of `file_info`; where
    /// that failed, no reader is made.
    pub fn new(
        config: Arc<B::Config>,
        file_info: XetFileInfo,
        merkle_hash: Result<B::MerkleHash, DataHashHexParseError>,
        file_range: Option<FileRange>,
        progress_updater: Option<B::ProgressUpdater>,
        stream_buffer_size: usize,
    ) -> (reader: Result<Self, DataProcessingError>)
        ensures
            match merkle_hash {
                Ok(merkle_hash) => reader matches Ok(reader) && reader@ == (ReaderView::<B> {
                    buffer_size: stream_buffer_size,
                    merkle_hash,
                    file_hash: file_info@.hash,
                    file_range,
                    progress_updater,
                    state: ReaderState::Init { config },
                }),
                Err(error) => reader matches Err(failure) && failure
                    == DataProcessingError::HashStringParsingFailure(error),
            },
    {
        let merkle_hash = match merkle_hash {
            Ok(merkle_hash) => merkle_hash,
            Err(error) => {
                return Err(DataProcessingError::HashStringParsingFailure(error));
            },
        };
        Ok(
            XetReader {
                buffer_size: stream_buffer_size,
                merkle_hash,
                file_hash: file_info.hash().to_owned(),
                file_range,
                progress_updater,
                state: ReaderState::Init { config },
            },
        )
    }

    /// Starts the download, unless it was started before.
    ///
    /// The request is for the download task, which goes through
    /// [`downloader_opened`] and [`download_ended`]; once it is spawned,
    /// [`streaming`](XetReader::streaming) takes its handle, before the stream
    /// is polled. On a started or completed reader this does nothing.
    pub fn start(&mut self) -> (request: Option<DownloadRequest<B>>)
        ensures
            match old(self)@.state {
                ReaderState::Init { config } => {
                    &&& request matches Some(request)
                    &&& request.config == config
                    &&& request.buffer_size == old(self)@.buffer_size
                    &&& request.merkle_hash == old(self)@.merkle_hash
                    &&& request.file_hash@ == old(self)@.file_hash
                    &&& request.file_range == old(self)@.file_range
                    &&& request.progress_updater == old(self)@.progress_updater
                    &&& final(self)@ == (ReaderView::<B> {
                        progress_updater: None,
                        state: ReaderState::Starting,
                        ..old(self)@
                    })
                },
                _ => request is None && final(self)@ == old(self)@,
            },
    {
        let config = match &self.state {
            ReaderState::Init { config } => config.clone(),
            _ => {
                return None;
            },
        };
        self.state = ReaderState::Starting;
        Some(
            DownloadRequest {
                config,
                buffer_size: self.buffer_size,
                merkle_hash: self.merkle_hash,
                file_hash: self.file_hash.clone(),
                file_range: self.file_range,
                progress_updater: self.progress_updater.take(),
            },
        )
    }

    /// Takes over the channel and the handle of the download task that
    /// [`start`](XetReader::start) asked for.
    pub fn streaming(&mut self, rx: B::Receiver, handle: B::DownloadTask)
        requires
            old(self)@.state is Starting,
        ensures
            final(self)@ == (ReaderView::<B> {
                state: ReaderState::Streaming { rx, handle: Some(handle) },
                ..old(self)@
            }),
    {
        self.state = ReaderState::Streaming { rx, handle: Some(handle) };
    }

    /// Decides the next step of polling the stream.
    pub fn poll_next(&mut self, event: ReaderEvent) -> (action: ReaderAction)
        requires
            old(self)@.state.expects(event),
        ensures
            (final(self)@.state, action) == old(self)@.state.step(event),
            final(self)@ == (ReaderView::<B> { state: final(self)@.state, ..old(self)@ }),
    {
        match event {
            ReaderEvent::Poll => match &self.state {
                ReaderState::Init { .. } => ReaderAction::Start,
                ReaderState::Starting => ReaderAction::Return(Polled::Pending),
                ReaderState::Streaming { handle, .. } => if handle.is_some() {
                    ReaderAction::PollTask
                } else {
                    ReaderAction::PollChannel
                },
                ReaderState::Completed => ReaderAction::Return(Polled::Ready(None)),
            },
            ReaderEvent::TaskPolled(answer) => match answer {
                Polled::Ready(Ok(_)) => {
                    if let ReaderState::Streaming { handle, .. } = &mut self.state {
                        *handle = None;
                    }
                    ReaderAction::PollChannel
                },
                Polled::Ready(Err(error)) => {
                    self.state = ReaderState::Completed;
                    ReaderAction::Return(Polled::Ready(Some(Err(error))))
                },
                Polled::Pending => ReaderAction::PollChannel,
            },
            ReaderEvent::ChannelPolled(answer) => match answer {
                Polled::Ready(Some(chunk)) => ReaderAction::Return(Polled::Ready(Some(Ok(chunk)))),
                Polled::Ready(None) => {
                    if let ReaderState::Streaming { handle: Some(_), .. } = &self.state {
                        return ReaderAction::RecheckTask;
                    }
                    self.state = ReaderState::Completed;
                    ReaderAction::Return(Polled::Ready(None))
                },
                Polled::Pending => ReaderAction::Return(Polled::Pending),
            },
            ReaderEvent::TaskRechecked(answer) => match answer {
                Polled::Ready(result) => {
                    self.state = ReaderState::Completed;
                    match result {
                        Ok(_) => ReaderAction::Return(Polled::Ready(None)),
                        Err(error) => ReaderAction::Return(Polled::Ready(Some(Err(error)))),
                    }
                },
                Polled::Pending => ReaderAction::Return(Polled::Pending),
            },
        }
    }

    /// The channel to poll, while the download is streaming.
    pub fn receiver_mut(&mut self) -> (rx: Option<&mut B::Receiver>)
        ensures
            match old(self)@.state {
                ReaderState::Streaming { rx: held, handle } => {
                    &&& rx matches Some(rx)
                    &&& *rx == held
                    &&& final(self)@ == (ReaderView::<B> {
                        state: ReaderState::Streaming { rx: *final(rx), handle },
                        ..old(self)@
                    })
                },
                _ => rx is None && final(self)@ == old(self)@,
            },
    {
        match &mut self.state {
            ReaderState::Streaming { rx, .. } => Some(rx),
            _ => None,
        }
    }

    /// The task handle to poll, while one is held.
    pub fn task_mut(&mut self) -> (task: Option<&mut B::DownloadTask>)
        ensures
            match old(self)@.state {
                ReaderState::Streaming { rx, handle: Some(held) } => {
                    &&& task matches Some(task)
                    &&& *task == held
                    &&& final(self)@ == (ReaderView::<B> {
                        state: ReaderState::Streaming { rx, handle: Some(*final(task)) },
                        ..old(self)@
                    })
                },
                _ => task is None && final(self)@ == old(self)@,
            },
    {
        match &mut self.state {
            ReaderState::Streaming { handle: Some(task), .. } => Some(task),
            _ => None,
        }
    }

    /// Where the download stands.
    pub fn phase(&self) -> (phase: ReaderPhase)
        ensures
            phase == (match self@.state {
                ReaderState::Init { .. } => ReaderPhase::Init,
                ReaderState::Starting => ReaderPhase::Starting,
                ReaderState::Streaming { .. } => ReaderPhase::Streaming,
                ReaderState::Completed => ReaderPhase::Completed,
            }),
    {
        match &self.state {
            ReaderState::Init { .. } => ReaderPhase::Init,
            ReaderState::Starting => ReaderPhase::Starting,
            ReaderState::Streaming { .. } => ReaderPhase::Streaming,
            ReaderState::Completed => ReaderPhase::Completed,
        }
    }
}

} // verus!
