//! What the calls of clients, uploads and downloads give for each input, and
//! how one call goes on from another.

use std::sync::Arc;

use bytes::Bytes;
use vstd::prelude::*;

use crate::backend::Backend;
use crate::client::{ConnectionRequest, XetClient};
use crate::error::{DataHashHexParseError, DataProcessingError};
use crate::file_info::XetFileInfo;
use crate::file_range::FileRange;
use crate::reader::{
    download_ended, downloader_opened, DownloadRequest, Polled, ReaderAction, ReaderEvent,
    ReaderPhase, ReaderState, StreamItem, TaskResult, XetReader,
};
use crate::upload::{
    after_calls, after_writes, finalized, law_writes_reach_the_cleaner, session_opened,
    CleanRequest, UploadCall, UploadRequest, UploadView, WrittenChunk, XetWriter,
};

verus! {

/// A range is what it was made from.
pub proof fn law_range_keeps_its_bounds(start: u64, end: u64, range: FileRange)
    requires
        call_ensures(FileRange::new, (start, end), range),
    ensures
        range.start == start,
        range.end == end,
{
}

/// A connection goes to the given endpoint, and to the default one only where
/// none is given. Everything else is handed on as it is.
pub proof fn law_connection_goes_where_asked<B: Backend>(
    endpoint: Option<String>,
    default_endpoint: String,
    token_info: Option<(String, u64)>,
    token_refresher: Option<B::TokenRefresher>,
    user_agent: String,
    request: ConnectionRequest<B>,
)
    requires
        call_ensures(
            XetClient::<B>::connection,
            (endpoint, default_endpoint, token_info, token_refresher, user_agent),
            request,
        ),
    ensures
        endpoint matches Some(given) ==> request.endpoint == given,
        endpoint is None ==> request.endpoint == default_endpoint,
        request.token_info == token_info,
        request.token_refresher == token_refresher,
        request.user_agent == user_agent,
{
}

/// A client is made exactly when its configuration was built; otherwise the
/// failure to build it stays that failure.
pub proof fn law_client_needs_a_configuration<B: Backend>(
    config: Result<B::Config, DataProcessingError>,
    client: Result<XetClient<B>, DataProcessingError>,
)
    requires
        call_ensures(XetClient::<B>::new, (config,), client),
    ensures
        client is Ok <==> config is Ok,
        client matches Ok(client) ==> config == Ok::<_, DataProcessingError>(*client@),
        client matches Err(error) ==> config == Err::<B::Config, _>(error),
{
}

/// What is uploaded and what is downloaded through one client shares the
/// client's configuration. An upload is opened with exactly what was asked for.
pub proof fn law_upload_is_opened_as_asked<B: Backend>(
    config: B::Config,
    client: XetClient<B>,
    progress_updater: Option<B::ProgressUpdater>,
    name: Option<String>,
    size: u64,
    request: UploadRequest<B>,
)
    requires
        call_ensures(XetClient::<B>::new, (Ok(config),), Ok(client)),
        call_ensures(XetClient::<B>::write, (&client, progress_updater, name, size), request),
    ensures
        *request.config == config,
        request.config == client@,
        request.progress_updater == progress_updater,
        request.name == name,
        request.size == size,
{
}

/// A file whose hash can be read is downloaded as asked for: starting the
/// reader hands out the client's configuration, the hash and its parsed form,
/// the range, the updater and the size of the buffer. Starting again hands out
/// nothing and changes nothing. A hash that cannot be read makes no reader.
pub proof fn law_download_is_started_as_asked<B: Backend>(
    client: XetClient<B>,
    file_info: XetFileInfo,
    hash: &str,
    merkle_hash: Result<B::MerkleHash, DataHashHexParseError>,
    file_range: Option<FileRange>,
    progress_updater: Option<B::ProgressUpdater>,
    stream_buffer_size: usize,
    made: Result<XetReader<B>, DataProcessingError>,
    reader: &mut XetReader<B>,
    request: Option<DownloadRequest<B>>,
    rx: B::Receiver,
    handle: B::DownloadTask,
    spawned: &mut XetReader<B>,
    later: &mut XetReader<B>,
    again: Option<DownloadRequest<B>>,
)
    requires
        call_ensures(XetFileInfo::hash, (&file_info,), hash),
        call_ensures(
            XetClient::<B>::read,
            (&client, file_info, merkle_hash, file_range, progress_updater, stream_buffer_size),
            made,
        ),
        made matches Ok(new) ==> *reader == new,
        call_ensures(XetReader::<B>::start, (reader,), request),
        *final(reader) == *old(spawned),
        call_ensures(XetReader::<B>::streaming, (spawned, rx, handle), ()),
        *final(spawned) == *old(later),
        call_ensures(XetReader::<B>::start, (later,), again),
    ensures
        made is Ok <==> merkle_hash is Ok,
        made matches Err(error) ==> merkle_hash matches Err(failure) && error
            == DataProcessingError::HashStringParsingFailure(failure),
        made is Ok ==> {
            &&& request matches Some(request)
            &&& request.config == client@
            &&& request.buffer_size == stream_buffer_size
            &&& merkle_hash == Ok::<_, DataHashHexParseError>(request.merkle_hash)
            &&& request.file_hash@ == hash@
            &&& request.file_range == file_range
            &&& request.progress_updater == progress_updater
            &&& final(spawned)@.state == (ReaderState::<B>::Streaming { rx, handle: Some(handle) })
            &&& again is None
            &&& final(later)@ == old(later)@
        },
{
}

/// A reader stands where its state says.
pub proof fn law_phase_names_the_state<B: Backend>(reader: XetReader<B>, phase: ReaderPhase)
    requires
        call_ensures(XetReader::<B>::phase, (&reader,), phase),
    ensures
        phase is Init <==> reader@.state is Init,
        phase is Starting <==> reader@.state is Starting,
        phase is Streaming <==> reader@.state is Streaming,
        phase is Completed <==> reader@.state is Completed,
{
}

/// A reader takes whatever comes: it can be polled unless it is about to be
/// started, its download can be handed to it then, and while that is streaming
/// every answer of the channel can come, and every answer of the task until the
/// task has answered.
pub proof fn law_reader_takes_any_answer<B: Backend>(
    reader: &mut XetReader<B>,
    rx: B::Receiver,
    handle: B::DownloadTask,
    task: Polled<TaskResult>,
    channel: Polled<Option<Bytes>>,
)
    ensures
        old(reader)@.state !is Starting ==> call_requires(
            XetReader::<B>::poll_next,
            (reader, ReaderEvent::Poll),
        ),
        old(reader)@.state is Starting ==> call_requires(
            XetReader::<B>::streaming,
            (reader, rx, handle),
        ),
        old(reader)@.state is Streaming ==> call_requires(
            XetReader::<B>::poll_next,
            (reader, ReaderEvent::ChannelPolled(channel)),
        ),
        old(reader)@.state matches ReaderState::Streaming { handle: Some(_), .. } ==> {
            &&& call_requires(XetReader::<B>::poll_next, (reader, ReaderEvent::TaskPolled(task)))
            &&& call_requires(
                XetReader::<B>::poll_next,
                (reader, ReaderEvent::TaskRechecked(task)),
            )
        },
{
}

/// While a download is streaming, the channel to poll is the one that it was
/// given, and so is the task until it has answered; polling them changes
/// nothing else of the reader.
pub proof fn law_polls_its_own_download<B: Backend>(
    reader: &mut XetReader<B>,
    rx: Option<&mut B::Receiver>,
    other: &mut XetReader<B>,
    task: Option<&mut B::DownloadTask>,
)
    requires
        call_ensures(XetReader::<B>::receiver_mut, (reader,), rx),
        call_ensures(XetReader::<B>::task_mut, (other,), task),
    ensures
        rx is Some <==> old(reader)@.state is Streaming,
        rx matches Some(polled) ==> {
            &&& old(reader)@.state->rx == *polled
            &&& final(reader)@.state == (ReaderState::<B>::Streaming {
                rx: *final(polled),
                handle: old(reader)@.state->handle,
            })
        },
        rx is None ==> final(reader)@ == old(reader)@,
        task is Some <==> old(other)@.state matches ReaderState::Streaming { handle: Some(_), .. },
        task matches Some(polled) ==> {
            &&& old(other)@.state->handle == Some(*polled)
            &&& final(other)@.state == (ReaderState::<B>::Streaming {
                rx: old(other)@.state->rx,
                handle: Some(*final(polled)),
            })
        },
        task is None ==> final(other)@ == old(other)@,
{
}

/// Polling a reader asks for what its state calls for, and by itself changes
/// nothing: a new one is started, the task is polled first while it has not
/// answered, then only the channel, and a completed one has ended.
pub proof fn law_poll_begins<B: Backend>(reader: &mut XetReader<B>, action: ReaderAction)
    requires
        call_ensures(XetReader::<B>::poll_next, (reader, ReaderEvent::Poll), action),
        reader@.state !is Starting,
    ensures
        match old(reader)@.state {
            ReaderState::Init { .. } => action is Start,
            ReaderState::Streaming { handle: Some(_), .. } => action is PollTask,
            ReaderState::Streaming { handle: None, .. } => action is PollChannel,
            _ => action == ReaderAction::Return(Polled::Ready(None)),
        },
        final(reader)@ == old(reader)@,
{
}

/// A task that has failed ends the stream with its error at once. Otherwise the
/// channel is polled next, and a task that has succeeded is let go.
pub proof fn law_task_answer<B: Backend>(
    reader: &mut XetReader<B>,
    rx: B::Receiver,
    handle: B::DownloadTask,
    answer: Polled<TaskResult>,
    action: ReaderAction,
)
    requires
        reader@.state == (ReaderState::<B>::Streaming { rx, handle: Some(handle) }),
        call_ensures(XetReader::<B>::poll_next, (reader, ReaderEvent::TaskPolled(answer)), action),
    ensures
        answer is Pending ==> action is PollChannel && final(reader)@ == old(reader)@,
        answer matches Polled::Ready(Ok(_)) ==> {
            &&& action is PollChannel
            &&& final(reader)@.state == (ReaderState::<B>::Streaming { rx, handle: None })
        },
        answer matches Polled::Ready(Err(error)) ==> {
            &&& action == ReaderAction::Return(Polled::Ready(Some(StreamItem::Err(error))))
            &&& final(reader)@.state is Completed
        },
{
}

/// A chunk from the channel is the next item, as it is. An empty channel is
/// waited for. A closed channel ends the stream, once the task has answered.
pub proof fn law_channel_answer<B: Backend>(
    reader: &mut XetReader<B>,
    rx: B::Receiver,
    handle: Option<B::DownloadTask>,
    answer: Polled<Option<Bytes>>,
    action: ReaderAction,
)
    requires
        reader@.state == (ReaderState::<B>::Streaming { rx, handle }),
        call_ensures(
            XetReader::<B>::poll_next,
            (reader, ReaderEvent::ChannelPolled(answer)),
            action,
        ),
    ensures
        answer matches Polled::Ready(Some(chunk)) ==> {
            &&& action == ReaderAction::Return(Polled::Ready(Some(StreamItem::Ok(chunk))))
            &&& final(reader)@ == old(reader)@
        },
        answer is Pending ==> {
            &&& action == ReaderAction::Return(Polled::Pending)
            &&& final(reader)@ == old(reader)@
        },
        answer matches Polled::Ready(None) ==> {
            &&& handle is Some ==> action is RecheckTask && final(reader)@ == old(reader)@
            &&& handle is None ==> {
                &&& action == ReaderAction::Return(Polled::Ready(None))
                &&& final(reader)@.state is Completed
            }
        },
{
}

/// Behind a closed channel, the stream ends as the task does, and waits for it.
pub proof fn law_late_task_answer<B: Backend>(
    reader: &mut XetReader<B>,
    rx: B::Receiver,
    handle: B::DownloadTask,
    answer: Polled<TaskResult>,
    action: ReaderAction,
)
    requires
        reader@.state == (ReaderState::<B>::Streaming { rx, handle: Some(handle) }),
        call_ensures(
            XetReader::<B>::poll_next,
            (reader, ReaderEvent::TaskRechecked(answer)),
            action,
        ),
    ensures
        answer is Pending ==> {
            &&& action == ReaderAction::Return(Polled::Pending)
            &&& final(reader)@ == old(reader)@
        },
        answer matches Polled::Ready(Ok(_)) ==> {
            &&& action == ReaderAction::Return(Polled::Ready(None))
            &&& final(reader)@.state is Completed
        },
        answer matches Polled::Ready(Err(error)) ==> {
            &&& action == ReaderAction::Return(Polled::Ready(Some(StreamItem::Err(error))))
            &&& final(reader)@.state is Completed
        },
{
}

/// A download task that has a downloader downloads what it was asked for with
/// it and ends exactly as that download does, with its number of bytes or its
/// error. One that has none ends with why, and there is nothing to download.
pub proof fn law_download_task_runs<B: Backend, D>(
    downloader: Result<D, DataProcessingError>,
    request: DownloadRequest<B>,
    next: Result<(D, DownloadRequest<B>), DataProcessingError>,
    downloaded: TaskResult,
    error: DataProcessingError,
    ended: TaskResult,
    ended_without: TaskResult,
)
    requires
        call_ensures(downloader_opened::<B, D>, (downloader, request), next),
        call_ensures(download_ended, (Ok(downloaded),), ended),
        call_ensures(download_ended, (Err(error),), ended_without),
    ensures
        next is Ok <==> downloader is Ok,
        next matches Ok((with, what)) ==> downloader == Ok::<_, DataProcessingError>(with) && what
            == request,
        next matches Err(failure) ==> downloader == Err::<D, _>(failure),
        ended == downloaded,
        ended_without == Err::<u64, _>(error),
{
}

/// An upload whose session was opened starts cleaning under the given name and
/// size; one whose session was not has that failure.
pub proof fn law_cleaning_needs_a_session<S>(
    session: Result<S, DataProcessingError>,
    name: Option<String>,
    size: u64,
    next: Result<(S, CleanRequest), DataProcessingError>,
)
    requires
        call_ensures(session_opened::<S>, (session, name, size), next),
    ensures
        next is Ok <==> session is Ok,
        next matches Ok((opened, clean)) ==> {
            &&& session == Ok::<_, DataProcessingError>(opened)
            &&& clean.name == name
            &&& clean.size == size
        },
        next matches Err(error) ==> session == Err::<S, _>(error),
{
}

/// A writer is made from an open session and its cleaner, and holds both.
pub proof fn law_new_upload_is_open<B: Backend>(
    opened: Result<(B::Session, B::Cleaner), DataProcessingError>,
    writer: Result<XetWriter<B>, DataProcessingError>,
)
    requires
        call_ensures(XetWriter::<B>::new, (opened,), writer),
    ensures
        writer is Ok <==> opened is Ok,
        writer matches Ok(writer) ==> {
            &&& writer@.session == Some(opened->Ok_0.0)
            &&& writer@.handle == Some(opened->Ok_0.1)
        },
        writer matches Err(error) ==> opened == Err::<(B::Session, B::Cleaner), _>(error),
{
}

/// An open writer hands each chunk to its cleaner, as it is, and keeps the
/// cleaner with what was done to it. A closed one takes nothing.
pub proof fn law_write_goes_to_the_cleaner<B: Backend>(
    writer: &mut XetWriter<B>,
    data: Bytes,
    result: Result<(&mut B::Cleaner, Bytes), DataProcessingError>,
)
    requires
        call_ensures(XetWriter::<B>::write, (writer, data), result),
    ensures
        result is Ok <==> old(writer)@.handle is Some,
        result matches Ok((cleaner, added)) ==> {
            &&& old(writer)@.handle == Some(*cleaner)
            &&& added == data
            &&& final(writer)@.handle == Some(*final(cleaner))
            &&& final(writer)@.session == old(writer)@.session
        },
        result matches Err(error) ==> {
            &&& error matches DataProcessingError::InternalError(message)
            &&& message@ == "writer already closed"@
            &&& final(writer)@ == old(writer)@
        },
{
}

/// Closing an open writer goes through to its end: it hands out the cleaner to
/// be finished and then, with the file's information, the session to be
/// finalized, each once, and gives that information exactly when the session
/// was finalized.
pub proof fn law_close_completes_the_upload<B: Backend>(
    session: B::Session,
    cleaner: B::Cleaner,
    writer: &mut XetWriter<B>,
    closed: Result<B::Cleaner, DataProcessingError>,
    file_info: XetFileInfo,
    later: &mut XetWriter<B>,
    next: Result<(B::Session, XetFileInfo), DataProcessingError>,
    finalize: Result<(), DataProcessingError>,
    result: Result<XetFileInfo, DataProcessingError>,
)
    requires
        writer@.session == Some(session),
        writer@.handle == Some(cleaner),
        call_ensures(XetWriter::<B>::close, (writer,), closed),
        *final(writer) == *old(later),
        call_ensures(XetWriter::<B>::cleaned, (later, Ok(file_info)), next),
        call_ensures(finalized, (file_info, finalize), result),
    ensures
        closed == Ok::<_, DataProcessingError>(cleaner),
        next == Ok::<_, DataProcessingError>((session, file_info)),
        final(later)@.session is None,
        final(later)@.handle is None,
        result is Ok <==> finalize is Ok,
        result matches Ok(info) ==> info == file_info,
        result matches Err(error) ==> finalize == Err::<(), _>(error),
{
}

/// A cleaner that fails to finish makes closing fail with its error. The writer
/// is closed then, and its session stays with it.
pub proof fn law_failed_cleaner_fails_the_close<B: Backend>(
    writer: &mut XetWriter<B>,
    error: DataProcessingError,
    next: Result<(B::Session, XetFileInfo), DataProcessingError>,
)
    requires
        call_ensures(XetWriter::<B>::cleaned, (writer, Err(error)), next),
    ensures
        next == Err::<(B::Session, XetFileInfo), _>(error),
        final(writer)@ == old(writer)@,
{
}

/// A writer that was closed, or was aborted, refuses to be closed, and a writer
/// without its session cannot be completed.
pub proof fn law_closed_upload_refuses<B: Backend>(
    writer: &mut XetWriter<B>,
    closed: Result<B::Cleaner, DataProcessingError>,
    file_info: XetFileInfo,
    other: &mut XetWriter<B>,
    next: Result<(B::Session, XetFileInfo), DataProcessingError>,
)
    requires
        writer@.handle is None,
        call_ensures(XetWriter::<B>::close, (writer,), closed),
        other@.session is None,
        call_ensures(XetWriter::<B>::cleaned, (other, Ok(file_info)), next),
    ensures
        closed matches Err(DataProcessingError::InternalError(message)) && message@
            == "writer already closed"@,
        final(writer)@ == old(writer)@,
        next matches Err(DataProcessingError::InternalError(message)) && message@
            == "writer already closed"@,
        final(other)@ == old(other)@,
{
}

/// Aborting always succeeds and gives both the cleaner and the session up.
pub proof fn law_abort_gives_everything_up<B: Backend>(
    writer: &mut XetWriter<B>,
    result: Result<(), DataProcessingError>,
)
    requires
        call_ensures(XetWriter::<B>::abort, (writer,), result),
    ensures
        result is Ok,
        final(writer)@.session is None,
        final(writer)@.handle is None,
{
}

/// Whatever was written to an open writer, it can be closed and its upload
/// completed: neither is refused, and the session is still the same.
pub proof fn law_written_upload_can_be_completed<B: Backend>(
    writer: UploadView<B>,
    writes: Seq<WrittenChunk<B>>,
)
    requires
        writer.session is Some,
        writer.handle is Some,
    ensures
        ({
            let before = after_writes(writer, writes);
            let closed = before.after(UploadCall::Close);
            let done = closed.after(UploadCall::Cleaned(true));
            &&& !before.refuses(UploadCall::Close)
            &&& closed.session == writer.session && closed.handle is None
            &&& !closed.refuses(UploadCall::Cleaned(true))
            &&& done.session is None && done.handle is None
        }),
{
    law_writes_reach_the_cleaner(writer, writes);
}

/// Nothing but closing or aborting closes a writer, and nothing but completing
/// or aborting takes its session.
pub proof fn law_open_until_ended<B: Backend>(writer: UploadView<B>, calls: Seq<UploadCall<B>>)
    requires
        writer.handle is Some,
    ensures
        (forall|i: int|
            0 <= i < calls.len() ==> !(#[trigger] calls[i] is Close) && !(calls[i] is Abort))
            ==> after_calls(writer, calls).handle is Some,
        (forall|i: int|
            0 <= i < calls.len() ==> #[trigger] calls[i] != UploadCall::<B>::Cleaned(true) && !(
            calls[i] is Abort)) ==> after_calls(writer, calls).session == writer.session,
    decreases calls.len(),
{
    if calls.len() > 0 {
        let before = calls.drop_last();
        law_open_until_ended(writer, before);
        assert(calls.last() == calls[calls.len() - 1]);
        assert(forall|i: int| 0 <= i < before.len() ==> #[trigger] before[i] == calls[i]);
    }
}

} // verus!
