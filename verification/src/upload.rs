//! A single-file upload.

use std::sync::Arc;

use bytes::Bytes;
use vstd::prelude::*;
use vstd::string::*;

use crate::backend::Backend;
use crate::error::{DataProcessingError, ProcessingFailure};
use crate::file_info::XetFileInfo;

verus! {

/// Everything that opening an upload is given.
pub struct UploadRequest<B: Backend> {
    pub config: Arc<B::Config>,
    pub progress_updater: Option<B::ProgressUpdater>,
    /// The name under which progress is reported.
    pub name: Option<String>,
    /// The number of bytes that will be written.
    pub size: u64,
}

/// What cleaning a file in an open session is started with.
#[derive(Debug, PartialEq, Eq)]
pub struct CleanRequest {
    pub name: Option<String>,
    pub size: u64,
}

/// Goes on with opening an upload, given the result of opening its session:
/// returns the session and what cleaning is started with in it. Where there is
/// no session, no cleaning is started.
pub fn session_opened<S>(
    session: Result<S, DataProcessingError>,
    name: Option<String>,
    size: u64,
) -> (next: Result<(S, CleanRequest), DataProcessingError>)
    ensures
        match session {
            Ok(session) => next == Ok::<_, DataProcessingError>(
                (session, CleanRequest { name, size }),
            ),
            Err(error) => next == Err::<(S, CleanRequest), _>(error),
        },
{
    match session {
        Ok(session) => Ok((session, CleanRequest { name, size })),
        Err(error) => Err(error),
    }
}

/// A single-file upload writer.
///
/// Data goes in with [`write`](XetWriter::write); [`close`](XetWriter::close)
/// completes the upload, [`abort`](XetWriter::abort) gives it up.
pub struct XetWriter<B: Backend> {
    session: Option<B::Session>,
    handle: Option<B::Cleaner>,
}

/// The contents of an [`XetWriter`].
pub struct UploadView<B: Backend> {
    /// The session, until it is finalized or given up.
    pub session: Option<B::Session>,
    /// The cleaner of the file's data, until the writer is closed.
    pub handle: Option<B::Cleaner>,
}

impl<B: Backend> View for XetWriter<B> {
    type V = UploadView<B>;

    closed spec fn view(&self) -> UploadView<B> {
        UploadView { session: self.session, handle: self.handle }
    }
}

/// A use of an upload writer, as far as it decides what the writer holds.
pub enum UploadCall<B: Backend> {
    /// A chunk is written; the cleaner is this afterwards.
    Write(B::Cleaner),
    /// The writer is closed.
    Close,
    /// The cleaner has finished, successfully or not.
    Cleaned(bool),
    /// The writer is aborted.
    Abort,
}

impl<B: Backend> UploadView<B> {
    /// Whether the writer refuses a use as already closed.
    pub open spec fn refuses(self, call: UploadCall<B>) -> bool {
        match call {
            UploadCall::Write(_) => self.handle is None,
            UploadCall::Close => self.handle is None,
            UploadCall::Cleaned(success) => success && self.session is None,
            UploadCall::Abort => false,
        }
    }

    /// The writer after a use.
    pub open spec fn after(self, call: UploadCall<B>) -> Self {
        if self.refuses(call) {
            self
        } else {
            match call {
                UploadCall::Write(cleaner) => UploadView { handle: Some(cleaner), ..self },
                UploadCall::Close => UploadView { handle: None, ..self },
                UploadCall::Cleaned(true) => UploadView { session: None, ..self },
                UploadCall::Cleaned(false) => self,
                UploadCall::Abort => UploadView { session: None, handle: None },
            }
        }
    }
}

/// The failure of using a writer that was closed or aborted.
pub open spec fn already_closed() -> ProcessingFailure {
    ProcessingFailure::InternalError("writer already closed"@)
}

/// The error of using a writer that was closed or aborted.
fn already_closed_error() -> (error: DataProcessingError)
    ensures
        error@ == already_closed(),
{
    DataProcessingError::InternalError("writer already closed".to_owned())
}

impl<B: Backend> XetWriter<B> {
    /// Creates a writer from the result of opening a session and starting to
    /// clean the file in it.
    pub fn new(opened: Result<(B::Session, B::Cleaner), DataProcessingError>) -> (writer: Result<
        Self,
        DataProcessingError,
    >)
        ensures
            match opened {
                Ok((session, handle)) => writer matches Ok(writer) && writer@ == (UploadView::<B> {
                    session: Some(session),
                    handle: Some(handle),
                }),
                Err(error) => writer == Err::<Self, _>(error),
            },
    {
        match opened {
            Ok((session, handle)) => Ok(
                XetWriter { session: Some(session), handle: Some(handle) },
            ),
            Err(error) => Err(error),
        }
    }

    /// Takes a chunk of the file's data: returns the cleaner, and the data that
    /// is to be added to it.
    pub fn write(&mut self, data: Bytes) -> (result: Result<
        (&mut B::Cleaner, Bytes),
        DataProcessingError,
    >)
        ensures
            match old(self)@.handle {
                Some(handle) => {
                    &&& result matches Ok((cleaner, added))
                    &&& *cleaner == handle
                    &&& added == data
                    &&& final(self)@ == old(self)@.after(UploadCall::Write(*final(cleaner)))
                },
                None => {
                    &&& result matches Err(error)
                    &&& error@ == already_closed()
                    &&& final(self)@ == old(self)@
                },
            },
    {
        match &mut self.handle {
            Some(handle) => Ok((handle, data)),
            None => Err(already_closed_error()),
        }
    }

    /// Closes the writer: returns the cleaner, which is to finish. The upload
    /// goes on with [`cleaned`](XetWriter::cleaned).
    pub fn close(&mut self) -> (result: Result<B::Cleaner, DataProcessingError>)
        ensures
            match old(self)@.handle {
                Some(handle) => result == Ok::<_, DataProcessingError>(handle),
                None => result matches Err(error) && error@ == already_closed(),
            },
            final(self)@ == old(self)@.after(UploadCall::Close),
    {
        match self.handle.take() {
            Some(handle) => Ok(handle),
            None => Err(already_closed_error()),
        }
    }

    /// Goes on with closing, given the result of finishing the cleaner: returns
    /// the session, which is to be finalized, and the file's information. The
    /// result of closing is then [`finalized`]. Where the cleaner failed, the
    /// session stays.
    pub fn cleaned(&mut self, result: Result<XetFileInfo, DataProcessingError>) -> (next: Result<
        (B::Session, XetFileInfo),
        DataProcessingError,
    >)
        ensures
            match result {
                Ok(file_info) => match old(self)@.session {
                    Some(session) => next == Ok::<_, DataProcessingError>((session, file_info)),
                    None => next matches Err(error) && error@ == already_closed(),
                },
                Err(error) => next == Err::<(B::Session, XetFileInfo), _>(error),
            },
            final(self)@ == old(self)@.after(UploadCall::Cleaned(result is Ok)),
    {
        match result {
            Ok(file_info) => match self.session.take() {
                Some(session) => Ok((session, file_info)),
                None => Err(already_closed_error()),
            },
            Err(error) => Err(error),
        }
    }

    /// Gives the upload up, with all data written so far.
    pub fn abort(&mut self) -> (result: Result<(), DataProcessingError>)
        ensures
            result is Ok,
            final(self)@ == old(self)@.after(UploadCall::Abort),
    {
        self.handle = None;
        self.session = None;
        Ok(())
    }
}

/// The result of closing a writer, for each result of finalizing its session.
pub fn finalized(
    file_info: XetFileInfo,
    result: Result<(), DataProcessingError>,
) -> (closed: Result<XetFileInfo, DataProcessingError>)
    ensures
        match result {
            Ok(_) => closed == Ok::<_, DataProcessingError>(file_info),
            Err(error) => closed == Err::<XetFileInfo, _>(error),
        },
{
    match result {
        Ok(_) => Ok(file_info),
        Err(error) => Err(error),
    }
}

/// The writer after several uses.
pub open spec fn after_calls<B: Backend>(
    writer: UploadView<B>,
    calls: Seq<UploadCall<B>>,
) -> UploadView<B>
    decreases calls.len(),
{
    if calls.len() == 0 {
        writer
    } else {
        after_calls(writer, calls.drop_last()).after(calls.last())
    }
}

/// Once a writer was closed or aborted, it refuses every write and every
/// close, whatever it is used for in between.
pub proof fn law_closed_for_good<B: Backend>(
    writer: UploadView<B>,
    ending: UploadCall<B>,
    calls: Seq<UploadCall<B>>,
    call: UploadCall<B>,
)
    requires
        ending is Close || ending is Abort,
        call is Write || call is Close,
    ensures
        after_calls(writer.after(ending), calls).refuses(call),
    decreases calls.len(),
{
    if calls.len() > 0 {
        law_closed_for_good(writer, ending, calls.drop_last(), call);
    }
}

/// A session is handed out to be finalized at most once, and not at all after
/// an abort, whatever the writer is used for in between.
pub proof fn law_session_finalized_once<B: Backend>(
    writer: UploadView<B>,
    ending: UploadCall<B>,
    calls: Seq<UploadCall<B>>,
)
    requires
        ending == UploadCall::<B>::Cleaned(true) || ending is Abort,
    ensures
        after_calls(writer.after(ending), calls).refuses(UploadCall::Cleaned(true)),
    decreases calls.len(),
{
    if calls.len() > 0 {
        law_session_finalized_once(writer, ending, calls.drop_last());
    }
}

/// A chunk that is written, and the cleaner after the chunk was added to it.
pub struct WrittenChunk<B: Backend> {
    pub data: Bytes,
    pub cleaner: B::Cleaner,
}

/// The writer after these chunks were written.
pub open spec fn after_writes<B: Backend>(
    writer: UploadView<B>,
    writes: Seq<WrittenChunk<B>>,
) -> UploadView<B>
    decreases writes.len(),
{
    if writes.len() == 0 {
        writer
    } else {
        after_writes(writer, writes.drop_last()).after(UploadCall::Write(writes.last().cleaner))
    }
}

/// The chunks that the cleaner is given when these are written.
pub open spec fn given_to_cleaner<B: Backend>(
    writer: UploadView<B>,
    writes: Seq<WrittenChunk<B>>,
) -> Seq<Bytes>
    decreases writes.len(),
{
    if writes.len() == 0 {
        Seq::empty()
    } else {
        let before = given_to_cleaner(writer, writes.drop_last());
        if after_writes(writer, writes.drop_last()).refuses(
            UploadCall::Write(writes.last().cleaner),
        ) {
            before
        } else {
            before.push(writes.last().data)
        }
    }
}

/// The chunks of a series of writes.
pub open spec fn written_data<B: Backend>(writes: Seq<WrittenChunk<B>>) -> Seq<Bytes> {
    writes.map_values(|write: WrittenChunk<B>| write.data)
}

/// Whatever is written to an open writer, in whatever chunks, reaches the
/// cleaner: every chunk, unchanged and in order. The writer stays open.
pub proof fn law_writes_reach_the_cleaner<B: Backend>(
    writer: UploadView<B>,
    writes: Seq<WrittenChunk<B>>,
)
    requires
        writer.handle is Some,
    ensures
        given_to_cleaner(writer, writes) == written_data(writes),
        after_writes(writer, writes).handle is Some,
        after_writes(writer, writes).session == writer.session,
    decreases writes.len(),
{
    if writes.len() > 0 {
        law_writes_reach_the_cleaner(writer, writes.drop_last());
        assert(written_data(writes) =~= written_data(writes.drop_last()).push(writes.last().data));
    } else {
        assert(written_data(writes) =~= Seq::empty());
    }
}

} // verus!
