//! Writes the terms of a file, in order, to a stream of chunks.

use bytes::Bytes;
use tokio::sync::mpsc::UnboundedSender;
use vstd::prelude::*;
use vstd::string::*;

use crate::background::QueueItem;
use crate::chunk::chunk_bytes;
use crate::error::{FileReconstructionError, ReconstructionFailure};
use crate::file_range::FileRange;
use crate::text::{decimal, push_decimal};

verus! {

/// `tokio::sync::mpsc::UnboundedSender`: the sending side of a queue.
#[verifier::external_type_specification]
#[verifier::external_body]
#[verifier::reject_recursive_types(T)]
pub struct ExUnboundedSender<T>(tokio::sync::mpsc::UnboundedSender<T>);

/// Calls `tokio::sync::mpsc::UnboundedSender::send`, which puts the item into
/// the queue or, where the receiving side is closed, gives the same item back.
/// That side belongs to another task, so nothing is claimed of which of the two
/// happens.
#[verifier::external_body]
fn send_to_queue<T>(queue: &UnboundedSender<T>, item: T) -> (sent: Result<(), T>)
    ensures
        sent matches Err(returned) ==> returned == item,
{
    match queue.send(item) {
        Ok(()) => Ok(()),
        Err(error) => Err(error.0),
    }
}

/// Whether `sent` is an answer of the queue to being sent this item: the result
/// of a call of `send_to_queue` with exactly these arguments.
pub closed spec fn answers<T>(
    queue: UnboundedSender<T>,
    item: T,
    sent: Result<(), T>,
) -> bool {
    call_ensures(send_to_queue::<T>, (&queue, item), sent)
}

/// An answer of the queue comes from sending it the item, and where the queue
/// did not take the item, it is that item.
proof fn law_queue_answers_for_the_item<T>(
    queue: UnboundedSender<T>,
    item: T,
    sent: Result<(), T>,
)
    requires
        answers(queue, item, sent),
    ensures
        call_ensures(send_to_queue::<T>, (&queue, item), sent),
        sent matches Err(returned) ==> returned == item,
{
}

/// Whether a writer still takes terms.
#[verifier::reject_recursive_types(H)]
#[verifier::reject_recursive_types(P)]
pub enum WriterState<H, P, J> {
    /// Terms go to the queue, which the background task empties.
    Open { queue_tx: UnboundedSender<QueueItem<H, P>>, background: J },
    /// [`StreamingWriter::finish`] was called.
    Finished,
}

/// Writes data as a stream of chunks, in the order of the file.
///
/// `H` is the handle of a task that fetches data, `P` a permit that is held
/// until the data is forwarded, and `J` the handle of the background task.
#[verifier::reject_recursive_types(H)]
#[verifier::reject_recursive_types(P)]
pub struct StreamingWriter<H, P, J> {
    state: WriterState<H, P, J>,
    next_position: u64,
}

/// The contents of a [`StreamingWriter`].
#[verifier::reject_recursive_types(H)]
#[verifier::reject_recursive_types(P)]
pub struct WriterView<H, P, J> {
    pub state: WriterState<H, P, J>,
    /// Where the next term has to start.
    pub next_position: u64,
}

impl<H, P, J> View for StreamingWriter<H, P, J> {
    type V = WriterView<H, P, J>;

    closed spec fn view(&self) -> WriterView<H, P, J> {
        WriterView { state: self.state, next_position: self.next_position }
    }
}

/// The failure of using a writer after it was finished.
pub open spec fn already_finished() -> ReconstructionFailure {
    ReconstructionFailure::InternalWriterError("Writer has already finished"@)
}

/// The failure of a term that does not start where the previous one ended.
pub open spec fn not_sequential(expected: u64, start: u64) -> ReconstructionFailure {
    ReconstructionFailure::InternalWriterError(
        "Byte range not sequential: expected start at "@ + decimal(expected as nat) + ", got "@
            + decimal(start as nat),
    )
}

/// The failure of data that does not have its term's size.
pub open spec fn size_mismatch(expected: u64, actual: nat) -> ReconstructionFailure {
    ReconstructionFailure::InternalWriterError(
        "Data size mismatch: expected "@ + decimal(expected as nat) + " bytes, got "@ + decimal(
            actual,
        ) + " bytes"@,
    )
}

/// The failure of queueing a term for a background task that has ended.
pub open spec fn queue_closed() -> ReconstructionFailure {
    ReconstructionFailure::InternalWriterError("Background writer channel closed"@)
}

/// The failure of a background task that could not be joined.
pub open spec fn background_failed(reason: Seq<char>) -> ReconstructionFailure {
    ReconstructionFailure::InternalWriterError("Background writer task failed: "@ + reason)
}

impl<H, P, J> WriterView<H, P, J> {
    /// What becomes of the writer when it is given a term with this range.
    pub open spec fn after_term(self, byte_range: FileRange) -> Result<
        Self,
        ReconstructionFailure,
    > {
        if self.state is Finished {
            Err(already_finished())
        } else if byte_range.start != self.next_position {
            Err(not_sequential(self.next_position, byte_range.start))
        } else {
            Ok(WriterView { next_position: byte_range.end, ..self })
        }
    }

    /// What becomes of the writer when it is finished.
    pub open spec fn after_finish(self) -> Result<Self, ReconstructionFailure> {
        if self.state is Finished {
            Err(already_finished())
        } else {
            Ok(WriterView { state: WriterState::Finished, ..self })
        }
    }
}

impl<H, P, J> StreamingWriter<H, P, J> {
    /// Creates a writer over the sending side of the queue that the background
    /// task empties.
    pub fn new(queue_tx: UnboundedSender<QueueItem<H, P>>, background: J) -> (writer: Self)
        ensures
            writer@ == (WriterView {
                state: WriterState::Open { queue_tx, background },
                next_position: 0,
            }),
    {
        StreamingWriter { state: WriterState::Open { queue_tx, background }, next_position: 0 }
    }

    /// Takes the next term of the file and returns the size that its data must
    /// have. Its data task is then to be queued with
    /// [`enqueue`](StreamingWriter::enqueue).
    ///
    /// A term that the writer takes may not end before it starts.
    pub fn set_next_term_data_source(&mut self, byte_range: FileRange) -> (size: Result<
        u64,
        FileReconstructionError,
    >)
        requires
            old(self)@.after_term(byte_range) is Ok ==> byte_range.start <= byte_range.end,
        ensures
            match old(self)@.after_term(byte_range) {
                Ok(after) => {
                    &&& size matches Ok(size)
                    &&& size == byte_range.end - byte_range.start
                    &&& final(self)@ == after
                },
                Err(failure) => {
                    &&& size matches Err(error)
                    &&& error@ == failure
                    &&& final(self)@ == old(self)@
                },
            },
    {
        if let WriterState::Finished = &self.state {
            return Err(
                FileReconstructionError::InternalWriterError(
                    "Writer has already finished".to_owned(),
                ),
            );
        }
        if byte_range.start != self.next_position {
            let mut message = "Byte range not sequential: expected start at ".to_owned();
            push_decimal(&mut message, self.next_position);
            message.append(", got ");
            push_decimal(&mut message, byte_range.start);
            return Err(FileReconstructionError::InternalWriterError(message));
        }
        self.next_position = byte_range.end;
        Ok(byte_range.end - byte_range.start)
    }

    /// Returns the queue and the item that it is to be given for a data task
    /// and its permit; nothing once the writer is finished.
    pub fn entry(&self, handle: H, permit: Option<P>) -> (entry: Option<
        (&UnboundedSender<QueueItem<H, P>>, QueueItem<H, P>),
    >)
        ensures
            match self@.state {
                WriterState::Open { queue_tx, .. } => {
                    &&& entry matches Some((queue, item))
                    &&& *queue == queue_tx
                    &&& item == (QueueItem { handle, permit })
                },
                WriterState::Finished => entry is None,
            },
    {
        match &self.state {
            WriterState::Open { queue_tx, .. } => Some((queue_tx, QueueItem { handle, permit })),
            WriterState::Finished => None,
        }
    }

    /// Queues the data task of the term that was taken last, with the permit
    /// that is given back once its data is forwarded.
    ///
    /// The item goes to the writer's queue, as
    /// [`entry`](StreamingWriter::entry) has it, and the queue's answer decides
    /// the result, as [`queued`] has it. The answer depends on the background
    /// task; that the queue then holds the item is not stated.
    pub fn enqueue(&self, handle: H, permit: Option<P>) -> (result: Result<
        (),
        FileReconstructionError,
    >)
        requires
            self@.state is Open,
        ensures
            exists|sent: Result<(), QueueItem<H, P>>| #[trigger]
                answers(self@.state->queue_tx, QueueItem { handle, permit }, sent) && (
                result is Ok <==> sent is Ok),
            result matches Err(error) ==> error@ == queue_closed(),
    {
        match self.entry(handle, permit) {
            Some((queue, item)) => {
                let sent = send_to_queue(queue, item);
                assert(answers(*queue, item, sent));
                queued(sent.is_ok())
            },
            None => queued(false),
        }
    }

    /// Stops taking terms: closes the queue, so that the background task ends
    /// once it has forwarded what is queued.
    ///
    /// Returns the handle of the background task, which is to be joined, and
    /// the number of bytes of all terms. The result of finishing is then
    /// [`finished`].
    pub fn finish(&mut self) -> (result: Result<(J, u64), FileReconstructionError>)
        ensures
            match old(self)@.after_finish() {
                Ok(after) => {
                    &&& result == Ok::<_, FileReconstructionError>(
                        (old(self)@.state->background, old(self)@.next_position),
                    )
                    &&& final(self)@ == after
                },
                Err(failure) => {
                    &&& result matches Err(error)
                    &&& error@ == failure
                    &&& final(self)@ == old(self)@
                },
            },
    {
        let mut state = WriterState::Finished;
        std::mem::swap(&mut self.state, &mut state);
        match state {
            WriterState::Open { background, .. } => Ok((background, self.next_position)),
            WriterState::Finished => Err(
                FileReconstructionError::InternalWriterError(
                    "Writer has already finished".to_owned(),
                ),
            ),
        }
    }

    /// Whether the writer was finished.
    pub fn is_finished(&self) -> (finished: bool)
        ensures
            finished == (self@.state is Finished),
    {
        matches!(self.state, WriterState::Finished)
    }

    /// Where the next term has to start.
    pub fn next_position(&self) -> (position: u64)
        ensures
            position == self@.next_position,
    {
        self.next_position
    }
}

/// The result of queueing a term, for each answer of the queue.
pub fn queued(taken: bool) -> (result: Result<(), FileReconstructionError>)
    ensures
        result is Ok <==> taken,
        result matches Err(error) ==> error@ == queue_closed(),
{
    if taken {
        Ok(())
    } else {
        Err(
            FileReconstructionError::InternalWriterError(
                "Background writer channel closed".to_owned(),
            ),
        )
    }
}

/// The result of finishing a writer whose terms have `total_bytes` bytes, for
/// each result of joining its background task: what the task returned, or the
/// text of why it could not be joined.
pub fn finished(
    total_bytes: u64,
    joined: Result<Result<(), FileReconstructionError>, String>,
) -> (result: Result<u64, FileReconstructionError>)
    ensures
        match joined {
            Ok(Ok(_)) => result == Ok::<_, FileReconstructionError>(total_bytes),
            Ok(Err(error)) => result == Err::<u64, _>(error),
            Err(reason) => result matches Err(error) && error@ == background_failed(reason@),
        },
{
    match joined {
        Ok(Ok(_)) => Ok(total_bytes),
        Ok(Err(error)) => Err(error),
        Err(reason) => {
            let mut message = "Background writer task failed: ".to_owned();
            message.append(reason.as_str());
            Err(FileReconstructionError::InternalWriterError(message))
        },
    }
}

/// Whether the result of a data task fits a term of this size: data has
/// exactly that size.
pub open spec fn fits(expected_size: u64, data: Result<Bytes, FileReconstructionError>) -> bool {
    data matches Ok(chunk) ==> chunk_bytes(chunk).len() == expected_size
}

/// The result of a data task, given what fetching the data returned: the data
/// if it has the size of its term, and an error otherwise.
pub fn check_term_data(
    expected_size: u64,
    data: Result<Bytes, FileReconstructionError>,
) -> (result: Result<Bytes, FileReconstructionError>)
    ensures
        fits(expected_size, result),
        fits(expected_size, data) ==> result == data,
        !fits(expected_size, data) ==> (result matches Err(error) && error@ == size_mismatch(
            expected_size,
            chunk_bytes(data->Ok_0).len(),
        )),
{
    match data {
        Ok(chunk) => {
            let size: u64 = chunk.len() as u64;
            if size != expected_size {
                let mut message = "Data size mismatch: expected ".to_owned();
                push_decimal(&mut message, expected_size);
                message.append(" bytes, got ");
                push_decimal(&mut message, size);
                message.append(" bytes");
                return Err(FileReconstructionError::InternalWriterError(message));
            }
            Ok(chunk)
        },
        Err(error) => Err(error),
    }
}

} // verus!
