//! What the calls of a streaming writer, its background task and a channel
//! writer give for each input, and how one call goes on from another.

use bytes::Bytes;
use tokio::sync::mpsc::UnboundedSender;
use vstd::prelude::*;

use crate::background::{
    BackgroundAction, BackgroundEvent, BackgroundState, BackgroundTask, JoinedData, QueueItem,
};
use crate::channel_writer::{written, ChannelWriter, WriteError};
use crate::chunk::chunk_bytes;
use crate::error::FileReconstructionError;
use crate::file_range::FileRange;
use crate::streaming_writer::{
    answers, check_term_data, finished, queued, StreamingWriter, WriterState,
};
use crate::text::{decimal, is_number, law_decimal_reads_back, number};

verus! {

/// Whether a message is this text up to a number, that number in decimal, and
/// so on with a second number, up to the end.
pub open spec fn says(
    message: Seq<char>,
    before: Seq<char>,
    first: nat,
    between: Seq<char>,
    second: nat,
    after: Seq<char>,
) -> bool {
    exists|a: Seq<char>, b: Seq<char>|
        {
            &&& message == #[trigger] (before + a + between + b + after)
            &&& is_number(a) && number(a) == first
            &&& is_number(b) && number(b) == second
        }
}

/// A message with two numbers in decimal says them.
proof fn lemma_says(
    message: Seq<char>,
    before: Seq<char>,
    first: nat,
    between: Seq<char>,
    second: nat,
    after: Seq<char>,
)
    requires
        message == before + decimal(first) + between + decimal(second) + after,
    ensures
        says(message, before, first, between, second, after),
{
    law_decimal_reads_back(first);
    law_decimal_reads_back(second);
}

/// A new writer is open over its queue, with its background task, and waits
/// for the start of the file.
pub proof fn law_new_writer_is_open<H, P, J>(
    queue_tx: UnboundedSender<QueueItem<H, P>>,
    background: J,
    writer: StreamingWriter<H, P, J>,
    position: u64,
    is_finished: bool,
)
    requires
        call_ensures(StreamingWriter::<H, P, J>::new, (queue_tx, background), writer),
        call_ensures(StreamingWriter::<H, P, J>::next_position, (&writer,), position),
        call_ensures(StreamingWriter::<H, P, J>::is_finished, (&writer,), is_finished),
    ensures
        writer@.state == (WriterState::<H, P, J>::Open { queue_tx, background }),
        position == 0,
        !is_finished,
{
}

/// A writer can be given every term that it refuses and every one that does
/// not end before it starts, and an open writer every data task to queue.
pub proof fn law_any_term_can_be_given<H, P, J>(
    writer: &mut StreamingWriter<H, P, J>,
    byte_range: FileRange,
    open: StreamingWriter<H, P, J>,
    handle: H,
    permit: Option<P>,
)
    requires
        byte_range.start <= byte_range.end || writer@.state is Finished || byte_range.start
            != writer@.next_position,
        open@.state is Open,
    ensures
        call_requires(
            StreamingWriter::<H, P, J>::set_next_term_data_source,
            (writer, byte_range),
        ),
        call_requires(StreamingWriter::<H, P, J>::enqueue, (&open, handle, permit)),
{
}

/// An open writer takes a term exactly when it starts where the previous one
/// ended. It then asks for data of the size of the term's range and waits for a
/// term behind it. Otherwise it says why and stays as it is, as it does once it
/// is finished.
pub proof fn law_term_is_taken_in_order<H, P, J>(
    writer: &mut StreamingWriter<H, P, J>,
    byte_range: FileRange,
    size: Result<u64, FileReconstructionError>,
)
    requires
        call_ensures(
            StreamingWriter::<H, P, J>::set_next_term_data_source,
            (writer, byte_range),
            size,
        ),
    ensures
        size is Ok <==> old(writer)@.state is Open && byte_range.start == old(
            writer,
        )@.next_position,
        size matches Ok(size) ==> {
            &&& byte_range.start + size == byte_range.end
            &&& final(writer)@.next_position == byte_range.end
            &&& final(writer)@.state == old(writer)@.state
        },
        size matches Err(error) ==> {
            &&& final(writer)@ == old(writer)@
            &&& error matches FileReconstructionError::InternalWriterError(message)
            &&& old(writer)@.state is Finished ==> message@ == "Writer has already finished"@
            &&& old(writer)@.state is Open ==> says(
                message@,
                "Byte range not sequential: expected start at "@,
                old(writer)@.next_position as nat,
                ", got "@,
                byte_range.start as nat,
                Seq::empty(),
            )
        },
{
    if size is Err && writer@.state is Open {
        let message = size->Err_0->InternalWriterError_0@;
        let first = writer@.next_position as nat;
        assert(message =~= "Byte range not sequential: expected start at "@ + decimal(first)
            + ", got "@ + decimal(byte_range.start as nat) + Seq::empty());
        lemma_says(
            message,
            "Byte range not sequential: expected start at "@,
            first,
            ", got "@,
            byte_range.start as nat,
            Seq::empty(),
        );
    }
}

/// Finishing succeeds exactly when the writer is open, wherever it stands. It
/// gives the handle of the background task and the number of bytes up to where
/// the writer stands, and closes the queue. A finished writer says that it is
/// one and stays as it is.
pub proof fn law_open_writer_finishes<H, P, J>(
    writer: &mut StreamingWriter<H, P, J>,
    result: Result<(J, u64), FileReconstructionError>,
)
    requires
        call_ensures(StreamingWriter::<H, P, J>::finish, (writer,), result),
    ensures
        result is Ok <==> old(writer)@.state is Open,
        result matches Ok((background, total)) ==> {
            &&& old(writer)@.state->background == background
            &&& total == old(writer)@.next_position
        },
        result matches Err(error) ==> {
            &&& error matches FileReconstructionError::InternalWriterError(message)
            &&& message@ == "Writer has already finished"@
        },
        final(writer)@.state is Finished,
        final(writer)@.next_position == old(writer)@.next_position,
{
}

/// A term and then finishing: an open writer that took a term reports the end
/// of that term as its number of bytes.
pub proof fn law_finish_counts_the_last_term<H, P, J>(
    writer: &mut StreamingWriter<H, P, J>,
    byte_range: FileRange,
    size: Result<u64, FileReconstructionError>,
    later: &mut StreamingWriter<H, P, J>,
    result: Result<(J, u64), FileReconstructionError>,
)
    requires
        call_ensures(
            StreamingWriter::<H, P, J>::set_next_term_data_source,
            (writer, byte_range),
            size,
        ),
        *final(writer) == *old(later),
        call_ensures(StreamingWriter::<H, P, J>::finish, (later,), result),
        size is Ok,
    ensures
        result matches Ok((background, total)) && background == old(writer)@.state->background
            && total == byte_range.end,
{
}

/// After finishing, whatever came of it, the writer takes no term and cannot be
/// finished.
pub proof fn law_finished_writer_refuses<H, P, J>(
    writer: &mut StreamingWriter<H, P, J>,
    result: Result<(J, u64), FileReconstructionError>,
    later: &mut StreamingWriter<H, P, J>,
    byte_range: FileRange,
    size: Result<u64, FileReconstructionError>,
    again: Result<(J, u64), FileReconstructionError>,
    last: &mut StreamingWriter<H, P, J>,
)
    requires
        call_ensures(StreamingWriter::<H, P, J>::finish, (writer,), result),
        *final(writer) == *old(later),
        call_ensures(
            StreamingWriter::<H, P, J>::set_next_term_data_source,
            (later, byte_range),
            size,
        ),
        *final(later) == *old(last),
        call_ensures(StreamingWriter::<H, P, J>::finish, (last,), again),
    ensures
        size is Err,
        again is Err,
{
}

/// Data passes exactly when its number of bytes is the size of its term, and
/// then as it is. Other data fails with both numbers, and a failure to fetch
/// the data stays that failure.
pub proof fn law_data_of_its_size_passes(
    expected_size: u64,
    data: Result<Bytes, FileReconstructionError>,
    result: Result<Bytes, FileReconstructionError>,
)
    requires
        call_ensures(check_term_data, (expected_size, data), result),
    ensures
        data matches Ok(chunk) ==> {
            &&& chunk_bytes(chunk).len() == expected_size <==> result is Ok
            &&& chunk_bytes(chunk).len() == expected_size ==> result
                == Ok::<_, FileReconstructionError>(chunk)
            &&& chunk_bytes(chunk).len() != expected_size ==> {
                &&& result matches Err(FileReconstructionError::InternalWriterError(message))
                &&& says(
                    message@,
                    "Data size mismatch: expected "@,
                    expected_size as nat,
                    " bytes, got "@,
                    chunk_bytes(chunk).len(),
                    " bytes"@,
                )
            }
        },
        data matches Err(error) ==> result == Err::<Bytes, _>(error),
{
    if data is Ok && chunk_bytes(data->Ok_0).len() != expected_size {
        lemma_says(
            result->Err_0->InternalWriterError_0@,
            "Data size mismatch: expected "@,
            expected_size as nat,
            " bytes, got "@,
            chunk_bytes(data->Ok_0).len(),
            " bytes"@,
        );
    }
}

/// Finishing gives the number of bytes exactly when the background task was
/// joined and has succeeded, and otherwise what went wrong.
pub proof fn law_finishing_waits_for_success(
    total_bytes: u64,
    joined: Result<Result<(), FileReconstructionError>, String>,
    result: Result<u64, FileReconstructionError>,
)
    requires
        call_ensures(finished, (total_bytes, joined), result),
    ensures
        result is Ok <==> joined matches Ok(Ok(_)),
        result matches Ok(n) ==> n == total_bytes,
        joined matches Ok(Err(error)) ==> result == Err::<u64, _>(error),
        joined matches Err(reason) ==> {
            &&& result matches Err(FileReconstructionError::InternalWriterError(message))
            &&& message@ == "Background writer task failed: "@ + reason@
        },
{
}

/// What an open writer queues is the data task and its permit, in its own
/// queue; queueing succeeds exactly when the queue takes them.
pub proof fn law_task_is_queued_with_its_permit<H, P, J>(
    writer: StreamingWriter<H, P, J>,
    handle: H,
    permit: Option<P>,
    entry: Option<(&UnboundedSender<QueueItem<H, P>>, QueueItem<H, P>)>,
    taken: bool,
    result: Result<(), FileReconstructionError>,
)
    requires
        call_ensures(StreamingWriter::<H, P, J>::entry, (&writer, handle, permit), entry),
        call_ensures(queued, (taken,), result),
    ensures
        entry is Some <==> writer@.state is Open,
        entry matches Some((queue, item)) ==> {
            &&& *queue == writer@.state->queue_tx
            &&& item.handle == handle
            &&& item.permit == permit
        },
        result is Ok <==> taken,
        result matches Err(error) ==> {
            &&& error matches FileReconstructionError::InternalWriterError(message)
            &&& message@ == "Background writer channel closed"@
        },
{
}

/// Queueing a data task sends it, with its permit, to the queue of the open
/// writer, and succeeds exactly when that queue takes them.
pub proof fn law_queueing_asks_the_queue<H, P, J>(
    writer: StreamingWriter<H, P, J>,
    handle: H,
    permit: Option<P>,
    result: Result<(), FileReconstructionError>,
)
    requires
        writer@.state is Open,
        call_ensures(StreamingWriter::<H, P, J>::enqueue, (&writer, handle, permit), result),
    ensures
        exists|sent: Result<(), QueueItem<H, P>>| #[trigger]
            answers(writer@.state->queue_tx, QueueItem { handle, permit }, sent) && (
            result is Ok <==> sent is Ok),
        result matches Err(error) ==> {
            &&& error matches FileReconstructionError::InternalWriterError(message)
            &&& message@ == "Background writer channel closed"@
        },
{
}

/// A background task starts by receiving from its queue.
pub proof fn law_background_starts_receiving<R, P>(rx: R, task: BackgroundTask<R, P>)
    requires
        call_ensures(BackgroundTask::<R, P>::new, (rx,), task),
    ensures
        task@.rx == Some(rx),
        task@.state is Receiving,
{
}

/// A background task takes whatever comes of what it waits for: any item or
/// the end of the queue, any outcome of a data task, any answer of the output
/// channel.
pub proof fn law_background_takes_any_outcome<H, R, P>(
    task: &mut BackgroundTask<R, P>,
    received: Option<QueueItem<H, P>>,
    joined: JoinedData,
    delivered: bool,
)
    ensures
        old(task)@.state is Receiving ==> call_requires(
            BackgroundTask::<R, P>::step::<H>,
            (task, BackgroundEvent::Received(received)),
        ),
        old(task)@.state is Joining ==> call_requires(
            BackgroundTask::<R, P>::step::<H>,
            (task, BackgroundEvent::Joined(joined)),
        ),
        old(task)@.state is Sending ==> call_requires(
            BackgroundTask::<R, P>::step::<H>,
            (task, BackgroundEvent::Sent(delivered)),
        ),
{
}

/// Until it ends, a background task receives from the queue that it was made
/// with, and receiving changes nothing else of it.
pub proof fn law_background_receives_from_its_queue<R, P>(
    task: &mut BackgroundTask<R, P>,
    rx: Option<&mut R>,
)
    requires
        call_ensures(BackgroundTask::<R, P>::receiver_mut, (task,), rx),
    ensures
        rx is Some <==> old(task)@.rx is Some,
        rx matches Some(queue) ==> {
            &&& old(task)@.rx == Some(*queue)
            &&& final(task)@.rx == Some(*final(queue))
        },
        rx is None ==> final(task)@.rx is None,
        final(task)@.state == old(task)@.state,
{
}

/// An item that is received is joined next: its own task is, with its permit
/// held and the queue kept. An end of the queue ends the task successfully.
pub proof fn law_received_item_is_joined<H, R, P>(
    task: &mut BackgroundTask<R, P>,
    received: Option<QueueItem<H, P>>,
    action: BackgroundAction<H>,
)
    requires
        call_ensures(
            BackgroundTask::<R, P>::step::<H>,
            (task, BackgroundEvent::Received(received)),
            action,
        ),
        task@.state is Receiving,
    ensures
        received matches Some(item) ==> {
            &&& action == BackgroundAction::Join(item.handle)
            &&& final(task)@.state == (BackgroundState::Joining { permit: item.permit })
            &&& final(task)@.rx == old(task)@.rx
        },
        received is None ==> {
            &&& action matches BackgroundAction::Exit(Ok(_))
            &&& final(task)@.state is Done
            &&& final(task)@.rx is None
        },
{
}

/// Data that was fetched is sent next, as it is, with the permit still held and
/// the queue kept. Data that could not be had ends the task with why.
pub proof fn law_fetched_data_is_sent<H, R, P>(
    task: &mut BackgroundTask<R, P>,
    permit: Option<P>,
    joined: JoinedData,
    action: BackgroundAction<H>,
)
    requires
        call_ensures(
            BackgroundTask::<R, P>::step::<H>,
            (task, BackgroundEvent::Joined(joined)),
            action,
        ),
        task@.state == (BackgroundState::Joining { permit }),
    ensures
        joined matches Ok(Ok(chunk)) ==> {
            &&& action == BackgroundAction::<H>::Send(chunk)
            &&& final(task)@.state == (BackgroundState::Sending { permit })
            &&& final(task)@.rx == old(task)@.rx
        },
        !(joined matches Ok(Ok(_))) ==> {
            &&& action matches BackgroundAction::Exit(Err(_))
            &&& final(task)@.state is Done
            &&& final(task)@.rx is None
        },
        joined matches Ok(Err(error)) ==> match error {
            FileReconstructionError::InternalError(message) => {
                &&& action->Exit_0->Err_0 matches FileReconstructionError::InternalError(said)
                &&& said@ == message@
            },
            FileReconstructionError::InternalWriterError(message) => {
                &&& action->Exit_0->Err_0 matches FileReconstructionError::InternalWriterError(said)
                &&& said@ == message@
            },
        },
        joined matches Err(reason) ==> {
            &&& action->Exit_0->Err_0 matches FileReconstructionError::InternalError(message)
            &&& message@ == "Task join error: "@ + reason@
        },
{
}

/// Once the output channel has taken the data, the task lets the permit go and
/// receives the next item from the same queue. A closed output channel ends it.
pub proof fn law_sent_data_makes_room<H, R, P>(
    task: &mut BackgroundTask<R, P>,
    delivered: bool,
    action: BackgroundAction<H>,
)
    requires
        call_ensures(
            BackgroundTask::<R, P>::step::<H>,
            (task, BackgroundEvent::Sent(delivered)),
            action,
        ),
        task@.state is Sending,
    ensures
        delivered ==> {
            &&& action is Receive
            &&& final(task)@.state is Receiving
            &&& final(task)@.rx == old(task)@.rx
        },
        !delivered ==> {
            &&& action matches BackgroundAction::Exit(Err(
                FileReconstructionError::InternalWriterError(message),
            ))
            &&& message@ == "Output channel closed"@
            &&& final(task)@.state is Done
            &&& final(task)@.rx is None
        },
{
}

/// A term goes through the task: the item's own task is joined, its data is
/// sent, its permit is held all the while, and then the next item is received
/// from the same queue.
pub proof fn law_term_goes_through<H, R, P>(
    at_queue: &mut BackgroundTask<R, P>,
    item: QueueItem<H, P>,
    join: BackgroundAction<H>,
    at_join: &mut BackgroundTask<R, P>,
    chunk: Bytes,
    send: BackgroundAction<H>,
    at_send: &mut BackgroundTask<R, P>,
    receive: BackgroundAction<H>,
)
    requires
        at_queue@.state is Receiving,
        call_ensures(
            BackgroundTask::<R, P>::step::<H>,
            (at_queue, BackgroundEvent::Received(Some(item))),
            join,
        ),
        *final(at_queue) == *old(at_join),
        call_ensures(
            BackgroundTask::<R, P>::step::<H>,
            (at_join, BackgroundEvent::Joined(Ok(Ok(chunk)))),
            send,
        ),
        *final(at_join) == *old(at_send),
        call_ensures(
            BackgroundTask::<R, P>::step::<H>,
            (at_send, BackgroundEvent::Sent(true)),
            receive,
        ),
    ensures
        join == BackgroundAction::Join(item.handle),
        send == BackgroundAction::<H>::Send(chunk),
        receive is Receive,
        final(at_queue)@.state.permit() == item.permit,
        final(at_join)@.state.permit() == item.permit,
        final(at_send)@ == old(at_queue)@,
{
}

/// What is written to a channel writer is handed, all of it and in order, to
/// the channel that the writer was made for. The write reports all of it as
/// written exactly when the channel took it, and a broken pipe otherwise.
pub proof fn law_write_sends_everything<S>(
    sender: S,
    writer: ChannelWriter<S>,
    buf: &[u8],
    message: (&S, Bytes),
    sent: bool,
    result: Result<usize, WriteError>,
    flushed: Result<(), WriteError>,
)
    requires
        call_ensures(ChannelWriter::<S>::new, (sender,), writer),
        call_ensures(ChannelWriter::<S>::write, (&writer, buf), message),
        call_ensures(written, (buf, sent), result),
        call_ensures(ChannelWriter::<S>::flush, (&writer,), flushed),
    ensures
        *message.0 == sender,
        chunk_bytes(message.1) == buf@,
        result is Ok <==> sent,
        result matches Ok(n) ==> n == chunk_bytes(message.1).len(),
        result matches Err(error) ==> error.kind is BrokenPipe && error.message@
            == "channel closed"@,
        flushed is Ok,
{
}

} // verus!
