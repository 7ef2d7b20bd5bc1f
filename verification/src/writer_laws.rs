//! What holds of a streaming writer over all its terms, and of a file that
//! goes through a writer and a reader.

use bytes::Bytes;
use vstd::prelude::*;

use crate::backend::Backend;
use crate::background::{
    join_failure, output_closed, ActionView, BackgroundEvent, BackgroundState, BackgroundView,
    JoinedData, QueueItem,
};
use crate::chunk::{chunk_bytes, concat};
use crate::error::{FileReconstructionError, ReconstructionFailure};
use crate::file_range::FileRange;
use crate::reader::ReaderState;
use crate::reader_laws::{
    delivers, ended, law_chunks_in_order, law_ended_stream_is_complete, no_error, taken, yielded,
    PollAnswers,
};
use crate::streaming_writer::{already_finished, check_term_data, fits, WriterView};
use crate::upload::{
    given_to_cleaner, law_writes_reach_the_cleaner, written_data, UploadView, WrittenChunk,
};

verus! {

/// The writer after it has taken these terms in order; none if it refuses one.
pub open spec fn after_terms<H, P, J>(
    writer: WriterView<H, P, J>,
    ranges: Seq<FileRange>,
) -> Option<WriterView<H, P, J>>
    decreases ranges.len(),
{
    if ranges.len() == 0 {
        Some(writer)
    } else {
        match after_terms(writer, ranges.drop_last()) {
            Some(before) => match before.after_term(ranges.last()) {
                Ok(after) => Some(after),
                Err(_) => None,
            },
            None => None,
        }
    }
}

/// The number of bytes of terms with these ranges.
pub open spec fn total(ranges: Seq<FileRange>) -> int
    decreases ranges.len(),
{
    if ranges.len() == 0 {
        0
    } else {
        total(ranges.drop_last()) + (ranges.last().end - ranges.last().start)
    }
}

/// Whether ranges follow each other without gap or overlap, from position 0 on.
pub open spec fn tiles(ranges: Seq<FileRange>) -> bool {
    &&& ranges.len() > 0 ==> ranges[0].start == 0
    &&& forall|i: int, j: int|
        0 <= i && j == i + 1 && j < ranges.len() ==> (#[trigger] ranges[i]).end == (
        #[trigger] ranges[j]).start
}

/// The position behind the last of these ranges.
pub open spec fn end_of(ranges: Seq<FileRange>) -> u64 {
    if ranges.len() == 0 {
        0
    } else {
        ranges.last().end
    }
}

/// Ranges tile when all but the last do and the last starts behind them.
proof fn lemma_tiles_last(ranges: Seq<FileRange>)
    requires
        ranges.len() > 0,
    ensures
        tiles(ranges) <==> tiles(ranges.drop_last()) && ranges.last().start == end_of(
            ranges.drop_last(),
        ),
{
    let before = ranges.drop_last();
    let last = ranges.len() - 1;
    assert(forall|i: int| 0 <= i < last ==> #[trigger] ranges[i] == before[i]);
    if tiles(ranges) {
        assert forall|i: int, j: int| 0 <= i && j == i + 1 && j < before.len() implies (
        #[trigger] before[i]).end == (#[trigger] before[j]).start by {
            assert(ranges[i].end == ranges[j].start);
        }
        if last > 0 {
            assert(ranges[last - 1].end == ranges[last].start);
        }
    }
    if tiles(before) && ranges.last().start == end_of(before) {
        assert forall|i: int, j: int| 0 <= i && j == i + 1 && j < ranges.len() implies (
        #[trigger] ranges[i]).end == (#[trigger] ranges[j]).start by {
            if j < last {
                assert(before[i].end == before[j].start);
            }
        }
    }
}

/// A new writer takes exactly the terms that tile the file, and then stands
/// behind the last of them, with all their bytes counted.
pub proof fn law_terms_tile_the_file<H, P, J>(
    writer: WriterView<H, P, J>,
    ranges: Seq<FileRange>,
)
    requires
        writer.state is Open,
        writer.next_position == 0,
    ensures
        after_terms(writer, ranges) is Some <==> tiles(ranges),
        after_terms(writer, ranges) matches Some(after) ==> {
            &&& after.state == writer.state
            &&& after.next_position == end_of(ranges)
            &&& after.next_position == total(ranges)
        },
    decreases ranges.len(),
{
    if ranges.len() > 0 {
        law_terms_tile_the_file(writer, ranges.drop_last());
        lemma_tiles_last(ranges);
    }
}

/// Finishing succeeds exactly when the writer is open, wherever it stands, and
/// only closes it.
pub proof fn law_finish_succeeds_when_open<H, P, J>(writer: WriterView<H, P, J>)
    ensures
        writer.state is Open <==> writer.after_finish() is Ok,
        writer.after_finish() matches Ok(after) ==> after.state is Finished && after.next_position
            == writer.next_position,
{
}

/// A new writer that was given tiling terms can be finished, and then reports
/// the number of bytes of all of them.
pub proof fn law_finish_reports_the_total<H, P, J>(
    writer: WriterView<H, P, J>,
    ranges: Seq<FileRange>,
)
    requires
        writer.state is Open,
        writer.next_position == 0,
        tiles(ranges),
    ensures
        after_terms(writer, ranges) matches Some(after) && after.after_finish() matches Ok(finished)
            && finished.next_position == total(ranges),
{
    law_terms_tile_the_file(writer, ranges);
}

/// Once finished, a writer takes no term, whatever its range, and cannot be
/// finished again.
pub proof fn law_finished_for_good<H, P, J>(
    writer: WriterView<H, P, J>,
    byte_range: FileRange,
)
    ensures
        writer.after_finish() matches Ok(after) ==> {
            &&& after.after_term(byte_range) == Err::<WriterView<H, P, J>, _>(already_finished())
            &&& after.after_finish() == Err::<WriterView<H, P, J>, _>(already_finished())
        },
{
}

/// What the surroundings of the background task answer for one queued term.
pub struct TermOutcome<H, P> {
    pub item: QueueItem<H, P>,
    pub joined: JoinedData,
    /// Whether the output channel took the term's data.
    pub delivered: bool,
}

/// How many more actions may follow an action within one term.
pub open spec fn term_rank<H>(action: ActionView<H>) -> nat {
    match action {
        ActionView::Receive => 3,
        ActionView::Join(_) => 2,
        ActionView::Send(_) => 1,
        ActionView::Exit(_) => 0,
    }
}

/// The rest of a background task that has come to `action`, with these terms
/// left: the chunks that the output channel takes, and the task's result.
pub open spec fn forward<H, P>(
    state: BackgroundState<P>,
    action: ActionView<H>,
    terms: Seq<TermOutcome<H, P>>,
) -> (Seq<Bytes>, Result<(), ReconstructionFailure>)
    decreases terms.len(), term_rank(action),
{
    match action {
        ActionView::Receive => {
            let received = if terms.len() == 0 {
                None
            } else {
                Some(terms[0].item)
            };
            let (next, then) = state.step(BackgroundEvent::Received(received));
            forward(next, then, terms)
        },
        ActionView::Join(_) => {
            let (next, then) = state.step(BackgroundEvent::<H, P>::Joined(terms[0].joined));
            forward(next, then, terms)
        },
        ActionView::Send(chunk) => {
            let delivered = terms.len() > 0 && terms[0].delivered;
            let (next, then) = state.step(BackgroundEvent::<H, P>::Sent(delivered));
            if delivered {
                let (sent, result) = forward(next, then, terms.drop_first());
                (seq![chunk] + sent, result)
            } else {
                forward(next, then, terms)
            }
        },
        ActionView::Exit(result) => (Seq::empty(), result),
    }
}

/// A background task from its start, over these terms.
pub open spec fn forwarded<H, P>(terms: Seq<TermOutcome<H, P>>) -> (
    Seq<Bytes>,
    Result<(), ReconstructionFailure>,
) {
    forward(BackgroundState::Receiving, ActionView::Receive, terms)
}

/// Why forwarding stops at a term.
pub open spec fn failure<H, P>(term: TermOutcome<H, P>) -> ReconstructionFailure {
    match term.joined {
        Ok(Ok(_)) => output_closed(),
        Ok(Err(error)) => error@,
        Err(reason) => join_failure(reason@),
    }
}

/// The background task forwards the data of the terms in the order in which
/// they were queued, whenever each became available. It stops at the first
/// term whose data is missing or not taken, with that term's failure, and
/// succeeds when there is none.
pub proof fn law_forwarded_in_order<H, P>(terms: Seq<TermOutcome<H, P>>)
    ensures
        ({
            let (sent, result) = forwarded(terms);
            &&& sent.len() <= terms.len()
            &&& forall|i: int|
                0 <= i < sent.len() ==> (#[trigger] terms[i]).joined == JoinedData::Ok(Ok(sent[i]))
                    && terms[i].delivered
            &&& sent.len() == terms.len() ==> result is Ok
            &&& sent.len() < terms.len() ==> {
                let stopped = terms[sent.len() as int];
                &&& result == Err::<(), _>(failure(stopped))
                &&& !(stopped.joined matches Ok(Ok(_)) && stopped.delivered)
            }
        }),
    decreases terms.len(),
{
    reveal_with_fuel(forward, 4);
    if terms.len() > 0 {
        let rest = terms.drop_first();
        law_forwarded_in_order(rest);
        if terms[0].joined matches Ok(Ok(_)) && terms[0].delivered {
            let (sent, result) = forwarded(terms);
            assert(sent =~= seq![terms[0].joined->Ok_0->Ok_0] + forwarded(rest).0);
            assert(forall|i: int| 0 < i < terms.len() ==> terms[i] == rest[i - 1]);
            assert forall|i: int| 0 <= i < sent.len() implies (#[trigger] terms[i]).joined
                == JoinedData::Ok(Ok(sent[i])) && terms[i].delivered by {
                if i > 0 {
                    assert(terms[i] == rest[i - 1]);
                }
            }
        }
    }
}

/// The background task after a series of events.
pub open spec fn after_events<H, R, P>(
    task: BackgroundView<R, P>,
    events: Seq<BackgroundEvent<H, P>>,
) -> BackgroundView<R, P>
    decreases events.len(),
{
    if events.len() == 0 {
        task
    } else {
        after_events(task, events.drop_last()).step(events.last()).0
    }
}

/// Whether each event of a series can happen when it comes.
pub open spec fn can_happen<H, R, P>(
    task: BackgroundView<R, P>,
    events: Seq<BackgroundEvent<H, P>>,
) -> bool
    decreases events.len(),
{
    events.len() > 0 ==> {
        &&& can_happen(task, events.drop_last())
        &&& after_events(task, events.drop_last()).state.expects(events.last())
    }
}

/// What the background task asked for last, before and after a series of
/// events.
pub open spec fn last_action<H, R, P>(
    task: BackgroundView<R, P>,
    events: Seq<BackgroundEvent<H, P>>,
) -> ActionView<H> {
    if events.len() == 0 {
        ActionView::Receive
    } else {
        after_events(task, events.drop_last()).step(events.last()).1
    }
}

/// Whether an event is what comes of doing an action.
pub open spec fn comes_of<H, P>(event: BackgroundEvent<H, P>, action: ActionView<H>) -> bool {
    match action {
        ActionView::Receive => event is Received,
        ActionView::Join(_) => event is Joined,
        ActionView::Send(_) => event is Sent,
        ActionView::Exit(_) => false,
    }
}

/// Whether each event of a series comes of what the task asked for just before.
pub open spec fn performed<H, R, P>(
    task: BackgroundView<R, P>,
    events: Seq<BackgroundEvent<H, P>>,
) -> bool
    decreases events.len(),
{
    events.len() > 0 ==> {
        &&& performed(task, events.drop_last())
        &&& comes_of(events.last(), last_action(task, events.drop_last()))
    }
}

/// The background task can always go on: as long as what it asks for is done,
/// whatever comes of it, each event can happen when it comes. While it asks for
/// more it holds its queue, where it asks for data or sends it is busy with an
/// item, and it has ended exactly when it asks to exit.
pub proof fn law_background_goes_on<H, R, P>(
    task: BackgroundView<R, P>,
    events: Seq<BackgroundEvent<H, P>>,
)
    requires
        task.state is Receiving,
        performed(task, events),
    ensures
        can_happen(task, events),
        forall|event: BackgroundEvent<H, P>|
            comes_of(event, last_action(task, events)) ==> after_events(
                task,
                events,
            ).state.expects(event),
        ({
            let after = after_events(task, events);
            match last_action(task, events) {
                ActionView::Receive => after.state is Receiving && after.rx == task.rx,
                ActionView::Join(_) => after.state is Joining && after.rx == task.rx,
                ActionView::Send(_) => after.state is Sending && after.rx == task.rx,
                ActionView::Exit(_) => after.state is Done && after.rx is None,
            }
        }),
    decreases events.len(),
{
    if events.len() > 0 {
        law_background_goes_on(task, events.drop_last());
    }
}

/// The permits of the items that a series of events brings, in order.
pub open spec fn permits_received<H, P>(events: Seq<BackgroundEvent<H, P>>) -> Seq<Option<P>>
    decreases events.len(),
{
    if events.len() == 0 {
        Seq::empty()
    } else {
        let before = permits_received(events.drop_last());
        match events.last() {
            BackgroundEvent::Received(Some(item)) => before.push(item.permit),
            _ => before,
        }
    }
}

/// The permits that the task lets go of over a series of events, in order.
pub open spec fn permits_released<H, R, P>(
    task: BackgroundView<R, P>,
    events: Seq<BackgroundEvent<H, P>>,
) -> Seq<Option<P>>
    decreases events.len(),
{
    if events.len() == 0 {
        Seq::empty()
    } else {
        let released = permits_released(task, events.drop_last());
        let before = after_events(task, events.drop_last());
        if before.state.busy() && !after_events(task, events).state.busy() {
            released.push(before.state.permit())
        } else {
            released
        }
    }
}

/// While the background task runs, it lets a permit go only when the output
/// channel has taken the data of that permit's item.
pub proof fn law_permit_held_until_forwarded<H, R, P>(
    task: BackgroundView<R, P>,
    event: BackgroundEvent<H, P>,
)
    requires
        task.state.expects(event),
    ensures
        event matches BackgroundEvent::Received(Some(item)) ==> task.step(event).0.state.permit()
            == item.permit,
        task.state.busy() && task.step(event).0.state.busy() ==> task.step(event).0.state.permit()
            == task.state.permit(),
        task.state.busy() && !task.step(event).0.state.busy() ==> event == BackgroundEvent::<
            H,
            P,
        >::Sent(true) || task.step(event).0.state is Done,
{
}

/// No permit leaks. At any time, the permits that the background task has
/// received are those that it has let go, each once and in order, and that of
/// the item it is busy with. Once it has ended, successfully or not, it has let
/// all of them go, and the queue too, with the items that are still in it.
pub proof fn law_permits_all_released<H, R, P>(
    task: BackgroundView<R, P>,
    events: Seq<BackgroundEvent<H, P>>,
)
    requires
        task.state is Receiving,
        can_happen(task, events),
    ensures
        ({
            let after = after_events(task, events);
            let held = if after.state.busy() {
                seq![after.state.permit()]
            } else {
                Seq::empty()
            };
            &&& permits_received(events) == permits_released(task, events) + held
            &&& after.state is Done ==> after.rx is None && permits_received(events)
                == permits_released(task, events)
            &&& after.state !is Done ==> after.rx == task.rx
        }),
    decreases events.len(),
{
    if events.len() > 0 {
        law_permits_all_released(task, events.drop_last());
    }
}

/// Whether each chunk stands at the range of its term in the whole content.
pub open spec fn in_place(ranges: Seq<FileRange>, chunks: Seq<Bytes>, content: Seq<u8>) -> bool {
    &&& chunks.len() == ranges.len()
    &&& content.len() == end_of(ranges)
    &&& forall|i: int|
        0 <= i < ranges.len() ==> {
            &&& 0 <= (#[trigger] ranges[i]).start <= ranges[i].end <= content.len()
            &&& content.subrange(ranges[i].start as int, ranges[i].end as int) == chunk_bytes(
                chunks[i],
            )
        }
}

/// Chunks of the sizes of tiling ranges, one after the other, stand in place.
proof fn lemma_concat_in_place(ranges: Seq<FileRange>, chunks: Seq<Bytes>)
    requires
        tiles(ranges),
        chunks.len() == ranges.len(),
        forall|i: int|
            0 <= i < ranges.len() ==> (#[trigger] ranges[i]).start <= ranges[i].end && chunk_bytes(
                chunks[i],
            ).len() == ranges[i].end - ranges[i].start,
    ensures
        in_place(ranges, chunks, concat(chunks)),
    decreases ranges.len(),
{
    if ranges.len() > 0 {
        let ranges_before = ranges.drop_last();
        let chunks_before = chunks.drop_last();
        let last = ranges.len() - 1;
        lemma_tiles_last(ranges);
        assert forall|i: int| 0 <= i < ranges_before.len() implies (
        #[trigger] ranges_before[i]).start <= ranges_before[i].end && chunk_bytes(
            chunks_before[i],
        ).len() == ranges_before[i].end - ranges_before[i].start by {
            assert(ranges_before[i] == ranges[i]);
        }
        lemma_concat_in_place(ranges_before, chunks_before);
        let content = concat(chunks);
        assert(ranges[last].start <= ranges[last].end);
        assert forall|i: int| 0 <= i < ranges.len() implies {
            &&& 0 <= (#[trigger] ranges[i]).start <= ranges[i].end <= content.len()
            &&& content.subrange(ranges[i].start as int, ranges[i].end as int) == chunk_bytes(
                chunks[i],
            )
        } by {
            if i < last {
                assert(ranges_before[i] == ranges[i]);
                assert(content.subrange(ranges[i].start as int, ranges[i].end as int)
                    =~= concat(chunks_before).subrange(
                    ranges[i].start as int,
                    ranges[i].end as int,
                ));
            } else {
                assert(content.subrange(ranges[i].start as int, ranges[i].end as int)
                    =~= chunk_bytes(chunks[i]));
            }
        }
    }
}

/// Where a writer's background task succeeds, the chunks that it has sent make
/// up the whole file: as many bytes as finishing the writer reports, with the
/// data of each term at the range that the term was given.
pub proof fn law_terms_arrive_in_place<H, P, J>(
    writer: WriterView<H, P, J>,
    ranges: Seq<FileRange>,
    terms: Seq<TermOutcome<H, P>>,
)
    requires
        writer.state is Open,
        writer.next_position == 0,
        after_terms(writer, ranges) is Some,
        terms.len() == ranges.len(),
        forall|i: int|
            0 <= i < ranges.len() ==> {
                &&& (#[trigger] ranges[i]).start <= ranges[i].end
                &&& terms[i].joined matches Ok(data) ==> fits(
                    (ranges[i].end - ranges[i].start) as u64,
                    data,
                )
            },
        forwarded(terms).1 is Ok,
    ensures
        in_place(ranges, forwarded(terms).0, concat(forwarded(terms).0)),
        concat(forwarded(terms).0).len() == after_terms(writer, ranges)->0.next_position,
        forall|i: int|
            0 <= i < terms.len() ==> (#[trigger] terms[i]).joined == JoinedData::Ok(
                Ok(forwarded(terms).0[i]),
            ),
{
    let sent = forwarded(terms).0;
    law_terms_tile_the_file(writer, ranges);
    law_forwarded_in_order(terms);
    assert forall|i: int| 0 <= i < ranges.len() implies (#[trigger] ranges[i]).start
        <= ranges[i].end && chunk_bytes(sent[i]).len() == ranges[i].end - ranges[i].start by {
        assert(terms[i].joined == JoinedData::Ok(Ok(sent[i])));
    }
    lemma_concat_in_place(ranges, sent);
}

/// Terms that tile a file, whose fetched data has the lengths of their ranges
/// and is taken by the output channel, make up the file: the writer takes them
/// all and can be finished with their number of bytes, the background task
/// sends the data as it was fetched and succeeds, and the data of each term
/// stands at its range.
pub proof fn law_right_sizes_make_the_file<H, P, J>(
    writer: WriterView<H, P, J>,
    ranges: Seq<FileRange>,
    data: Seq<Bytes>,
    checked: Seq<Result<Bytes, FileReconstructionError>>,
    terms: Seq<TermOutcome<H, P>>,
)
    requires
        writer.state is Open,
        writer.next_position == 0,
        tiles(ranges),
        data.len() == ranges.len(),
        checked.len() == ranges.len(),
        terms.len() == ranges.len(),
        forall|i: int|
            0 <= i < ranges.len() ==> {
                &&& (#[trigger] ranges[i]).start <= ranges[i].end
                &&& chunk_bytes(data[i]).len() == ranges[i].end - ranges[i].start
                &&& call_ensures(
                    check_term_data,
                    ((ranges[i].end - ranges[i].start) as u64, Ok(data[i])),
                    checked[i],
                )
                &&& terms[i].joined == JoinedData::Ok(checked[i])
                &&& terms[i].delivered
            },
    ensures
        after_terms(writer, ranges) matches Some(after) && after.after_finish() matches Ok(finished)
            && finished.next_position == concat(data).len(),
        forwarded(terms).0 == data,
        forwarded(terms).1 is Ok,
        in_place(ranges, data, concat(data)),
{
    law_finish_reports_the_total(writer, ranges);
    law_terms_tile_the_file(writer, ranges);
    law_forwarded_in_order(terms);
    let sent = forwarded(terms).0;
    assert forall|i: int| 0 <= i < terms.len() implies (#[trigger] terms[i]).joined
        == JoinedData::Ok(Ok(data[i])) && terms[i].delivered by {
        assert(ranges[i].start <= ranges[i].end);
    }
    assert(sent.len() == terms.len()) by {
        if sent.len() < terms.len() {
            assert(terms[sent.len() as int].delivered);
        }
    }
    assert forall|i: int| 0 <= i < data.len() implies sent[i] == data[i] by {
        assert(terms[i].joined == JoinedData::Ok(Ok(sent[i])));
    }
    assert(sent =~= data);
    lemma_concat_in_place(ranges, data);
}

/// Where the fetched data of a term does not have the length of its range, or
/// could not be fetched, the background task fails and sends nothing from that
/// term on.
pub proof fn law_wrong_size_fails_the_file<H, P>(
    expected_size: u64,
    data: Result<Bytes, FileReconstructionError>,
    checked: Result<Bytes, FileReconstructionError>,
    terms: Seq<TermOutcome<H, P>>,
    i: int,
)
    requires
        0 <= i < terms.len(),
        call_ensures(check_term_data, (expected_size, data), checked),
        terms[i].joined == JoinedData::Ok(checked),
        data matches Ok(chunk) ==> chunk_bytes(chunk).len() != expected_size,
    ensures
        forwarded(terms).1 is Err,
        forwarded(terms).0.len() <= i,
{
    law_forwarded_in_order(terms);
    let sent = forwarded(terms).0;
    if i < sent.len() {
        assert(terms[i].joined == JoinedData::Ok(Ok(sent[i])));
    }
}

/// Through a writer whose background task succeeds and a reader that takes all
/// that was sent out of the channel, the file comes out whole: what the reader
/// yields holds the data of each term at the range that the term was given.
pub proof fn law_reader_yields_what_was_written<H, P, J, B: Backend>(
    writer: WriterView<H, P, J>,
    ranges: Seq<FileRange>,
    terms: Seq<TermOutcome<H, P>>,
    reader: ReaderState<B>,
    polls: Seq<PollAnswers<B>>,
)
    requires
        writer.state is Open,
        writer.next_position == 0,
        after_terms(writer, ranges) is Some,
        terms.len() == ranges.len(),
        forall|i: int|
            0 <= i < ranges.len() ==> {
                &&& (#[trigger] ranges[i]).start <= ranges[i].end
                &&& terms[i].joined matches Ok(data) ==> fits(
                    (ranges[i].end - ranges[i].start) as u64,
                    data,
                )
            },
        forwarded(terms).1 is Ok,
        taken(reader, polls) == forwarded(terms).0,
    ensures
        in_place(ranges, yielded(reader, polls), concat(yielded(reader, polls))),
        forall|i: int|
            0 <= i < terms.len() ==> (#[trigger] terms[i]).joined == JoinedData::Ok(
                Ok(yielded(reader, polls)[i]),
            ),
{
    law_terms_arrive_in_place(writer, ranges, terms);
    law_chunks_in_order(reader, polls);
}

/// The bytes of the first chunks are the first bytes of all chunks.
proof fn lemma_concat_prefix(chunks: Seq<Bytes>, n: int)
    requires
        0 <= n <= chunks.len(),
    ensures
        concat(chunks.take(n)).is_prefix_of(concat(chunks)),
    decreases chunks.len() - n,
{
    if n == chunks.len() {
        assert(chunks.take(n) =~= chunks);
    } else {
        lemma_concat_prefix(chunks, n + 1);
        assert(chunks.take(n + 1).drop_last() =~= chunks.take(n));
    }
}

/// At any time, what a reader has yielded is the beginning of what was sent to
/// it, as long as it has taken the first of the sent chunks out of the channel.
pub proof fn law_yielded_is_a_beginning<B: Backend>(
    sent: Seq<Bytes>,
    reader: ReaderState<B>,
    polls: Seq<PollAnswers<B>>,
)
    requires
        taken(reader, polls).is_prefix_of(sent),
    ensures
        concat(yielded(reader, polls)).is_prefix_of(concat(sent)),
{
    law_chunks_in_order(reader, polls);
    let n = taken(reader, polls).len() as int;
    assert(taken(reader, polls) =~= sent.take(n));
    lemma_concat_prefix(sent, n);
}

/// The part of a file that a download asks for.
pub open spec fn requested(content: Seq<u8>, file_range: Option<FileRange>) -> Seq<u8> {
    match file_range {
        Some(range) => content.subrange(range.start as int, range.end as int),
        None => content,
    }
}

/// A download gives back the upload, whole or the range that was asked for,
/// however the content was split into writes and chunks, once the stream has
/// come to its end without an error. The store in between is to do its part:
/// what it sends for the file is the asked part of what the file's cleaner was
/// given.
pub proof fn law_download_gives_back_the_upload<B: Backend>(
    writer: UploadView<B>,
    writes: Seq<WrittenChunk<B>>,
    file_range: Option<FileRange>,
    sent: Seq<Bytes>,
    reader: ReaderState<B>,
    polls: Seq<PollAnswers<B>>,
)
    requires
        writer.handle is Some,
        concat(sent) == requested(concat(given_to_cleaner(writer, writes)), file_range),
        reader is Init || reader.holds_task(),
        delivers(reader, polls, sent),
        no_error(reader, polls),
        ended(reader, polls),
    ensures
        concat(yielded(reader, polls)) == requested(concat(written_data(writes)), file_range),
{
    law_writes_reach_the_cleaner(writer, writes);
    law_ended_stream_is_complete(reader, polls, sent);
}

} // verus!
