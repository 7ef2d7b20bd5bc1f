//! What holds of a stream of chunks over whole polls and whole downloads.

use bytes::Bytes;
use vstd::prelude::*;

use crate::backend::Backend;
use crate::chunk::concat;
use crate::error::DataProcessingError;
use crate::reader::{
    download_ended, task_result, Polled, ReaderAction, ReaderEvent, ReaderState, StreamItem, TaskResult,
};

verus! {

/// What the surroundings of a reader answer during one poll of its stream, if
/// they are asked.
pub struct PollAnswers<B: Backend> {
    /// The channel and the task handle that starting the download gives.
    pub rx: B::Receiver,
    pub handle: B::DownloadTask,
    /// The answers to polling the task, the channel, and the task once more.
    pub task: Polled<TaskResult>,
    pub channel: Polled<Option<Bytes>>,
    pub recheck: Polled<TaskResult>,
}

/// How many more actions may follow an action within one poll.
pub open spec fn rank(action: ReaderAction) -> nat {
    match action {
        ReaderAction::Start => 4,
        ReaderAction::PollTask => 3,
        ReaderAction::PollChannel => 2,
        ReaderAction::RecheckTask => 1,
        ReaderAction::Return(_) => 0,
    }
}

/// The state and the action that follow once `action` was performed with these
/// answers.
pub open spec fn perform<B: Backend>(
    state: ReaderState<B>,
    action: ReaderAction,
    answers: PollAnswers<B>,
) -> (ReaderState<B>, ReaderAction) {
    match action {
        ReaderAction::Start => ReaderState::<B>::Streaming {
            rx: answers.rx,
            handle: Some(answers.handle),
        }.step(ReaderEvent::Poll),
        ReaderAction::PollTask => state.step(ReaderEvent::TaskPolled(answers.task)),
        ReaderAction::PollChannel => state.step(ReaderEvent::ChannelPolled(answers.channel)),
        ReaderAction::RecheckTask => state.step(ReaderEvent::TaskRechecked(answers.recheck)),
        ReaderAction::Return(_) => (state, action),
    }
}

/// The rest of a poll that has come to `action`: the state it leaves and its answer.
pub open spec fn follow<B: Backend>(
    state: ReaderState<B>,
    action: ReaderAction,
    answers: PollAnswers<B>,
) -> (ReaderState<B>, Polled<Option<StreamItem>>)
    decreases rank(action),
{
    match action {
        ReaderAction::Return(answer) => (state, answer),
        _ => {
            let (next, then) = perform(state, action, answers);
            follow(next, then, answers)
        },
    }
}

/// The actions of the rest of a poll that has come to `action`, that one first.
pub open spec fn actions<B: Backend>(
    state: ReaderState<B>,
    action: ReaderAction,
    answers: PollAnswers<B>,
) -> Seq<ReaderAction>
    decreases rank(action),
{
    match action {
        ReaderAction::Return(_) => seq![action],
        _ => {
            let (next, then) = perform(state, action, answers);
            seq![action] + actions(next, then, answers)
        },
    }
}

/// One poll of the stream: the state it leaves and its answer.
pub open spec fn poll<B: Backend>(state: ReaderState<B>, answers: PollAnswers<B>) -> (
    ReaderState<B>,
    Polled<Option<StreamItem>>,
) {
    let (next, action) = state.step(ReaderEvent::Poll);
    follow(next, action, answers)
}

/// Everything that one poll of the stream asks for.
pub open spec fn asked<B: Backend>(state: ReaderState<B>, answers: PollAnswers<B>) -> Seq<
    ReaderAction,
> {
    let (next, action) = state.step(ReaderEvent::Poll);
    actions(next, action, answers)
}

/// What the download task reported during one poll of the stream, if it was
/// polled and was done.
pub open spec fn task_report<B: Backend>(
    state: ReaderState<B>,
    answers: PollAnswers<B>,
) -> Option<TaskResult> {
    if asked(state, answers).contains(ReaderAction::PollTask) && answers.task is Ready {
        Some(answers.task->Ready_0)
    } else if asked(state, answers).contains(ReaderAction::RecheckTask)
        && answers.recheck is Ready {
        Some(answers.recheck->Ready_0)
    } else {
        None
    }
}

/// What the channel answered during one poll of the stream, if it was polled.
pub open spec fn channel_report<B: Backend>(
    state: ReaderState<B>,
    answers: PollAnswers<B>,
) -> Option<Polled<Option<Bytes>>> {
    if asked(state, answers).contains(ReaderAction::PollChannel) {
        Some(answers.channel)
    } else {
        None
    }
}

/// The actions that one poll asks for, in each state and for all answers.
proof fn lemma_asked<B: Backend>(state: ReaderState<B>, answers: PollAnswers<B>)
    ensures
        asked(state, answers).contains(ReaderAction::Start) <==> state is Init,
        asked(state, answers).contains(ReaderAction::PollTask) <==> state is Init
            || state.holds_task(),
        asked(state, answers).contains(ReaderAction::PollChannel) <==> {
            ||| state is Streaming && !state.holds_task()
            ||| (state is Init || state.holds_task()) && !(answers.task matches Polled::Ready(
                Err(_),
            ))
        },
        asked(state, answers).contains(ReaderAction::RecheckTask) <==> {
            &&& state is Init || state.holds_task()
            &&& answers.task is Pending
            &&& answers.channel == Polled::<Option<Bytes>>::Ready(None)
        },
{
    reveal_with_fuel(actions, 5);
    let trace = asked(state, answers);
    if state is Init || state.holds_task() {
        let first: int = if state is Init { 1 } else { 0 };
        assert(state is Init ==> trace[0] == ReaderAction::Start);
        assert(trace[first] == ReaderAction::PollTask);
        if !(answers.task matches Polled::Ready(Err(_))) {
            assert(trace[first + 1] == ReaderAction::PollChannel);
            if answers.task is Pending && answers.channel == Polled::<Option<Bytes>>::Ready(None) {
                assert(trace[first + 2] == ReaderAction::RecheckTask);
            }
        }
    } else {
        assert(state is Streaming ==> trace[0] == ReaderAction::PollChannel);
    }
}

/// One poll, in each state and for all answers.
proof fn lemma_poll<B: Backend>(state: ReaderState<B>, answers: PollAnswers<B>)
    ensures
        ({
            let (after, item) = poll(state, answers);
            &&& after !is Init
            &&& (item matches Polled::Ready(Some(Ok(chunk))) ==> after is Streaming
                && channel_report(state, answers) == Some(Polled::Ready(Some(chunk))))
            &&& (channel_report(state, answers) matches Some(Polled::Ready(Some(chunk)))
                ==> item == Polled::<Option<StreamItem>>::Ready(Some(Ok(chunk))))
            &&& (item matches Polled::Ready(Some(Err(error))) ==> after is Completed
                && task_report(state, answers) == Some(TaskResult::Err(error)))
            &&& (task_report(state, answers) matches Some(Err(error)) ==> item == Polled::<
                Option<StreamItem>,
            >::Ready(Some(Err(error))))
            &&& (item == Polled::<Option<StreamItem>>::Ready(None) ==> after is Completed && {
                ||| state is Completed
                ||| channel_report(state, answers) == Some(Polled::<Option<Bytes>>::Ready(None))
            })
            &&& (item is Pending ==> after !is Completed)
            &&& (after is Completed ==> item matches Polled::Ready(None) || item matches Polled::Ready(
                Some(Err(_)),
            ))
            &&& (state is Completed ==> channel_report(state, answers) is None)
            &&& (after is Starting ==> state is Starting)
            &&& (after is Completed && state !is Completed ==> {
                ||| task_report(state, answers) is Some
                ||| !state.holds_task() && state is Streaming
            })
            &&& (task_report(state, answers) is Some ==> !after.holds_task())
            &&& (after is Streaming && !after.holds_task() && (state is Init
                || state.holds_task()) ==> task_report(state, answers) matches Some(Ok(_)))
            &&& (state is Streaming && !state.holds_task() ==> !after.holds_task())
            &&& (state is Completed ==> after is Completed && item == Polled::<
                Option<StreamItem>,
            >::Ready(None))
        }),
{
    reveal_with_fuel(follow, 5);
    lemma_asked(state, answers);
}

/// The state after a series of polls.
pub open spec fn state_after<B: Backend>(
    state: ReaderState<B>,
    polls: Seq<PollAnswers<B>>,
) -> ReaderState<B>
    decreases polls.len(),
{
    if polls.len() == 0 {
        state
    } else {
        poll(state_after(state, polls.drop_last()), polls.last()).0
    }
}

/// The state before poll `i` of a series.
pub open spec fn state_before<B: Backend>(
    state: ReaderState<B>,
    polls: Seq<PollAnswers<B>>,
    i: int,
) -> ReaderState<B> {
    state_after(state, polls.take(i))
}

/// The answer to poll `i` of a series.
pub open spec fn item<B: Backend>(
    state: ReaderState<B>,
    polls: Seq<PollAnswers<B>>,
    i: int,
) -> Polled<Option<StreamItem>> {
    poll(state_before(state, polls, i), polls[i]).1
}

/// The chunks that a series of polls yields.
pub open spec fn yielded<B: Backend>(
    state: ReaderState<B>,
    polls: Seq<PollAnswers<B>>,
) -> Seq<Bytes>
    decreases polls.len(),
{
    if polls.len() == 0 {
        Seq::empty()
    } else {
        let before = yielded(state, polls.drop_last());
        match poll(state_after(state, polls.drop_last()), polls.last()).1 {
            Polled::Ready(Some(Ok(chunk))) => before.push(chunk),
            _ => before,
        }
    }
}

/// The chunks that a series of polls takes out of the channel.
pub open spec fn taken<B: Backend>(
    state: ReaderState<B>,
    polls: Seq<PollAnswers<B>>,
) -> Seq<Bytes>
    decreases polls.len(),
{
    if polls.len() == 0 {
        Seq::empty()
    } else {
        let before = taken(state, polls.drop_last());
        match channel_report(state_after(state, polls.drop_last()), polls.last()) {
            Some(Polled::Ready(Some(chunk))) => before.push(chunk),
            _ => before,
        }
    }
}

/// The state before a poll comes from the state before the previous one.
proof fn lemma_state_before<B: Backend>(
    state: ReaderState<B>,
    polls: Seq<PollAnswers<B>>,
    i: int,
)
    requires
        0 <= i < polls.len(),
    ensures
        state_before(state, polls, i + 1) == poll(state_before(state, polls, i), polls[i]).0,
        state_before(state, polls, i + 1) !is Init,
        state_before(state, polls, i + 1) is Starting ==> state_before(
            state,
            polls,
            i,
        ) is Starting,
{
    assert(polls.take(i + 1).drop_last() =~= polls.take(i));
    lemma_poll(state_before(state, polls, i), polls[i]);
}

/// A completed reader stays completed.
proof fn lemma_stays_completed<B: Backend>(
    state: ReaderState<B>,
    polls: Seq<PollAnswers<B>>,
    i: int,
    j: int,
)
    requires
        0 <= i <= j <= polls.len(),
        state_before(state, polls, i) is Completed,
    ensures
        state_before(state, polls, j) is Completed,
    decreases j - i,
{
    if i < j {
        lemma_stays_completed(state, polls, i, j - 1);
        lemma_state_before(state, polls, j - 1);
        lemma_poll(state_before(state, polls, j - 1), polls[j - 1]);
    }
}

/// A started reader without a task handle stays without one.
proof fn lemma_stays_without_task<B: Backend>(
    state: ReaderState<B>,
    polls: Seq<PollAnswers<B>>,
    i: int,
    j: int,
)
    requires
        0 <= i <= j <= polls.len(),
        state_before(state, polls, i) !is Init,
        !state_before(state, polls, i).holds_task(),
    ensures
        state_before(state, polls, j) !is Init,
        !state_before(state, polls, j).holds_task(),
    decreases j - i,
{
    if i < j {
        lemma_stays_without_task(state, polls, i, j - 1);
        lemma_state_before(state, polls, j - 1);
        lemma_poll(state_before(state, polls, j - 1), polls[j - 1]);
    }
}

/// A reader that is polled from its start is never in the midst of starting
/// between polls.
proof fn lemma_not_starting<B: Backend>(
    state: ReaderState<B>,
    polls: Seq<PollAnswers<B>>,
    i: int,
)
    requires
        state !is Starting,
        0 <= i <= polls.len(),
    ensures
        state_before(state, polls, i) !is Starting,
    decreases i,
{
    if i > 0 {
        lemma_not_starting(state, polls, i - 1);
        lemma_state_before(state, polls, i - 1);
    }
}

/// A download without a task handle had its task report success.
proof fn lemma_without_task_succeeded<B: Backend>(
    state: ReaderState<B>,
    polls: Seq<PollAnswers<B>>,
    i: int,
)
    requires
        state is Init || state.holds_task(),
        0 <= i <= polls.len(),
        state_before(state, polls, i) is Streaming,
        !state_before(state, polls, i).holds_task(),
    ensures
        exists|k: int|
            0 <= k < i && #[trigger] task_report(state_before(state, polls, k), polls[k]) matches Some(
                Ok(_),
            ),
    decreases i,
{
    if i > 0 {
        let before = state_before(state, polls, i - 1);
        lemma_state_before(state, polls, i - 1);
        lemma_poll(before, polls[i - 1]);
        if before is Streaming && !before.holds_task() {
            lemma_without_task_succeeded(state, polls, i - 1);
        } else {
            assert(task_report(before, polls[i - 1]) matches Some(Ok(_)));
        }
    }
}

/// A reader yields exactly the chunks that it takes out of its channel, in the
/// channel's order: none is lost, made up, repeated or moved.
pub proof fn law_chunks_in_order<B: Backend>(state: ReaderState<B>, polls: Seq<PollAnswers<B>>)
    ensures
        yielded(state, polls) == taken(state, polls),
    decreases polls.len(),
{
    if polls.len() > 0 {
        law_chunks_in_order(state, polls.drop_last());
        lemma_poll(state_after(state, polls.drop_last()), polls.last());
    }
}

/// After an error, and after the end of the stream, every poll answers that
/// the stream has ended.
pub proof fn law_ended_for_good<B: Backend>(
    state: ReaderState<B>,
    polls: Seq<PollAnswers<B>>,
    i: int,
    j: int,
)
    requires
        0 <= i < j < polls.len(),
        item(state, polls, i) matches Polled::Ready(None) || item(
            state,
            polls,
            i,
        ) matches Polled::Ready(Some(Err(_))),
    ensures
        item(state, polls, j) == Polled::<Option<StreamItem>>::Ready(None),
{
    lemma_poll(state_before(state, polls, i), polls[i]);
    lemma_state_before(state, polls, i);
    lemma_stays_completed(state, polls, i + 1, j);
    lemma_poll(state_before(state, polls, j), polls[j]);
}

/// Once the download task has failed, the next poll yields its error, whatever
/// the channel still holds.
pub proof fn law_error_surfaces_early<B: Backend>(
    state: ReaderState<B>,
    answers: PollAnswers<B>,
)
    requires
        state is Init || state.holds_task(),
    ensures
        answers.task matches Polled::Ready(Err(error)) ==> poll(state, answers) == (
            ReaderState::<B>::Completed,
            Polled::<Option<StreamItem>>::Ready(Some(Err(error))),
        ),
{
    reveal_with_fuel(follow, 5);
}

/// The poll during which the download task reports a failure yields that
/// failure, and only such a poll yields one.
pub proof fn law_failures_are_yielded<B: Backend>(
    state: ReaderState<B>,
    answers: PollAnswers<B>,
    error: DataProcessingError,
)
    ensures
        task_report(state, answers) == Some(TaskResult::Err(error)) <==> poll(state, answers).1
            == Polled::Ready(Some(StreamItem::Err(error))),
{
    lemma_poll(state, answers);
}

/// A reader's stream ends without an error only when the channel is closed and
/// the download task has reported success.
pub proof fn law_end_means_success<B: Backend>(
    state: ReaderState<B>,
    polls: Seq<PollAnswers<B>>,
    i: int,
)
    requires
        state is Init || state.holds_task(),
        0 <= i < polls.len(),
        item(state, polls, i) matches Polled::Ready(None),
        forall|k: int|
            0 <= k < i ==> {
                &&& !(#[trigger] item(state, polls, k) matches Polled::Ready(None))
                &&& !(item(state, polls, k) matches Polled::Ready(Some(Err(_))))
            },
    ensures
        channel_report(state_before(state, polls, i), polls[i]) == Some(
            Polled::<Option<Bytes>>::Ready(None),
        ),
        exists|k: int|
            0 <= k <= i && #[trigger] task_report(
                state_before(state, polls, k),
                polls[k],
            ) matches Some(Ok(_)),
{
    let before = state_before(state, polls, i);
    lemma_not_starting(state, polls, i);
    if i > 0 {
        lemma_state_before(state, polls, i - 1);
        lemma_poll(state_before(state, polls, i - 1), polls[i - 1]);
        assert(!(item(state, polls, i - 1) matches Polled::Ready(None)));
    }
    lemma_poll(before, polls[i]);
    if task_report(before, polls[i]) is None {
        lemma_without_task_succeeded(state, polls, i);
    }
}

/// The download task is never polled again once it has reported its result.
pub proof fn law_task_not_polled_after_report<B: Backend>(
    state: ReaderState<B>,
    polls: Seq<PollAnswers<B>>,
    i: int,
    j: int,
)
    requires
        0 <= i < j < polls.len(),
        task_report(state_before(state, polls, i), polls[i]) is Some,
    ensures
        !asked(state_before(state, polls, j), polls[j]).contains(ReaderAction::PollTask),
        !asked(state_before(state, polls, j), polls[j]).contains(ReaderAction::RecheckTask),
{
    lemma_poll(state_before(state, polls, i), polls[i]);
    lemma_state_before(state, polls, i);
    lemma_stays_without_task(state, polls, i + 1, j);
    lemma_asked(state_before(state, polls, j), polls[j]);
}

/// Within one poll too, the download task is polled a second time only where
/// it had no result the first time.
pub proof fn law_task_rechecked_only_while_pending<B: Backend>(
    state: ReaderState<B>,
    answers: PollAnswers<B>,
)
    ensures
        asked(state, answers).contains(ReaderAction::RecheckTask) ==> answers.task is Pending,
{
    lemma_asked(state, answers);
}

/// A reader that was started is never again one that could be started.
pub proof fn law_started_for_good<B: Backend>(state: ReaderState<B>, event: ReaderEvent)
    ensures
        state !is Init ==> state.step(event).0 !is Init,
{
}

/// The download is lazy and starts once: the first poll of a new reader starts
/// it, no poll of a started or completed reader does, and no later poll does.
pub proof fn law_started_by_first_poll<B: Backend>(
    state: ReaderState<B>,
    polls: Seq<PollAnswers<B>>,
    i: int,
)
    requires
        0 <= i < polls.len(),
    ensures
        asked(state_before(state, polls, i), polls[i]).contains(ReaderAction::Start) <==> (i == 0
            && state is Init),
{
    assert(polls.take(0) =~= Seq::empty());
    if i > 0 {
        lemma_state_before(state, polls, i - 1);
    }
    lemma_asked(state_before(state, polls, i), polls[i]);
}

/// Whether the surroundings answer the same polls with the same results.
pub open spec fn same_answers<B: Backend>(a: PollAnswers<B>, b: PollAnswers<B>) -> bool {
    &&& a.task == b.task
    &&& a.channel == b.channel
    &&& a.recheck == b.recheck
}

/// Whether two states differ at most in whether the download has started and
/// in the channel and the handle that they hold.
spec fn alike<B: Backend>(a: ReaderState<B>, b: ReaderState<B>) -> bool {
    ||| (a is Init || a.holds_task()) && (b is Init || b.holds_task())
    ||| a is Streaming && !a.holds_task() && b is Streaming && !b.holds_task()
    ||| a is Completed && b is Completed
}

/// Alike states answer a poll alike.
proof fn lemma_poll_alike<B: Backend>(
    s: ReaderState<B>,
    t: ReaderState<B>,
    a: PollAnswers<B>,
    b: PollAnswers<B>,
)
    requires
        alike(s, t),
        same_answers(a, b),
    ensures
        alike(poll(s, a).0, poll(t, b).0),
        poll(s, a).1 == poll(t, b).1,
{
    reveal_with_fuel(follow, 5);
}

/// Alike states stay alike over a series of polls and yield the same.
proof fn lemma_series_alike<B: Backend>(
    s: ReaderState<B>,
    t: ReaderState<B>,
    p: Seq<PollAnswers<B>>,
    q: Seq<PollAnswers<B>>,
)
    requires
        alike(s, t),
        p.len() == q.len(),
        forall|i: int| 0 <= i < p.len() ==> same_answers(#[trigger] p[i], q[i]),
    ensures
        alike(state_after(s, p), state_after(t, q)),
        yielded(s, p) == yielded(t, q),
    decreases p.len(),
{
    if p.len() > 0 {
        assert forall|i: int| 0 <= i < p.drop_last().len() implies same_answers(
            #[trigger] p.drop_last()[i],
            q.drop_last()[i],
        ) by {
            assert(same_answers(p[i], q[i]));
        }
        lemma_series_alike(s, t, p.drop_last(), q.drop_last());
        assert(same_answers(p[p.len() - 1], q[q.len() - 1]));
        lemma_poll_alike(
            state_after(s, p.drop_last()),
            state_after(t, q.drop_last()),
            p.last(),
            q.last(),
        );
    }
}

/// The first poll of a new reader does what it would do had the same download
/// been started before, and leaves the reader in the same state.
pub proof fn law_first_poll_starts_and_polls<B: Backend>(
    state: ReaderState<B>,
    answers: PollAnswers<B>,
)
    requires
        state is Init,
    ensures
        poll(state, answers) == poll(
            ReaderState::<B>::Streaming { rx: answers.rx, handle: Some(answers.handle) },
            answers,
        ),
{
    reveal_with_fuel(follow, 5);
}

/// Starting by hand changes only when the download begins. Of two readers, new
/// or just started, whose surroundings answer each poll alike, every poll gets
/// the same item, and both yield the same chunks.
pub proof fn law_start_changes_only_the_time<B: Backend>(
    state: ReaderState<B>,
    other: ReaderState<B>,
    polls: Seq<PollAnswers<B>>,
    other_polls: Seq<PollAnswers<B>>,
)
    requires
        state is Init || state.holds_task(),
        other is Init || other.holds_task(),
        polls.len() == other_polls.len(),
        forall|i: int|
            0 <= i < polls.len() ==> same_answers(#[trigger] polls[i], other_polls[i]),
    ensures
        forall|i: int|
            0 <= i < polls.len() ==> #[trigger] item(state, polls, i) == item(
                other,
                other_polls,
                i,
            ),
        yielded(state, polls) == yielded(other, other_polls),
{
    lemma_series_alike(state, other, polls, other_polls);
    assert forall|i: int| 0 <= i < polls.len() implies #[trigger] item(state, polls, i) == item(
        other,
        other_polls,
        i,
    ) by {
        let before = polls.take(i);
        let other_before = other_polls.take(i);
        assert forall|k: int| 0 <= k < before.len() implies same_answers(
            #[trigger] before[k],
            other_before[k],
        ) by {
            assert(same_answers(polls[k], other_polls[k]));
        }
        lemma_series_alike(state, other, before, other_before);
        assert(same_answers(polls[i], other_polls[i]));
        lemma_poll_alike(
            state_before(state, polls, i),
            state_before(other, other_polls, i),
            polls[i],
            other_polls[i],
        );
    }
}

/// Whether the channel delivers these chunks over a series of polls: when it
/// is polled, it gives the next of them or none yet, and it is closed only
/// when all of them were taken.
pub open spec fn delivers<B: Backend>(
    state: ReaderState<B>,
    polls: Seq<PollAnswers<B>>,
    sent: Seq<Bytes>,
) -> bool
    decreases polls.len(),
{
    polls.len() > 0 ==> {
        let before = polls.drop_last();
        let n = taken(state, before).len() as int;
        &&& delivers(state, before, sent)
        &&& match channel_report(state_after(state, before), polls.last()) {
            Some(Polled::Ready(Some(chunk))) => n < sent.len() && chunk == sent[n],
            Some(Polled::Ready(None)) => n == sent.len(),
            _ => true,
        }
    }
}

/// Whether no poll of a series yields an error.
pub open spec fn no_error<B: Backend>(state: ReaderState<B>, polls: Seq<PollAnswers<B>>) -> bool {
    forall|i: int|
        0 <= i < polls.len() ==> !(#[trigger] item(state, polls, i) matches Polled::Ready(
            Some(Err(_)),
        ))
}

/// Whether a series of polls comes to the end of the stream.
pub open spec fn ended<B: Backend>(state: ReaderState<B>, polls: Seq<PollAnswers<B>>) -> bool {
    exists|i: int|
        0 <= i < polls.len() && #[trigger] item(state, polls, i) == Polled::<
            Option<StreamItem>,
        >::Ready(None)
}

/// What is taken out of a channel is the beginning of what it delivers.
proof fn lemma_delivered_prefix<B: Backend>(
    state: ReaderState<B>,
    polls: Seq<PollAnswers<B>>,
    sent: Seq<Bytes>,
)
    requires
        delivers(state, polls, sent),
    ensures
        taken(state, polls).is_prefix_of(sent),
    decreases polls.len(),
{
    if polls.len() > 0 {
        lemma_delivered_prefix(state, polls.drop_last(), sent);
    }
}

/// All polls but the last get the same items without the last.
proof fn lemma_item_drop_last<B: Backend>(
    state: ReaderState<B>,
    polls: Seq<PollAnswers<B>>,
    i: int,
)
    requires
        0 <= i < polls.len(),
    ensures
        i < polls.len() - 1 ==> item(state, polls.drop_last(), i) == item(state, polls, i),
        i == polls.len() - 1 ==> item(state, polls, i) == poll(
            state_after(state, polls.drop_last()),
            polls.last(),
        ).1,
{
    if i < polls.len() - 1 {
        assert(polls.drop_last().take(i) =~= polls.take(i));
    } else {
        assert(polls.take(i) =~= polls.drop_last());
    }
}

/// A reader that completes without an error has taken all that its channel
/// delivers.
proof fn lemma_completed_took_all<B: Backend>(
    state: ReaderState<B>,
    polls: Seq<PollAnswers<B>>,
    sent: Seq<Bytes>,
)
    requires
        state !is Completed,
        delivers(state, polls, sent),
        no_error(state, polls),
        state_after(state, polls) is Completed,
    ensures
        taken(state, polls) == sent,
    decreases polls.len(),
{
    let before = polls.drop_last();
    let last = polls.len() - 1;
    lemma_poll(state_after(state, before), polls.last());
    if state_after(state, before) is Completed {
        assert forall|i: int| 0 <= i < before.len() implies !(#[trigger] item(
            state,
            before,
            i,
        ) matches Polled::Ready(Some(Err(_)))) by {
            lemma_item_drop_last(state, polls, i);
            assert(!(item(state, polls, i) matches Polled::Ready(Some(Err(_)))));
        }
        lemma_completed_took_all(state, before, sent);
    } else {
        lemma_item_drop_last(state, polls, last);
        assert(!(item(state, polls, last) matches Polled::Ready(Some(Err(_)))));
        lemma_delivered_prefix(state, before, sent);
        assert(taken(state, before) =~= sent);
    }
}

/// A stream that comes to its end without an error has yielded all that the
/// channel delivers, in order, however long the chunks took to arrive.
pub proof fn law_ended_stream_is_complete<B: Backend>(
    state: ReaderState<B>,
    polls: Seq<PollAnswers<B>>,
    sent: Seq<Bytes>,
)
    requires
        state !is Completed,
        delivers(state, polls, sent),
        no_error(state, polls),
        ended(state, polls),
    ensures
        yielded(state, polls) == sent,
{
    let end = choose|i: int|
        0 <= i < polls.len() && #[trigger] item(state, polls, i) == Polled::<
            Option<StreamItem>,
        >::Ready(None);
    lemma_poll(state_before(state, polls, end), polls[end]);
    lemma_state_before(state, polls, end);
    lemma_stays_completed(state, polls, end + 1, polls.len() as int);
    assert(polls.take(polls.len() as int) =~= polls);
    lemma_completed_took_all(state, polls, sent);
    law_chunks_in_order(state, polls);
}

/// Two readers whose channels deliver the same bytes, in whatever chunks, read
/// the same bytes, once both have come to their ends without an error. Whether
/// they were started by hand or by their first poll, how often they are polled
/// and when each chunk arrives makes no difference.
pub proof fn law_same_download_reads_the_same<B: Backend>(
    state: ReaderState<B>,
    polls: Seq<PollAnswers<B>>,
    sent: Seq<Bytes>,
    other: ReaderState<B>,
    other_polls: Seq<PollAnswers<B>>,
    other_sent: Seq<Bytes>,
)
    requires
        state is Init || state.holds_task(),
        other is Init || other.holds_task(),
        delivers(state, polls, sent),
        delivers(other, other_polls, other_sent),
        concat(sent) == concat(other_sent),
        no_error(state, polls),
        no_error(other, other_polls),
        ended(state, polls),
        ended(other, other_polls),
    ensures
        concat(yielded(state, polls)) == concat(yielded(other, other_polls)),
{
    law_ended_stream_is_complete(state, polls, sent);
    law_ended_stream_is_complete(other, other_polls, other_sent);
}

/// Whether the surroundings answer a poll as those of a download without a
/// downloader do: the channel holds no chunk, and the task has no result yet
/// or ends with why there is no downloader.
pub open spec fn without_downloader<B: Backend>(
    answers: PollAnswers<B>,
    error: DataProcessingError,
) -> bool {
    let result = task_result(Err(error));
    &&& !(answers.channel matches Polled::Ready(Some(_)))
    &&& answers.task matches Polled::Ready(reported) ==> reported == result
    &&& answers.recheck matches Polled::Ready(reported) ==> reported == result
}

/// Without a downloader, a reader waits until it has yielded why.
proof fn lemma_without_downloader<B: Backend>(
    state: ReaderState<B>,
    polls: Seq<PollAnswers<B>>,
    error: DataProcessingError,
    i: int,
)
    requires
        state is Init || state.holds_task(),
        forall|k: int| 0 <= k < polls.len() ==> without_downloader(#[trigger] polls[k], error),
        0 <= i <= polls.len(),
    ensures
        ({
            let before = state_before(state, polls, i);
            ||| before is Init || before.holds_task()
            ||| before is Completed && exists|k: int|
                0 <= k < i && #[trigger] item(state, polls, k) == Polled::Ready(
                    Some(StreamItem::Err(error)),
                )
        }),
    decreases i,
{
    reveal_with_fuel(follow, 5);
    if i > 0 {
        lemma_without_downloader(state, polls, error, i - 1);
        lemma_state_before(state, polls, i - 1);
        let before = state_before(state, polls, i - 1);
        assert(without_downloader(polls[i - 1], error));
        if before is Completed {
            lemma_poll(before, polls[i - 1]);
        } else if poll(before, polls[i - 1]).0 is Completed {
            assert(item(state, polls, i - 1) == Polled::Ready(Some(StreamItem::Err(error))));
        }
    } else {
        assert(polls.take(0) =~= Seq::empty());
    }
}

/// A download whose downloader cannot be built yields why and nothing else: no
/// poll yields a chunk, none yields another error, and the stream ends only
/// after that error.
pub proof fn law_failed_downloader_is_yielded<B: Backend>(
    state: ReaderState<B>,
    polls: Seq<PollAnswers<B>>,
    error: DataProcessingError,
    i: int,
)
    requires
        state is Init || state.holds_task(),
        forall|k: int| 0 <= k < polls.len() ==> without_downloader(#[trigger] polls[k], error),
        0 <= i < polls.len(),
    ensures
        match item(state, polls, i) {
            Polled::Pending => true,
            Polled::Ready(Some(Ok(_))) => false,
            Polled::Ready(Some(Err(failure))) => failure == error,
            Polled::Ready(None) => exists|k: int|
                0 <= k < i && #[trigger] item(state, polls, k) == Polled::Ready(
                    Some(StreamItem::Err(error)),
                ),
        },
{
    reveal_with_fuel(follow, 5);
    lemma_without_downloader(state, polls, error, i);
    assert(without_downloader(polls[i], error));
}

/// What one poll of a running download comes to, for all that the task and the
/// channel may answer. A failed task comes first, then a chunk; the stream ends
/// only where the channel is closed and the task has succeeded, and waits
/// otherwise. The channel is kept until the stream ends, and the task's handle
/// until the task has answered.
pub proof fn law_running_poll<B: Backend>(
    rx: B::Receiver,
    handle: B::DownloadTask,
    answers: PollAnswers<B>,
)
    ensures
        ({
            let running = ReaderState::<B>::Streaming { rx, handle: Some(handle) };
            let without_task = ReaderState::<B>::Streaming { rx, handle: None };
            let (after, item) = poll(running, answers);
            match (answers.task, answers.channel) {
                (Polled::Ready(Err(error)), _) => {
                    &&& item == Polled::Ready(Some(StreamItem::Err(error)))
                    &&& after is Completed
                },
                (Polled::Ready(Ok(_)), Polled::Ready(Some(chunk))) => {
                    &&& item == Polled::Ready(Some(StreamItem::Ok(chunk)))
                    &&& after == without_task
                },
                (Polled::Ready(Ok(_)), Polled::Ready(None)) => {
                    &&& item == Polled::<Option<StreamItem>>::Ready(None)
                    &&& after is Completed
                },
                (Polled::Ready(Ok(_)), Polled::Pending) => item is Pending && after
                    == without_task,
                (Polled::Pending, Polled::Ready(Some(chunk))) => {
                    &&& item == Polled::Ready(Some(StreamItem::Ok(chunk)))
                    &&& after == running
                },
                (Polled::Pending, Polled::Pending) => item is Pending && after == running,
                (Polled::Pending, Polled::Ready(None)) => match answers.recheck {
                    Polled::Ready(Ok(_)) => {
                        &&& item == Polled::<Option<StreamItem>>::Ready(None)
                        &&& after is Completed
                    },
                    Polled::Ready(Err(error)) => {
                        &&& item == Polled::Ready(Some(StreamItem::Err(error)))
                        &&& after is Completed
                    },
                    Polled::Pending => item is Pending && after == running,
                },
            }
        }),
{
    reveal_with_fuel(follow, 5);
}

/// What one poll of a download comes to whose task has succeeded: what the
/// channel answers, and the end of the stream where the channel is closed.
pub proof fn law_draining_poll<B: Backend>(rx: B::Receiver, answers: PollAnswers<B>)
    ensures
        ({
            let draining = ReaderState::<B>::Streaming { rx, handle: None };
            let (after, item) = poll(draining, answers);
            match answers.channel {
                Polled::Ready(Some(chunk)) => {
                    &&& item == Polled::Ready(Some(StreamItem::Ok(chunk)))
                    &&& after == draining
                },
                Polled::Ready(None) => {
                    &&& item == Polled::<Option<StreamItem>>::Ready(None)
                    &&& after is Completed
                },
                Polled::Pending => item is Pending && after == draining,
            }
        }),
{
    reveal_with_fuel(follow, 5);
}

/// What one poll asks its surroundings for: the start where there was none,
/// then the task while it has not answered, then the channel unless the task
/// has failed, and the task once more where the channel is closed and the task
/// had no answer. It asks for nothing twice and for nothing once completed.
pub proof fn law_what_a_poll_asks_for<B: Backend>(state: ReaderState<B>, answers: PollAnswers<B>)
    requires
        state !is Starting,
    ensures
        ({
            let first = if state is Init {
                seq![ReaderAction::Start]
            } else {
                Seq::empty()
            };
            let task = if state is Init || state.holds_task() {
                seq![ReaderAction::PollTask]
            } else {
                Seq::empty()
            };
            let failed = task.len() > 0 && answers.task matches Polled::Ready(Err(_));
            let channel = if state is Completed || failed {
                Seq::empty()
            } else {
                seq![ReaderAction::PollChannel]
            };
            let recheck = if task.len() > 0 && answers.task is Pending && answers.channel
                == Polled::<Option<Bytes>>::Ready(None) {
                seq![ReaderAction::RecheckTask]
            } else {
                Seq::empty()
            };
            asked(state, answers) == first + task + channel + recheck + seq![
                ReaderAction::Return(poll(state, answers).1),
            ]
        }),
{
    reveal_with_fuel(follow, 5);
    reveal_with_fuel(actions, 5);
}

/// A poll can always go on: whatever comes of what a reader asks for, it can
/// happen then, and a reader that has answered a poll can be polled again.
pub proof fn law_polling_goes_on<B: Backend>(
    state: ReaderState<B>,
    event: ReaderEvent,
    rx: B::Receiver,
    handle: B::DownloadTask,
    task: Polled<TaskResult>,
    channel: Polled<Option<Bytes>>,
)
    requires
        state.expects(event),
    ensures
        match state.step(event).1 {
            ReaderAction::Start => state.step(event).0 is Init,
            ReaderAction::PollTask => state.step(event).0.expects(ReaderEvent::TaskPolled(task)),
            ReaderAction::PollChannel => state.step(event).0.expects(
                ReaderEvent::ChannelPolled(channel),
            ),
            ReaderAction::RecheckTask => state.step(event).0.expects(
                ReaderEvent::TaskRechecked(task),
            ),
            ReaderAction::Return(_) => state.step(event).0.expects(ReaderEvent::Poll),
        },
        state is Init || state is Streaming || state is Completed ==> state.expects(
            ReaderEvent::Poll,
        ),
        (ReaderState::<B>::Streaming { rx, handle: Some(handle) }).expects(ReaderEvent::Poll),
{
}

/// Whether the surroundings answer a poll as those of a download that succeeds
/// with this number of bytes do: its task has no result yet or ends as a task
/// does whose downloader was built and whose download gave that number.
pub open spec fn with_success<B: Backend>(
    answers: PollAnswers<B>,
    bytes_written: u64,
    ended_with: TaskResult,
) -> bool {
    &&& call_ensures(download_ended, (Ok(Ok(bytes_written)),), ended_with)
    &&& answers.task matches Polled::Ready(reported) ==> reported == ended_with
    &&& answers.recheck matches Polled::Ready(reported) ==> reported == ended_with
}

/// A download that succeeds, with whatever number of bytes, yields no error,
/// and a stream of it that comes to its end has yielded all that the channel
/// delivers.
pub proof fn law_successful_download_is_read<B: Backend>(
    state: ReaderState<B>,
    polls: Seq<PollAnswers<B>>,
    bytes_written: u64,
    ended_with: TaskResult,
    sent: Seq<Bytes>,
)
    requires
        state is Init || state.holds_task(),
        forall|i: int|
            0 <= i < polls.len() ==> with_success(#[trigger] polls[i], bytes_written, ended_with),
        delivers(state, polls, sent),
    ensures
        no_error(state, polls),
        yielded(state, polls).is_prefix_of(sent),
        ended(state, polls) ==> yielded(state, polls) == sent,
{
    assert forall|i: int| 0 <= i < polls.len() implies !(#[trigger] item(
        state,
        polls,
        i,
    ) matches Polled::Ready(Some(Err(_)))) by {
        assert(with_success(polls[i], bytes_written, ended_with));
        lemma_poll(state_before(state, polls, i), polls[i]);
    }
    lemma_delivered_prefix(state, polls, sent);
    law_chunks_in_order(state, polls);
    if ended(state, polls) {
        law_ended_stream_is_complete(state, polls, sent);
    }
}

/// A download that fails, with whatever error, yields that error and no other.
pub proof fn law_failed_download_yields_its_error<B: Backend>(
    state: ReaderState<B>,
    answers: PollAnswers<B>,
    error: DataProcessingError,
    ended_with: TaskResult,
)
    requires
        state is Init || state.holds_task(),
        call_ensures(download_ended, (Ok(Err(error)),), ended_with) || call_ensures(
            download_ended,
            (Err(error),),
            ended_with,
        ),
        answers.task == Polled::Ready(ended_with),
    ensures
        poll(state, answers).1 == Polled::Ready(Some(StreamItem::Err(error))),
        poll(state, answers).0 is Completed,
{
    reveal_with_fuel(follow, 5);
}

} // verus!
