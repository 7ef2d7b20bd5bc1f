//! The background task of a [`StreamingWriter`](crate::streaming_writer::StreamingWriter):
//! it awaits the data of each queued term in turn and forwards it.
//!
//! [`BackgroundTask`] decides each step; its surroundings receive from the
//! queue, join the data tasks and send to the output channel.

use bytes::Bytes;
use vstd::prelude::*;
use vstd::string::*;

use crate::error::{FileReconstructionError, ReconstructionFailure};

verus! {

/// A term queued for forwarding: the handle of the task that fetches its data,
/// and a permit to give back once the data is forwarded.
pub struct QueueItem<H, P> {
    pub handle: H,
    pub permit: Option<P>,
}

/// The result of joining a task that fetches data: what the task returned, or
/// the text of why it could not be joined.
pub type JoinedData = Result<Result<Bytes, FileReconstructionError>, String>;

/// Where the background task stands.
pub enum BackgroundState<P> {
    /// Waiting for the next queued item.
    Receiving,
    /// Waiting for the data of an item.
    Joining { permit: Option<P> },
    /// Waiting for the output channel to take the data of an item.
    Sending { permit: Option<P> },
    /// The task has ended.
    Done,
}

/// What happened: the last action was done.
pub enum BackgroundEvent<H, P> {
    /// The queue gave an item, or is closed and empty.
    Received(Option<QueueItem<H, P>>),
    /// The data task was joined.
    Joined(JoinedData),
    /// The output channel took the data (`true`) or is closed (`false`).
    Sent(bool),
}

/// What is to be done next.
pub enum BackgroundAction<H> {
    /// Receive the next item from the queue.
    Receive,
    /// Join the data task with this handle.
    Join(H),
    /// Send this chunk to the output channel.
    Send(Bytes),
    /// End the task with this result.
    Exit(Result<(), FileReconstructionError>),
}

/// A [`BackgroundAction`] with its error's contents.
pub enum ActionView<H> {
    Receive,
    Join(H),
    Send(Bytes),
    Exit(Result<(), ReconstructionFailure>),
}

impl<H> View for BackgroundAction<H> {
    type V = ActionView<H>;

    open spec fn view(&self) -> ActionView<H> {
        match *self {
            BackgroundAction::Receive => ActionView::Receive,
            BackgroundAction::Join(handle) => ActionView::Join(handle),
            BackgroundAction::Send(chunk) => ActionView::Send(chunk),
            BackgroundAction::Exit(Ok(_)) => ActionView::Exit(Ok(())),
            BackgroundAction::Exit(Err(error)) => ActionView::Exit(Err(error@)),
        }
    }
}

/// The failure of a data task that could not be joined.
pub open spec fn join_failure(reason: Seq<char>) -> ReconstructionFailure {
    ReconstructionFailure::InternalError("Task join error: "@ + reason)
}

/// The failure of sending to an output channel that is closed.
pub open spec fn output_closed() -> ReconstructionFailure {
    ReconstructionFailure::InternalWriterError("Output channel closed"@)
}

impl<P> BackgroundState<P> {
    /// Whether the event can happen in this state.
    pub open spec fn expects<H>(self, event: BackgroundEvent<H, P>) -> bool {
        match event {
            BackgroundEvent::Received(_) => self is Receiving,
            BackgroundEvent::Joined(_) => self is Joining,
            BackgroundEvent::Sent(_) => self is Sending,
        }
    }

    /// Whether an item was received and is not yet done with.
    pub open spec fn busy(self) -> bool {
        self is Joining || self is Sending
    }

    /// The permit that is held.
    pub open spec fn permit(self) -> Option<P> {
        match self {
            BackgroundState::Joining { permit } => permit,
            BackgroundState::Sending { permit } => permit,
            _ => None,
        }
    }

    /// What the task does on an event: its next state and what it asks for.
    pub open spec fn step<H>(self, event: BackgroundEvent<H, P>) -> (Self, ActionView<H>) {
        match event {
            BackgroundEvent::Received(Some(item)) => (
                BackgroundState::Joining { permit: item.permit },
                ActionView::Join(item.handle),
            ),
            BackgroundEvent::Received(None) => (
                BackgroundState::Done,
                ActionView::Exit(Ok(())),
            ),
            BackgroundEvent::Joined(Ok(Ok(chunk))) => (
                BackgroundState::Sending { permit: self.permit() },
                ActionView::Send(chunk),
            ),
            BackgroundEvent::Joined(Ok(Err(error))) => (
                BackgroundState::Done,
                ActionView::Exit(Err(error@)),
            ),
            BackgroundEvent::Joined(Err(reason)) => (
                BackgroundState::Done,
                ActionView::Exit(Err(join_failure(reason@))),
            ),
            BackgroundEvent::Sent(true) => (BackgroundState::Receiving, ActionView::Receive),
            BackgroundEvent::Sent(false) => (
                BackgroundState::Done,
                ActionView::Exit(Err(output_closed())),
            ),
        }
    }
}

/// The background task: where it stands, and the receiving side `R` of its
/// queue.
pub struct BackgroundTask<R, P> {
    rx: Option<R>,
    state: BackgroundState<P>,
}

/// The contents of a [`BackgroundTask`].
pub struct BackgroundView<R, P> {
    /// The receiving side of the queue, with all that is still queued, until
    /// the task ends.
    pub rx: Option<R>,
    pub state: BackgroundState<P>,
}

impl<R, P> View for BackgroundTask<R, P> {
    type V = BackgroundView<R, P>;

    closed spec fn view(&self) -> BackgroundView<R, P> {
        BackgroundView { rx: self.rx, state: self.state }
    }
}

impl<R, P> BackgroundView<R, P> {
    /// What the task does on an event. A task that ends gives its queue up.
    pub open spec fn step<H>(self, event: BackgroundEvent<H, P>) -> (Self, ActionView<H>) {
        let (state, action) = self.state.step(event);
        let rx = if state is Done {
            None
        } else {
            self.rx
        };
        (BackgroundView { rx, state }, action)
    }
}

impl<R, P> BackgroundTask<R, P> {
    /// A task that is about to receive its first item from this queue.
    pub fn new(rx: R) -> (task: Self)
        ensures
            task@ == (BackgroundView::<R, P> { rx: Some(rx), state: BackgroundState::Receiving }),
    {
        BackgroundTask { rx: Some(rx), state: BackgroundState::Receiving }
    }

    /// The receiving side of the queue, until the task ends.
    pub fn receiver_mut(&mut self) -> (rx: Option<&mut R>)
        ensures
            match old(self)@.rx {
                Some(held) => {
                    &&& rx matches Some(rx)
                    &&& *rx == held
                    &&& final(self)@ == (BackgroundView::<R, P> {
                        rx: Some(*final(rx)),
                        ..old(self)@
                    })
                },
                None => rx is None && final(self)@ == old(self)@,
            },
    {
        self.rx.as_mut()
    }

    /// Ends the task, which gives its queue and its permit up.
    fn end(&mut self)
        ensures
            final(self)@ == (BackgroundView::<R, P> { rx: None, state: BackgroundState::Done }),
    {
        self.rx = None;
        self.state = BackgroundState::Done;
    }

    /// Decides the next step. A permit is given back, by being dropped, when
    /// its item's data was taken by the output channel or the task ends.
    pub fn step<H>(&mut self, event: BackgroundEvent<H, P>) -> (action: BackgroundAction<H>)
        requires
            old(self)@.state.expects(event),
        ensures
            (final(self)@, action@) == old(self)@.step(event),
    {
        match event {
            BackgroundEvent::Received(Some(item)) => {
                self.state = BackgroundState::Joining { permit: item.permit };
                BackgroundAction::Join(item.handle)
            },
            BackgroundEvent::Received(None) => {
                self.end();
                BackgroundAction::Exit(Ok(()))
            },
            BackgroundEvent::Joined(Ok(Ok(chunk))) => {
                let permit = match &mut self.state {
                    BackgroundState::Joining { permit } => permit.take(),
                    _ => None,
                };
                self.state = BackgroundState::Sending { permit };
                BackgroundAction::Send(chunk)
            },
            BackgroundEvent::Joined(Ok(Err(error))) => {
                self.end();
                BackgroundAction::Exit(Err(error))
            },
            BackgroundEvent::Joined(Err(reason)) => {
                self.end();
                let mut message = "Task join error: ".to_owned();
                message.append(reason.as_str());
                BackgroundAction::Exit(Err(FileReconstructionError::InternalError(message)))
            },
            BackgroundEvent::Sent(delivered) => if delivered {
                self.state = BackgroundState::Receiving;
                BackgroundAction::Receive
            } else {
                self.end();
                BackgroundAction::Exit(
                    Err(
                        FileReconstructionError::InternalWriterError(
                            "Output channel closed".to_owned(),
                        ),
                    ),
                )
            },
        }
    }
}

} // verus!
