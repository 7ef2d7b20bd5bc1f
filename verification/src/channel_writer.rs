//! Blocking writes of bytes to a channel of chunks.

use bytes::Bytes;
use vstd::prelude::*;
use vstd::string::*;

use crate::chunk::chunk_bytes;

verus! {

/// The kind of a failed write.
#[derive(Debug, Clone, Copy, PartialEq, Eq, Structural)]
pub enum WriteErrorKind {
    /// What is written to has been closed.
    BrokenPipe,
}

/// A write failed.
#[derive(Debug, PartialEq, Eq)]
pub struct WriteError {
    pub kind: WriteErrorKind,
    pub message: String,
}

/// Writes to a channel through its sending side, `S`.
pub struct ChannelWriter<S>(S);

impl<S> View for ChannelWriter<S> {
    type V = S;

    closed spec fn view(&self) -> S {
        self.0
    }
}

impl<S> ChannelWriter<S> {
    /// Creates a writer over the sending side of a channel.
    pub fn new(sender: S) -> (writer: Self)
        ensures
            writer@ == sender,
    {
        ChannelWriter(sender)
    }

    /// Returns the sending side of the channel and the chunk that it is to be
    /// given: a copy of all of `buf`. The result of the write is then
    /// [`written`].
    pub fn write(&self, buf: &[u8]) -> (message: (&S, Bytes))
        ensures
            *message.0 == self@,
            chunk_bytes(message.1) == buf@,
    {
        (&self.0, Bytes::copy_from_slice(buf))
    }

    /// Flushes the writer, which holds nothing back.
    pub fn flush(&self) -> (result: Result<(), WriteError>)
        ensures
            result is Ok,
    {
        Ok(())
    }
}

/// The result of writing `buf`, for each answer of the channel: all of it is
/// written, unless the channel is closed.
pub fn written(buf: &[u8], sent: bool) -> (result: Result<usize, WriteError>)
    ensures
        match result {
            Ok(n) => sent && n == buf@.len(),
            Err(error) => {
                &&& !sent
                &&& error.kind == WriteErrorKind::BrokenPipe
                &&& error.message@ == "channel closed"@
            },
        },
{
    if sent {
        Ok(buf.len())
    } else {
        Err(
            WriteError {
                kind: WriteErrorKind::BrokenPipe,
                message: "channel closed".to_owned(),
            },
        )
    }
}

} // verus!
