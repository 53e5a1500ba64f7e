//! The reader's loop, one turn at a time: what to do with the outcome of
//! an attempt to read a command.

use crate::command::Command;
use crate::frame::DecodeError;
use vstd::prelude::*;

verus! {

/// Why reading a command failed for good.
#[derive(Clone, Copy, Debug, PartialEq, Eq, Structural)]
pub enum ReadError {
    /// The frame itself was broken.
    Frame(DecodeError),
    /// The frame's text was no command.
    Json,
}

/// What the reader does next.
#[derive(Clone, Debug, PartialEq, Eq)]
pub enum Step {
    /// Nothing came: read again.
    Retry,
    /// A command came: hand it to the dispatcher, then read again.
    Forward(Command),
    /// The stream can no longer be trusted: stop reading.
    Stop(ReadError),
}

/// Decides the reader's next step. No command is no error, and the reader
/// tries again; a command is forwarded as it is; an error ends the reader,
/// since the stream has lost its frame boundaries.
pub fn next_step(read: Result<Option<Command>, ReadError>) -> (step: Step)
    ensures
        read == Ok::<Option<Command>, ReadError>(None) ==> step == Step::Retry,
        read is Ok && read->Ok_0 is Some ==> step == Step::Forward(read->Ok_0->Some_0),
        read is Err ==> step == Step::Stop(read->Err_0),
{
    match read {
        Ok(None) => Step::Retry,
        Ok(Some(command)) => Step::Forward(command),
        Err(error) => Step::Stop(error),
    }
}

} // verus!
