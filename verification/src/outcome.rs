//! What a run produces: output chunks while it lasts, one result when it ends.

use vstd::prelude::*;
use crate::message::Message;
use crate::message::MessageAction;
use crate::message::MessageContainer;
use crate::message::MessageType;

verus! {

/// Reason text of a run whose interpreter process could not be created.
pub const SPAWN_ERROR: &'static str = "spawn error";

/// Reason text of a run whose output could not be read.
pub const READ_ERROR: &'static str = "read error";

/// Reason text of a run whose script threw or could not be loaded.
pub const EVALUATION_ERROR: &'static str = "evaluation error";

/// Which stream a chunk of output was captured from.
#[derive(Clone, Copy, Debug, PartialEq, Eq, Structural)]
pub enum OutputSource {
    Stdout,
    Stderr,
    Engine,
}

/// A unit of output text with the stream it came from.
#[derive(Clone, Debug, PartialEq, Eq)]
pub struct OutputChunk {
    pub source: OutputSource,
    pub text: String,
}

impl OutputChunk {
    pub fn new(source: OutputSource, text: String) -> (chunk: OutputChunk)
        ensures
            chunk == (OutputChunk { source, text }),
    {
        OutputChunk { source, text }
    }

    /// The notification under which a chunk reaches the console: an
    /// informational line that carries the chunk's text, whatever its source.
    pub open spec fn console_line(self) -> Message<String> {
        Message {
            container: MessageContainer::Console,
            ty: MessageType::Info,
            action: MessageAction::NoAction,
            content: Some(self.text),
        }
    }

    pub fn into_message(self) -> (m: Message<String>)
        ensures
            m == self.console_line(),
    {
        Message::console_info(Some(self.text))
    }
}

/// Why a run failed.
#[derive(Clone, Copy, Debug, PartialEq, Eq, Structural)]
pub enum FailureReason {
    /// The interpreter process could not be created.
    SpawnError,
    /// Reading the process's output failed.
    ReadError,
    /// The script threw, or its module could not be resolved.
    EvaluationError,
}

impl FailureReason {
    pub open spec fn reason_text(self) -> &'static str {
        match self {
            FailureReason::SpawnError => SPAWN_ERROR,
            FailureReason::ReadError => READ_ERROR,
            FailureReason::EvaluationError => EVALUATION_ERROR,
        }
    }

    /// The reason in words.
    pub fn text(&self) -> (t: &'static str)
        ensures
            t == self.reason_text(),
    {
        match self {
            FailureReason::SpawnError => SPAWN_ERROR,
            FailureReason::ReadError => READ_ERROR,
            FailureReason::EvaluationError => EVALUATION_ERROR,
        }
    }
}

/// How a run ended.
#[derive(Clone, Copy, Debug, PartialEq, Eq, Structural)]
pub enum RunResult {
    /// The script ran to its end.
    Completed,
    /// The user cancelled the run.
    Terminated,
    /// The run was stopped because it exceeded its deadline.
    TimedOut,
    /// The run could not be carried through.
    Failed(FailureReason),
}

} // verus!
