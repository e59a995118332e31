//! Running a script in a scripting engine inside this process: the buffer
//! that the script prints into, and what is delivered when the run is over.
//!
//! The embedder creates one engine and one [`OutputBuffer`] per run, lets
//! the engine's print primitive call [`op_print_msg`], and starts a watchdog
//! that interrupts the engine when the deadline has passed. Once the
//! evaluation has ended one way or the other and the watchdog is joined,
//! [`finish`] says what goes to the sink and how the run ended.

use vstd::prelude::*;
use crate::outcome::FailureReason;
use crate::outcome::OutputChunk;
use crate::outcome::OutputSource;
use crate::outcome::RunResult;

verus! {

/// The lines that the script of one run has printed so far, oldest first.
#[derive(Debug)]
pub struct OutputBuffer {
    lines: Vec<String>,
}

impl View for OutputBuffer {
    type V = Seq<String>;

    closed spec fn view(&self) -> Seq<String> {
        self.lines@
    }
}

impl OutputBuffer {
    /// An empty buffer for a new run.
    pub fn new() -> (buffer: OutputBuffer)
        ensures
            buffer@ == Seq::<String>::empty(),
    {
        OutputBuffer { lines: Vec::new() }
    }

    /// The number of lines held.
    pub fn len(&self) -> (n: usize)
        ensures
            n == self@.len(),
    {
        self.lines.len()
    }

    /// Hands out the lines and leaves the buffer empty.
    pub fn take(&mut self) -> (lines: Vec<String>)
        ensures
            lines@ == old(self)@,
            final(self)@ == Seq::<String>::empty(),
    {
        let mut lines: Vec<String> = Vec::new();
        std::mem::swap(&mut lines, &mut self.lines);
        lines
    }
}

/// The engine's print primitive: appends the line that the script emits to
/// the run's buffer. The script gets an empty string back.
pub fn op_print_msg(buffer: &mut OutputBuffer, s: String) -> (reply: String)
    ensures
        final(buffer)@ == old(buffer)@.push(s),
        reply@ == Seq::<char>::empty(),
{
    buffer.lines.push(s);
    String::new()
}

/// What a command that ran a script hands back: nothing but one text when
/// the script printed at most one line, otherwise all the lines.
#[derive(Clone, Debug, PartialEq, Eq)]
pub enum ConsoleResult {
    S(String),
    V(Vec<String>),
}

impl ConsoleResult {
    /// Packs the lines that a script printed.
    ///
    /// No line gives the empty text, a single line gives that line, and two
    /// or more give the list as it is.
    pub fn collect(lines: Vec<String>) -> (result: ConsoleResult)
        ensures
            lines@.len() == 0 ==> (result matches ConsoleResult::S(text) && text@
                == Seq::<char>::empty()),
            lines@.len() == 1 ==> result == ConsoleResult::S(lines@[0]),
            lines@.len() >= 2 ==> result == ConsoleResult::V(lines),
    {
        if lines.len() == 0 {
            ConsoleResult::S(String::new())
        } else if lines.len() == 1 {
            ConsoleResult::S(lines[0].clone())
        } else {
            ConsoleResult::V(lines)
        }
    }
}

/// How the evaluation of the script ended.
#[derive(Clone, Copy, Debug, PartialEq, Eq, Structural)]
pub enum EngineOutcome {
    /// The module finished evaluating before the deadline.
    Evaluated,
    /// The script threw, or its module could not be resolved.
    EvaluationFailed,
    /// The watchdog interrupted the engine because the deadline had passed.
    DeadlineElapsed,
}

/// Makes `deno_path_util::ResolveUrlOrPathError` known as a type that is
/// carried through and never looked into: the reason why a path or URL could
/// not be resolved to a module specifier.
#[verifier::external_type_specification]
#[verifier::external_body]
pub struct ExResolveUrlOrPathError(deno_path_util::ResolveUrlOrPathError);

/// Calls `deno_path_util::resolve_url_or_path`, which reads `path` as a URL
/// where it starts with a scheme and else as a file path, relative to
/// `current_dir` unless it is absolute, and gives the URL of the module or
/// the reason why there is none. Nothing is claimed of what comes back: how
/// a file path is read depends on the platform.
#[verifier::external_body]
fn resolve_url_or_path(path: &str, current_dir: &str) -> (resolved: Result<
    String,
    deno_path_util::ResolveUrlOrPathError,
>) {
    deno_path_util::resolve_url_or_path(path, std::path::Path::new(current_dir)).map(String::from)
}

/// What a resolution means for the run: the specifier of the main module
/// where there is one, and otherwise that the evaluation has failed before
/// it began.
pub fn main_module_from(
    resolved: Result<String, deno_path_util::ResolveUrlOrPathError>,
) -> (module: Result<String, EngineOutcome>)
    ensures
        match resolved {
            Ok(specifier) => module == Ok::<String, EngineOutcome>(specifier),
            Err(_) => module == Err::<String, EngineOutcome>(EngineOutcome::EvaluationFailed),
        },
{
    match resolved {
        Ok(specifier) => Ok(specifier),
        Err(_) => Err(EngineOutcome::EvaluationFailed),
    }
}

/// Resolves the script's path, as the user gave it, to the specifier of
/// the main module that the engine loads. A path that cannot be resolved
/// fails the evaluation.
///
/// Whether a path resolves, and to what, is for the resolver to say, and it
/// reads file paths as the platform at hand does. So nothing is promised
/// here of the specifier; [`main_module_from`] says what follows from each
/// answer of the resolver.
pub fn main_module(path: &str, current_dir: &str) -> (module: Result<String, EngineOutcome>)
    ensures
        module is Err ==> module == Err::<String, EngineOutcome>(EngineOutcome::EvaluationFailed),
{
    main_module_from(resolve_url_or_path(path, current_dir))
}

/// How the race between the evaluation and the watchdog went.
///
/// Where the deadline passed first, the watchdog has interrupted the engine
/// and the deadline has elapsed, whatever the interrupted evaluation says of
/// itself. Otherwise the evaluation decides: it came to a good end, or it
/// failed; an evaluation that never said how it ended has failed too.
pub open spec fn engine_outcome_of(deadline_passed: bool, evaluated: Option<bool>) -> EngineOutcome {
    if deadline_passed {
        EngineOutcome::DeadlineElapsed
    } else if evaluated == Some(true) {
        EngineOutcome::Evaluated
    } else {
        EngineOutcome::EvaluationFailed
    }
}

pub fn engine_outcome(deadline_passed: bool, evaluated: Option<bool>) -> (outcome: EngineOutcome)
    ensures
        outcome == engine_outcome_of(deadline_passed, evaluated),
{
    if deadline_passed {
        EngineOutcome::DeadlineElapsed
    } else {
        match evaluated {
            Some(true) => EngineOutcome::Evaluated,
            _ => EngineOutcome::EvaluationFailed,
        }
    }
}

/// The result of a run in the engine.
pub open spec fn engine_result_of(outcome: EngineOutcome) -> RunResult {
    match outcome {
        EngineOutcome::Evaluated => RunResult::Completed,
        EngineOutcome::EvaluationFailed => RunResult::Failed(FailureReason::EvaluationError),
        EngineOutcome::DeadlineElapsed => RunResult::TimedOut,
    }
}

pub fn engine_result(outcome: EngineOutcome) -> (result: RunResult)
    ensures
        result == engine_result_of(outcome),
{
    match outcome {
        EngineOutcome::Evaluated => RunResult::Completed,
        EngineOutcome::EvaluationFailed => RunResult::Failed(FailureReason::EvaluationError),
        EngineOutcome::DeadlineElapsed => RunResult::TimedOut,
    }
}

/// The printed lines as output chunks of the engine, in the order in which
/// they were printed.
pub open spec fn engine_chunks_of(lines: Seq<String>) -> Seq<OutputChunk> {
    Seq::new(lines.len(), |i: int| OutputChunk { source: OutputSource::Engine, text: lines[i] })
}

pub fn engine_chunks(lines: &Vec<String>) -> (chunks: Vec<OutputChunk>)
    ensures
        chunks@ == engine_chunks_of(lines@),
{
    let mut chunks: Vec<OutputChunk> = Vec::new();
    let mut i: usize = 0;
    while i < lines.len()
        invariant
            i <= lines.len(),
            chunks@.len() == i,
            forall|j: int|
                0 <= j < i ==> chunks@[j] == (OutputChunk {
                    source: OutputSource::Engine,
                    text: #[trigger] lines@[j],
                }),
        decreases lines.len() - i,
    {
        chunks.push(OutputChunk::new(OutputSource::Engine, lines[i].clone()));
        i += 1;
    }
    chunks
}

/// What a run in the engine delivers when it is over.
#[derive(Clone, Debug, PartialEq, Eq)]
pub struct EmbeddedReport {
    /// The chunks for the sink.
    pub chunks: Vec<OutputChunk>,
    /// The same lines, packed for the caller of the command.
    pub console: ConsoleResult,
    pub result: RunResult,
}

/// Closes a run in the engine.
///
/// Everything that the script printed before the evaluation ended is
/// delivered, in the order in which it was printed, whether the script ran
/// to its end, failed, or was interrupted at the deadline.
pub fn finish(buffer: OutputBuffer, outcome: EngineOutcome) -> (report: EmbeddedReport)
    ensures
        report.chunks@ == engine_chunks_of(buffer@),
        report.result == engine_result_of(outcome),
        buffer@.len() == 0 ==> (report.console matches ConsoleResult::S(text) && text@
            == Seq::<char>::empty()),
        buffer@.len() == 1 ==> report.console == ConsoleResult::S(buffer@[0]),
        buffer@.len() >= 2 ==> (report.console matches ConsoleResult::V(all) && all@ == buffer@),
{
    let mut buffer = buffer;
    let lines = buffer.take();
    let chunks = engine_chunks(&lines);
    let console = ConsoleResult::collect(lines);
    EmbeddedReport { chunks, console, result: engine_result(outcome) }
}

} // verus!
