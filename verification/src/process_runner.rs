//! Running a script in an interpreter process: the command line, what each
//! reader of the process's output does with what it reads, and the result of
//! the run once both readers are done.
//!
//! The embedder spawns the process, keeps a [`ProcessRun`] for it, and gives
//! each of its two output streams a thread. The thread reads, reports each
//! thing it read, and does what the step says: forward a chunk, kill the
//! process, stop. A watchdog reports when the deadline has passed. Once both
//! readers have ended the run has its result, and not before.

use vstd::prelude::*;
use crate::outcome::FailureReason;
use crate::outcome::OutputChunk;
use crate::outcome::OutputSource;
use crate::outcome::RunResult;

verus! {

/// The interpreter that runs the scripts.
pub const INTERPRETER: &'static str = "deno";

/// Lets the script import modules from anywhere.
pub const ALLOW_IMPORT: &'static str = "--allow-import";

/// Lets the script use the network.
pub const ALLOW_NET: &'static str = "--allow-net";

/// Process creation flag that keeps a console window from opening.
pub const CREATE_NO_WINDOW: u32 = 0x08000000;

/// The arguments for the interpreter: its two permissions, then the script.
pub fn interpreter_args(path: String) -> (args: Vec<String>)
    ensures
        args@.len() == 3,
        args@[0]@ == ALLOW_IMPORT@,
        args@[1]@ == ALLOW_NET@,
        args@[2] == path,
{
    let mut args: Vec<String> = Vec::new();
    args.push(ALLOW_IMPORT.to_owned());
    args.push(ALLOW_NET.to_owned());
    args.push(path);
    args
}

/// What a reader got from its stream.
#[derive(Clone, Debug, PartialEq, Eq)]
pub enum ReadEvent {
    /// A complete line of standard output, or all of standard error.
    Text(String),
    /// The stream is at its end.
    EndOfStream,
    /// Reading failed.
    Failed,
}

/// How a reader's loop ended.
#[derive(Clone, Copy, Debug, PartialEq, Eq, Structural)]
pub enum ReaderEnd {
    /// The stream was read to its end.
    Drained,
    /// The reader saw that cancellation was requested.
    Cancelled,
    /// Reading failed while no cancellation was requested.
    Failed,
}

/// What a reader does after one event.
#[derive(Clone, Debug, PartialEq, Eq)]
pub struct ReaderStep {
    /// The chunk to hand to the sink.
    pub forward: Option<OutputChunk>,
    /// Whether to kill the process.
    pub kill: bool,
    /// How the reader ended, once it has; the loop goes on while this is
    /// empty.
    pub ended: Option<ReaderEnd>,
}

/// The reader of one output stream of the process.
#[derive(Clone, Copy, Debug, PartialEq, Eq, Structural)]
pub struct Reader {
    pub source: OutputSource,
    pub ended: Option<ReaderEnd>,
}

impl Reader {
    /// The chunk that an event makes the reader forward.
    ///
    /// Text is forwarded, under the reader's source, while the reader has
    /// not ended and no cancellation is requested. Standard error that
    /// turned out empty is no output and is not forwarded.
    pub open spec fn forwards(self, cancel_requested: bool, event: ReadEvent) -> Option<
        OutputChunk,
    > {
        match event {
            ReadEvent::Text(text) => {
                if self.ended is Some || cancel_requested || (self.source == OutputSource::Stderr
                    && text@.len() == 0) {
                    None
                } else {
                    Some(OutputChunk { source: self.source, text })
                }
            },
            _ => None,
        }
    }

    /// How the reader stands after an event.
    ///
    /// A reader that has ended stays as it ended. Otherwise a requested
    /// cancellation ends it whatever the event is; without one, text keeps
    /// it going, the end of the stream drains it and a failure fails it.
    pub open spec fn ended_after(self, cancel_requested: bool, event: ReadEvent) -> Option<
        ReaderEnd,
    > {
        if self.ended is Some {
            self.ended
        } else if cancel_requested {
            Some(ReaderEnd::Cancelled)
        } else {
            match event {
                ReadEvent::Text(_) => None,
                ReadEvent::EndOfStream => Some(ReaderEnd::Drained),
                ReadEvent::Failed => Some(ReaderEnd::Failed),
            }
        }
    }

    /// Whether an event makes the reader kill the process: when it ends
    /// the reader for cancellation or for a failure.
    pub open spec fn kills(self, cancel_requested: bool, event: ReadEvent) -> bool {
        self.ended is None && (cancel_requested || event is Failed)
    }

    /// The whole step for an event.
    pub open spec fn step(self, cancel_requested: bool, event: ReadEvent) -> ReaderStep {
        ReaderStep {
            forward: self.forwards(cancel_requested, event),
            kill: self.kills(cancel_requested, event),
            ended: self.ended_after(cancel_requested, event),
        }
    }

    /// A reader at the start of its stream.
    pub fn new(source: OutputSource) -> (reader: Reader)
        ensures
            reader == (Reader { source, ended: None }),
    {
        Reader { source, ended: None }
    }

    /// Takes what was read, together with the cancellation flag as it
    /// stands now, and says what to do.
    pub fn on_event(&mut self, cancel_requested: bool, event: ReadEvent) -> (step: ReaderStep)
        ensures
            step == old(self).step(cancel_requested, event),
            *final(self) == (Reader {
                source: old(self).source,
                ended: old(self).ended_after(cancel_requested, event),
            }),
    {
        if self.ended.is_some() {
            return ReaderStep { forward: None, kill: false, ended: self.ended };
        }
        if cancel_requested {
            self.ended = Some(ReaderEnd::Cancelled);
            return ReaderStep { forward: None, kill: true, ended: self.ended };
        }
        match event {
            ReadEvent::Text(text) => {
                let silent = match self.source {
                    OutputSource::Stderr => text.as_str().is_empty(),
                    _ => false,
                };
                if silent {
                    ReaderStep { forward: None, kill: false, ended: None }
                } else {
                    ReaderStep {
                        forward: Some(OutputChunk::new(self.source, text)),
                        kill: false,
                        ended: None,
                    }
                }
            },
            ReadEvent::EndOfStream => {
                self.ended = Some(ReaderEnd::Drained);
                ReaderStep { forward: None, kill: false, ended: self.ended }
            },
            ReadEvent::Failed => {
                self.ended = Some(ReaderEnd::Failed);
                ReaderStep { forward: None, kill: true, ended: self.ended }
            },
        }
    }
}

/// One event as a reader meets it: the cancellation flag as it stood when
/// the event arrived, and the event.
pub type Observed = (bool, ReadEvent);

impl Reader {
    /// The reader after a sequence of events, first event first.
    pub open spec fn after_events(self, events: Seq<Observed>) -> Reader
        decreases events.len(),
    {
        if events.len() == 0 {
            self
        } else {
            let before = self.after_events(events.drop_last());
            Reader {
                source: before.source,
                ended: before.ended_after(events.last().0, events.last().1),
            }
        }
    }

    /// The chunks that the reader forwards over a sequence of events, in
    /// the order in which it forwards them.
    pub open spec fn forwarded(self, events: Seq<Observed>) -> Seq<OutputChunk>
        decreases events.len(),
    {
        if events.len() == 0 {
            Seq::empty()
        } else {
            let before = self.after_events(events.drop_last());
            let earlier = self.forwarded(events.drop_last());
            match before.forwards(events.last().0, events.last().1) {
                Some(chunk) => earlier.push(chunk),
                None => earlier,
            }
        }
    }

    /// The events of a stream that delivers `texts` one after the other and
    /// then ends, with no cancellation requested at any time.
    pub open spec fn undisturbed(texts: Seq<String>) -> Seq<Observed> {
        Seq::new(texts.len(), |i: int| (false, ReadEvent::Text(texts[i]))).push(
            (false, ReadEvent::EndOfStream),
        )
    }

    /// The chunks of `texts` under a source, in the same order.
    pub open spec fn chunks_of(source: OutputSource, texts: Seq<String>) -> Seq<OutputChunk> {
        Seq::new(texts.len(), |i: int| OutputChunk { source, text: texts[i] })
    }

    /// While cancellation is requested, an event forwards nothing and
    /// leaves the reader ended.
    pub proof fn lemma_cancellation_silences(self, event: ReadEvent)
        ensures
            self.step(true, event).forward is None,
            self.step(true, event).ended is Some,
            self.ended is None ==> self.step(true, event).ended == Some(ReaderEnd::Cancelled)
                && self.step(true, event).kill,
    {
    }

    /// A reader that has ended forwards nothing, kills nothing and stays as
    /// it ended, whatever it is told afterwards.
    pub proof fn lemma_ended_reader_stays_silent(self, events: Seq<Observed>)
        requires
            self.ended is Some,
        ensures
            self.after_events(events) == self,
            self.forwarded(events) == Seq::<OutputChunk>::empty(),
            forall|cancel_requested: bool, event: ReadEvent|
                #![trigger self.step(cancel_requested, event)]
                self.step(cancel_requested, event) == (ReaderStep {
                    forward: None,
                    kill: false,
                    ended: self.ended,
                }),
        decreases events.len(),
    {
        if events.len() > 0 {
            self.lemma_ended_reader_stays_silent(events.drop_last());
        }
    }

    /// What was forwarded before further events arrive stays forwarded, in
    /// its place: the chunks of a run only grow at the end.
    pub proof fn lemma_output_is_append_only(self, events: Seq<Observed>, more: Seq<Observed>)
        ensures
            self.after_events(events + more) == self.after_events(events).after_events(more),
            self.forwarded(events + more) == self.forwarded(events) + self.after_events(
                events,
            ).forwarded(more),
        decreases more.len(),
    {
        if more.len() == 0 {
            assert(self.forwarded(events) + Seq::<OutputChunk>::empty() =~= self.forwarded(
                events,
            ));
        } else {
            assert((events + more).drop_last() =~= events + more.drop_last());
            self.lemma_output_is_append_only(events, more.drop_last());
            assert(self.forwarded(events + more) =~= self.forwarded(events) + self.after_events(
                events,
            ).forwarded(more));
        }
    }

    /// Once an event has arrived while cancellation was requested, nothing
    /// that arrives later is forwarded.
    pub proof fn lemma_nothing_after_cancellation(
        self,
        events: Seq<Observed>,
        event: ReadEvent,
        later: Seq<Observed>,
    )
        ensures
            self.forwarded(events.push((true, event)) + later) == self.forwarded(events),
            self.after_events(events.push((true, event)) + later).ended is Some,
    {
        let seen = events.push((true, event));
        assert(seen.drop_last() =~= events);
        self.lemma_output_is_append_only(seen, later);
        self.after_events(seen).lemma_ended_reader_stays_silent(later);
    }

    /// A reader of standard output whose stream delivers its lines and
    /// ends, undisturbed, forwards every line, in the order of the stream,
    /// and ends drained.
    pub proof fn lemma_undisturbed_stdout_is_forwarded_in_order(texts: Seq<String>)
        ensures
            (Reader { source: OutputSource::Stdout, ended: None }).forwarded(
                Reader::undisturbed(texts),
            ) == Reader::chunks_of(OutputSource::Stdout, texts),
            (Reader { source: OutputSource::Stdout, ended: None }).after_events(
                Reader::undisturbed(texts),
            ).ended == Some(ReaderEnd::Drained),
    {
        let lines = Seq::new(texts.len(), |i: int| (false, ReadEvent::Text(texts[i])));
        Reader::lemma_lines_are_forwarded(texts, texts.len());
        assert(lines.take(texts.len() as int) =~= lines);
        assert(Reader::chunks_of(OutputSource::Stdout, texts).take(texts.len() as int)
            =~= Reader::chunks_of(OutputSource::Stdout, texts));
        assert(Reader::undisturbed(texts).drop_last() =~= lines);
    }

    /// The first `n` lines of an undisturbed standard output are forwarded
    /// in order, and the reader goes on.
    proof fn lemma_lines_are_forwarded(texts: Seq<String>, n: nat)
        requires
            n <= texts.len(),
        ensures
            (Reader { source: OutputSource::Stdout, ended: None }).forwarded(
                Seq::new(texts.len(), |i: int| (false, ReadEvent::Text(texts[i]))).take(n as int),
            ) == Reader::chunks_of(OutputSource::Stdout, texts).take(n as int),
            (Reader { source: OutputSource::Stdout, ended: None }).after_events(
                Seq::new(texts.len(), |i: int| (false, ReadEvent::Text(texts[i]))).take(n as int),
            ) == (Reader { source: OutputSource::Stdout, ended: None }),
        decreases n,
    {
        let lines = Seq::new(texts.len(), |i: int| (false, ReadEvent::Text(texts[i])));
        if n > 0 {
            Reader::lemma_lines_are_forwarded(texts, (n - 1) as nat);
            assert(lines.take(n as int).drop_last() =~= lines.take(n - 1));
        }
    }
}

/// How the attempt to run the process went, seen from the thread that
/// spawned it.
#[derive(Clone, Copy, Debug, PartialEq, Eq, Structural)]
pub enum ProcessExit {
    /// The process could not be created.
    SpawnFailed,
    /// The process ran, and both readers have been joined.
    Joined {
        stdout: ReaderEnd,
        stderr: ReaderEnd,
        /// Whether the watchdog killed the process at the deadline.
        deadline_elapsed: bool,
    },
}

/// The result of a run in a process.
///
/// A process that could not be created fails the run. Of a process that
/// ran, cancellation seen by either reader comes first, then the deadline,
/// then a read failure; a run with none of these has completed.
pub open spec fn process_result_of(exit: ProcessExit) -> RunResult {
    match exit {
        ProcessExit::SpawnFailed => RunResult::Failed(FailureReason::SpawnError),
        ProcessExit::Joined { stdout, stderr, deadline_elapsed } => {
            if stdout == ReaderEnd::Cancelled || stderr == ReaderEnd::Cancelled {
                RunResult::Terminated
            } else if deadline_elapsed {
                RunResult::TimedOut
            } else if stdout == ReaderEnd::Failed || stderr == ReaderEnd::Failed {
                RunResult::Failed(FailureReason::ReadError)
            } else {
                RunResult::Completed
            }
        },
    }
}

/// A run in a process has completed exactly when the process ran, both
/// readers drained their streams, and the deadline did not pass; and it is
/// terminated exactly when the process ran and a reader saw the
/// cancellation.
pub proof fn lemma_process_result_by_cause(exit: ProcessExit)
    ensures
        process_result_of(exit) == RunResult::Completed <==> exit == (ProcessExit::Joined {
            stdout: ReaderEnd::Drained,
            stderr: ReaderEnd::Drained,
            deadline_elapsed: false,
        }),
        process_result_of(exit) == RunResult::Terminated <==> (exit matches ProcessExit::Joined {
            stdout,
            stderr,
            ..
        } && (stdout == ReaderEnd::Cancelled || stderr == ReaderEnd::Cancelled)),
        process_result_of(exit) == RunResult::Failed(FailureReason::SpawnError) <==> exit
            == ProcessExit::SpawnFailed,
{
}

pub fn process_result(exit: ProcessExit) -> (result: RunResult)
    ensures
        result == process_result_of(exit),
{
    match exit {
        ProcessExit::SpawnFailed => RunResult::Failed(FailureReason::SpawnError),
        ProcessExit::Joined { stdout, stderr, deadline_elapsed } => {
            let cancelled = match (stdout, stderr) {
                (ReaderEnd::Cancelled, _) => true,
                (_, ReaderEnd::Cancelled) => true,
                _ => false,
            };
            let failed = match (stdout, stderr) {
                (ReaderEnd::Failed, _) => true,
                (_, ReaderEnd::Failed) => true,
                _ => false,
            };
            if cancelled {
                RunResult::Terminated
            } else if deadline_elapsed {
                RunResult::TimedOut
            } else if failed {
                RunResult::Failed(FailureReason::ReadError)
            } else {
                RunResult::Completed
            }
        },
    }
}

/// One run in a process while it lasts: how far each of the two readers
/// has come, and whether the watchdog had to end the run.
///
/// The run has a result once both readers have ended, and not before: the
/// result follows all output.
#[derive(Clone, Copy, Debug, PartialEq, Eq, Structural)]
pub struct ProcessRun {
    pub stdout_ended: Option<ReaderEnd>,
    pub stderr_ended: Option<ReaderEnd>,
    pub deadline_elapsed: bool,
}

impl ProcessRun {
    /// A run whose process has just been spawned.
    pub open spec fn spawned() -> ProcessRun {
        ProcessRun { stdout_ended: None, stderr_ended: None, deadline_elapsed: false }
    }

    /// The reader of standard output as it stands.
    pub open spec fn stdout(self) -> Reader {
        Reader { source: OutputSource::Stdout, ended: self.stdout_ended }
    }

    /// The reader of standard error as it stands.
    pub open spec fn stderr(self) -> Reader {
        Reader { source: OutputSource::Stderr, ended: self.stderr_ended }
    }

    /// How the process went, known once both readers have ended.
    pub open spec fn exit(self) -> Option<ProcessExit> {
        match (self.stdout_ended, self.stderr_ended) {
            (Some(stdout), Some(stderr)) => Some(
                ProcessExit::Joined { stdout, stderr, deadline_elapsed: self.deadline_elapsed },
            ),
            _ => None,
        }
    }

    /// The result of the run, known once both readers have ended.
    pub open spec fn result(self) -> Option<RunResult> {
        match self.exit() {
            Some(exit) => Some(process_result_of(exit)),
            None => None,
        }
    }

    /// The run after the watchdog found the deadline passed: marked as
    /// timed out while it lasts, untouched when it is over.
    pub open spec fn after_deadline(self) -> ProcessRun {
        if self.result() is None {
            ProcessRun { deadline_elapsed: true, ..self }
        } else {
            self
        }
    }

    pub fn new() -> (run: ProcessRun)
        ensures
            run == ProcessRun::spawned(),
    {
        ProcessRun { stdout_ended: None, stderr_ended: None, deadline_elapsed: false }
    }

    /// Takes what the reader of standard output read.
    pub fn on_stdout(&mut self, cancel_requested: bool, event: ReadEvent) -> (step: ReaderStep)
        ensures
            step == old(self).stdout().step(cancel_requested, event),
            *final(self) == (ProcessRun { stdout_ended: step.ended, ..*old(self) }),
    {
        let mut reader = Reader { source: OutputSource::Stdout, ended: self.stdout_ended };
        let step = reader.on_event(cancel_requested, event);
        self.stdout_ended = reader.ended;
        step
    }

    /// Takes what the reader of standard error read.
    pub fn on_stderr(&mut self, cancel_requested: bool, event: ReadEvent) -> (step: ReaderStep)
        ensures
            step == old(self).stderr().step(cancel_requested, event),
            *final(self) == (ProcessRun { stderr_ended: step.ended, ..*old(self) }),
    {
        let mut reader = Reader { source: OutputSource::Stderr, ended: self.stderr_ended };
        let step = reader.on_event(cancel_requested, event);
        self.stderr_ended = reader.ended;
        step
    }

    /// Tells the run that its deadline has passed. Returns whether the
    /// process is to be killed: it is while the run lasts.
    pub fn on_deadline(&mut self) -> (kill: bool)
        ensures
            kill == (old(self).result() is None),
            *final(self) == old(self).after_deadline(),
    {
        if self.stdout_ended.is_some() && self.stderr_ended.is_some() {
            false
        } else {
            self.deadline_elapsed = true;
            true
        }
    }

    /// The result of the run, once both readers have ended.
    pub fn finished(&self) -> (result: Option<RunResult>)
        ensures
            result == self.result(),
    {
        match (self.stdout_ended, self.stderr_ended) {
            (Some(stdout), Some(stderr)) => Some(
                process_result(
                    ProcessExit::Joined { stdout, stderr, deadline_elapsed: self.deadline_elapsed },
                ),
            ),
            _ => None,
        }
    }

    /// The result of the run when its threads are joined. A reader that
    /// never reported how it ended has broken down, and the run counts as
    /// one whose output could not be read.
    pub open spec fn closing_result(self) -> RunResult {
        match self.result() {
            Some(result) => result,
            None => RunResult::Failed(FailureReason::ReadError),
        }
    }

    pub fn close(&self) -> (result: RunResult)
        ensures
            result == self.closing_result(),
    {
        match self.finished() {
            Some(result) => result,
            None => RunResult::Failed(FailureReason::ReadError),
        }
    }

    /// The result comes last. Once a run has its result, nothing that a
    /// reader or the watchdog reports afterwards forwards a chunk, kills
    /// anything, or changes the run and its result.
    pub proof fn lemma_result_comes_last(self, cancel_requested: bool, event: ReadEvent)
        requires
            self.result() is Some,
        ensures
            self.stdout().step(cancel_requested, event) == (ReaderStep {
                forward: None,
                kill: false,
                ended: self.stdout_ended,
            }),
            self.stderr().step(cancel_requested, event) == (ReaderStep {
                forward: None,
                kill: false,
                ended: self.stderr_ended,
            }),
            self.after_deadline() == self,
    {
    }

    /// While a reader is still at work the run has no result.
    pub proof fn lemma_no_result_before_both_readers_ended(self)
        ensures
            self.result() is Some <==> (self.stdout_ended is Some && self.stderr_ended is Some),
            ProcessRun::spawned().result() is None,
    {
    }

    /// A run in which a reader ended because cancellation was requested
    /// is terminated, whatever else happened to it.
    pub proof fn lemma_cancelled_run_is_terminated(self)
        requires
            self.result() is Some,
            self.stdout_ended == Some(ReaderEnd::Cancelled) || self.stderr_ended == Some(
                ReaderEnd::Cancelled,
            ),
        ensures
            self.result() == Some(RunResult::Terminated),
    {
    }

    /// While cancellation is requested, the first report of each reader
    /// ends that reader, so that two reports end the run, as terminated.
    pub proof fn lemma_cancellation_ends_the_run(self, first: ReadEvent, second: ReadEvent)
        requires
            self.result() is None,
        ensures
            (ProcessRun {
                stdout_ended: self.stdout().ended_after(true, first),
                stderr_ended: self.stderr().ended_after(true, second),
                ..self
            }).result() == Some(RunResult::Terminated),
    {
    }
}

} // verus!
