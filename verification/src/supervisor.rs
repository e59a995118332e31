//! The supervisor: admits one run at a time, passes on the wish to stop it,
//! and closes the run with one terminal report.
//!
//! The supervisor decides and the embedder acts. `start` says whether a run
//! may begin and what to launch, `stop` says which running thing to
//! terminate, and `on_run_finished` turns the runner's result into the
//! terminal report. The embedder keeps the supervisor behind one lock and
//! calls these three without doing any work in between that blocks.

use vstd::prelude::*;
use crate::message::Message;
use crate::message::MessageAction;
use crate::message::MessageContainer;
use crate::message::MessageType;
use crate::outcome::FailureReason;
use crate::outcome::RunResult;
use crate::run_state::RunState;

verus! {

/// Seconds a run may last when nothing else is configured.
pub const DEFAULT_DEADLINE_SECS: u64 = 3;

/// Toast text for a start that is turned away because a run is under way.
pub const BUSY_NOTICE: &'static str = "script is running, please wait or stop old task";

/// Toast text for a run that reached its end.
pub const SUCCESS_NOTICE: &'static str = "js running successed.";

/// Toast text for a run that the user cancelled.
pub const TERMINATED_NOTICE: &'static str = "running js terminated.";

/// Toast text for a run that exceeded its deadline.
pub const TIMED_OUT_NOTICE: &'static str = "js running timed out.";

/// The two ways of running a script.
#[derive(Clone, Copy, Debug, PartialEq, Eq, Structural)]
pub enum RunnerKind {
    /// An interpreter process outside this one.
    Process,
    /// A scripting engine inside this process.
    Embedded,
}

/// Identifies a run that is under way. The embedder keeps the process or
/// engine that belongs to it and lets go of it when the handle is released.
#[derive(Clone, Copy, Debug, PartialEq, Eq, Structural)]
pub struct RunHandle {
    pub id: u64,
    pub runner: RunnerKind,
}

/// What the embedder must terminate.
#[derive(Clone, Copy, Debug, PartialEq, Eq, Structural)]
pub enum StopRequest {
    /// Kill the interpreter process of this run.
    KillProcess(RunHandle),
    /// Interrupt the engine of this run, wherever its evaluation stands.
    InterruptEngine(RunHandle),
}

impl RunHandle {
    /// How the run behind this handle is forced to end.
    pub open spec fn termination(self) -> StopRequest {
        match self.runner {
            RunnerKind::Process => StopRequest::KillProcess(self),
            RunnerKind::Embedded => StopRequest::InterruptEngine(self),
        }
    }

    /// The request that ends this run by force, for a user's stop as for a
    /// watchdog whose deadline has passed.
    pub fn terminate_request(&self) -> (request: StopRequest)
        ensures
            request == self.termination(),
    {
        match self.runner {
            RunnerKind::Process => StopRequest::KillProcess(*self),
            RunnerKind::Embedded => StopRequest::InterruptEngine(*self),
        }
    }
}

/// The result of a run whose runner broke down before it could return
/// one: a process run counts as one whose output could not be read, an
/// engine run as one whose evaluation failed.
pub open spec fn breakdown_result_of(runner: RunnerKind) -> RunResult {
    match runner {
        RunnerKind::Process => RunResult::Failed(FailureReason::ReadError),
        RunnerKind::Embedded => RunResult::Failed(FailureReason::EvaluationError),
    }
}

pub fn breakdown_result(runner: RunnerKind) -> (result: RunResult)
    ensures
        result == breakdown_result_of(runner),
{
    match runner {
        RunnerKind::Process => RunResult::Failed(FailureReason::ReadError),
        RunnerKind::Embedded => RunResult::Failed(FailureReason::EvaluationError),
    }
}

/// What to launch for an admitted run.
#[derive(Clone, Debug, PartialEq, Eq)]
pub struct LaunchPlan {
    pub handle: RunHandle,
    pub path: String,
    pub deadline_secs: u64,
}

/// The answer to a start.
#[derive(Clone, Debug, PartialEq, Eq)]
pub struct StartOutcome {
    pub accepted: bool,
    /// Clears the console for an admitted run, warns about a refused one.
    pub notification: Message<&'static str>,
    /// Present exactly when the run was admitted.
    pub launch: Option<LaunchPlan>,
}

/// The one report that closes a run.
#[derive(Clone, Copy, Debug, PartialEq, Eq)]
pub struct TerminalReport {
    pub result: RunResult,
    pub toast: Message<&'static str>,
    /// The handle of the run that ended, which nobody holds any longer.
    pub released: RunHandle,
}

/// The toast that tells the user how a run ended.
pub open spec fn terminal_toast_of(result: RunResult) -> Message<&'static str> {
    match result {
        RunResult::Completed => Message {
            container: MessageContainer::Toast,
            ty: MessageType::Success,
            action: MessageAction::NoAction,
            content: Some(SUCCESS_NOTICE),
        },
        RunResult::Terminated => Message {
            container: MessageContainer::Toast,
            ty: MessageType::Warn,
            action: MessageAction::NoAction,
            content: Some(TERMINATED_NOTICE),
        },
        RunResult::TimedOut => Message {
            container: MessageContainer::Toast,
            ty: MessageType::Error,
            action: MessageAction::NoAction,
            content: Some(TIMED_OUT_NOTICE),
        },
        RunResult::Failed(reason) => Message {
            container: MessageContainer::Toast,
            ty: MessageType::Error,
            action: MessageAction::NoAction,
            content: Some(reason.reason_text()),
        },
    }
}

/// Builds the toast for a result: success for a completed run, a warning
/// for a cancelled one, an error for one that timed out or failed.
pub fn terminal_toast(result: RunResult) -> (toast: Message<&'static str>)
    ensures
        toast == terminal_toast_of(result),
{
    match result {
        RunResult::Completed => Message::toast_success(Some(SUCCESS_NOTICE)),
        RunResult::Terminated => Message::toast_warn(Some(TERMINATED_NOTICE)),
        RunResult::TimedOut => Message::toast_error(Some(TIMED_OUT_NOTICE)),
        RunResult::Failed(reason) => Message::toast_error(Some(reason.text())),
    }
}

/// The notification that clears the console when a run begins.
pub open spec fn clear_notice() -> Message<&'static str> {
    Message {
        container: MessageContainer::Console,
        ty: MessageType::Info,
        action: MessageAction::Clear,
        content: None,
    }
}

/// The warning for a start that arrives while a run is under way.
pub open spec fn busy_notice() -> Message<&'static str> {
    Message {
        container: MessageContainer::Toast,
        ty: MessageType::Warn,
        action: MessageAction::NoAction,
        content: Some(BUSY_NOTICE),
    }
}

/// The number after `id`, starting over at zero after the largest.
pub open spec fn following_id(id: u64) -> u64 {
    if id == u64::MAX {
        0
    } else {
        (id + 1) as u64
    }
}

/// Everything the supervisor knows, as a plain value.
#[derive(Clone, Copy, Debug, PartialEq, Eq)]
pub struct SupervisorState {
    pub run: RunState,
    /// The handle of the run under way.
    pub active: Option<RunHandle>,
    /// The strategy for runs that start from now on.
    pub runner: RunnerKind,
    /// The deadline for runs that start from now on.
    pub deadline_secs: u64,
    /// The identifier that the next run gets.
    pub next_id: u64,
}

impl SupervisorState {
    /// An idle supervisor with the given configuration.
    pub open spec fn initial(runner: RunnerKind, deadline_secs: u64) -> SupervisorState {
        SupervisorState { run: RunState::idle(), active: None, runner, deadline_secs, next_id: 0 }
    }

    /// The run state is well formed, and a handle is held exactly while a
    /// run is under way.
    pub open spec fn wf(self) -> bool {
        &&& self.run.wf()
        &&& self.active is Some <==> self.run.running
    }

    /// The same state with another strategy for the runs to come.
    pub open spec fn with_runner(self, runner: RunnerKind) -> SupervisorState {
        SupervisorState { runner, ..self }
    }

    /// The handle that a run admitted now would get.
    pub open spec fn next_handle(self) -> RunHandle {
        RunHandle { id: self.next_id, runner: self.runner }
    }

    /// The state after a start: unchanged while a run is under way,
    /// otherwise running under a new handle.
    pub open spec fn after_start(self) -> SupervisorState {
        if self.run.running {
            self
        } else {
            SupervisorState {
                run: RunState::fresh_run(),
                active: Some(self.next_handle()),
                next_id: following_id(self.next_id),
                ..self
            }
        }
    }

    /// The answer to a start for `path`.
    pub open spec fn start_outcome(self, path: String) -> StartOutcome {
        if self.run.running {
            StartOutcome { accepted: false, notification: busy_notice(), launch: None }
        } else {
            StartOutcome {
                accepted: true,
                notification: clear_notice(),
                launch: Some(
                    LaunchPlan {
                        handle: self.next_handle(),
                        path,
                        deadline_secs: self.deadline_secs,
                    },
                ),
            }
        }
    }

    /// The state after `n` starts in a row.
    pub open spec fn after_starts(self, n: nat) -> SupervisorState
        decreases n,
    {
        if n == 0 {
            self
        } else {
            self.after_starts((n - 1) as nat).after_start()
        }
    }

    /// The state after a stop.
    pub open spec fn after_stop(self) -> SupervisorState {
        SupervisorState { run: self.run.cancelled(), ..self }
    }

    /// What a stop asks the embedder to terminate.
    pub open spec fn stop_request(self) -> Option<StopRequest> {
        match self.active {
            Some(handle) => Some(handle.termination()),
            None => None,
        }
    }

    /// The result that is reported for a run whose runner returned
    /// `result`: a run that the user asked to stop counts as terminated.
    pub open spec fn reported_result(self, result: RunResult) -> RunResult {
        if self.run.cancel_requested {
            RunResult::Terminated
        } else {
            result
        }
    }

    /// The terminal report for the run under way, if there is one.
    pub open spec fn terminal(self, result: RunResult) -> Option<TerminalReport> {
        match self.active {
            Some(handle) => Some(
                TerminalReport {
                    result: self.reported_result(result),
                    toast: terminal_toast_of(self.reported_result(result)),
                    released: handle,
                },
            ),
            None => None,
        }
    }

    /// The state after a run has finished.
    pub open spec fn after_finish(self) -> SupervisorState {
        SupervisorState { run: RunState::idle(), active: None, ..self }
    }
}

/// A call that the embedder makes on the supervisor.
#[derive(Clone, Copy, Debug, PartialEq, Eq, Structural)]
pub enum Command {
    Start,
    Stop,
    Finish,
}

impl SupervisorState {
    /// The state after one call.
    pub open spec fn after(self, command: Command) -> SupervisorState {
        match command {
            Command::Start => self.after_start(),
            Command::Stop => self.after_stop(),
            Command::Finish => self.after_finish(),
        }
    }

    /// The state after a sequence of calls, first call first.
    pub open spec fn after_all(self, commands: Seq<Command>) -> SupervisorState
        decreases commands.len(),
    {
        if commands.len() == 0 {
            self
        } else {
            self.after_all(commands.drop_last()).after(commands.last())
        }
    }

    /// A new supervisor is well formed and idle.
    pub proof fn lemma_initial_is_idle(runner: RunnerKind, deadline_secs: u64)
        ensures
            SupervisorState::initial(runner, deadline_secs).wf(),
            SupervisorState::initial(runner, deadline_secs).run == RunState::idle(),
    {
    }

    /// Every call leaves a well-formed state well formed.
    pub proof fn lemma_calls_keep_wf(self, command: Command)
        requires
            self.wf(),
        ensures
            self.after(command).wf(),
    {
    }

    /// Whatever is called and in whatever order, the state stays well
    /// formed: cancellation is requested only of a run under way, and a
    /// handle is held exactly while a run is under way.
    pub proof fn lemma_always_wf(self, commands: Seq<Command>)
        requires
            self.wf(),
        ensures
            self.after_all(commands).wf(),
        decreases commands.len(),
    {
        if commands.len() > 0 {
            self.lemma_always_wf(commands.drop_last());
            self.after_all(commands.drop_last()).lemma_calls_keep_wf(commands.last());
        }
    }

    /// Starts that arrive while a run is under way change nothing, however
    /// many there are.
    pub proof fn lemma_starts_during_run_change_nothing(self, n: nat)
        requires
            self.run.running,
        ensures
            self.after_starts(n) == self,
        decreases n,
    {
        if n > 0 {
            self.lemma_starts_during_run_change_nothing((n - 1) as nat);
        }
    }

    /// After one start or more a run is under way, and the state is the one
    /// that the first start left.
    pub proof fn lemma_first_start_decides(self, n: nat)
        requires
            n >= 1,
        ensures
            self.after_starts(n).run.running,
            self.after_starts(n) == self.after_start(),
        decreases n,
    {
        if n > 1 {
            self.lemma_first_start_decides((n - 1) as nat);
        } else {
            assert(self.after_starts(0) == self);
        }
    }

    /// Single flight. Of starts that follow one another with no run ending
    /// in between, the one at position `k` is admitted exactly when it is
    /// the first and no run was under way before; every later one is turned
    /// away and leaves the state as it found it.
    pub proof fn lemma_single_flight(self, paths: Seq<String>, k: int)
        requires
            0 <= k < paths.len(),
        ensures
            self.after_starts(k as nat).start_outcome(paths[k]).accepted <==> (k == 0
                && !self.run.running),
            k >= 1 ==> self.after_starts((k + 1) as nat) == self.after_starts(k as nat),
            k >= 1 ==> self.after_starts(k as nat).start_outcome(paths[k]).launch is None,
            self.run.running ==> self.after_starts((k + 1) as nat) == self,
    {
        if k >= 1 {
            self.lemma_first_start_decides(k as nat);
            self.lemma_first_start_decides((k + 1) as nat);
        }
        if self.run.running {
            self.lemma_starts_during_run_change_nothing((k + 1) as nat);
        }
    }

    /// A run lasts until it is finished: as long as no finish is among
    /// the calls, the run under way stays the same run, and a finish that
    /// follows gets its report.
    pub proof fn lemma_run_lasts_until_finished(self, commands: Seq<Command>, result: RunResult)
        requires
            self.wf(),
            self.run.running,
            forall|i: int| 0 <= i < commands.len() ==> !(#[trigger] commands[i] is Finish),
        ensures
            self.after_all(commands).run.running,
            self.after_all(commands).active == self.active,
            self.after_all(commands).terminal(result) matches Some(report) && Some(
                report.released,
            ) == self.active,
        decreases commands.len(),
    {
        if commands.len() > 0 {
            self.lemma_run_lasts_until_finished(commands.drop_last(), result);
        }
    }

    /// A stop on an idle supervisor asks for nothing and changes nothing.
    pub proof fn lemma_stop_when_idle(self)
        requires
            self.wf(),
            !self.run.running,
        ensures
            self.stop_request() is None,
            self.after_stop() == self,
    {
    }

    /// A second stop does what the first did.
    pub proof fn lemma_stop_is_idempotent(self)
        ensures
            self.after_stop().after_stop() == self.after_stop(),
            self.after_stop().stop_request() == self.stop_request(),
    {
    }

    /// A run that was asked to stop ends as terminated, with the warning
    /// toast, whatever its runner returns.
    pub proof fn lemma_stopped_run_ends_terminated(self, result: RunResult)
        requires
            self.wf(),
            self.run.running,
        ensures
            self.after_stop().terminal(result) matches Some(report) && report.result
                == RunResult::Terminated && report.toast == terminal_toast_of(
                RunResult::Terminated,
            ) && Some(report.released) == self.active,
    {
    }

    /// A run that nobody asked to stop ends with the result of its runner.
    pub proof fn lemma_unstopped_run_ends_as_returned(self, result: RunResult)
        requires
            self.wf(),
            self.run.running,
            !self.run.cancel_requested,
        ensures
            self.terminal(result) matches Some(report) && report.result == result,
    {
    }

    /// Whatever the result, a finished run leaves the run state idle, so
    /// that the next start is admitted; and a run is reported once: after
    /// its report there is nothing left to report.
    pub proof fn lemma_finish_frees_the_supervisor(self, again: RunResult, path: String)
        ensures
            self.after_finish().run == RunState::idle(),
            self.after_finish().wf(),
            self.after_finish().terminal(again) is None,
            self.after_finish().start_outcome(path).accepted,
    {
    }

    /// Two runs in a row get different handles.
    pub proof fn lemma_next_run_gets_new_handle(self)
        requires
            self.wf(),
            !self.run.running,
        ensures
            self.after_start().after_finish().after_start().active != self.after_start().active,
    {
    }
}

/// Admits one run at a time and closes each run with one report.
#[derive(Debug)]
pub struct Supervisor {
    inner: SupervisorState,
}

impl View for Supervisor {
    type V = SupervisorState;

    closed spec fn view(&self) -> SupervisorState {
        self.inner
    }
}

impl Default for Supervisor {
    /// An idle supervisor that runs scripts in an interpreter process and
    /// gives each run the default deadline.
    fn default() -> (supervisor: Supervisor)
        ensures
            supervisor@ == SupervisorState::initial(RunnerKind::Process, DEFAULT_DEADLINE_SECS),
    {
        Supervisor::new(RunnerKind::Process, DEFAULT_DEADLINE_SECS)
    }
}

impl Supervisor {
    #[verifier::type_invariant]
    spec fn inv(self) -> bool {
        self.inner.wf()
    }

    /// An idle supervisor.
    pub fn new(runner: RunnerKind, deadline_secs: u64) -> (supervisor: Supervisor)
        ensures
            supervisor@ == SupervisorState::initial(runner, deadline_secs),
    {
        Supervisor {
            inner: SupervisorState {
                run: RunState { running: false, cancel_requested: false },
                active: None,
                runner,
                deadline_secs,
                next_id: 0,
            },
        }
    }

    /// The supervisor's state as a plain value. It is well formed at all
    /// times.
    pub fn snapshot(&self) -> (state: SupervisorState)
        ensures
            state == self@,
            self@.wf(),
    {
        proof {
            use_type_invariant(self);
        }
        self.inner
    }

    /// The two flags of the run state.
    pub fn run_state(&self) -> (run: RunState)
        ensures
            run == self@.run,
            run.wf(),
    {
        proof {
            use_type_invariant(self);
        }
        self.inner.run
    }

    /// Chooses the strategy for the runs that start after this call. A run
    /// under way keeps the strategy it started with.
    pub fn set_runner(&mut self, runner: RunnerKind)
        ensures
            final(self)@ == (SupervisorState { runner, ..old(self)@ }),
    {
        proof {
            use_type_invariant(&*self);
        }
        self.inner.runner = runner;
    }

    /// Sets the deadline for the runs that start after this call.
    pub fn set_deadline_secs(&mut self, deadline_secs: u64)
        ensures
            final(self)@ == (SupervisorState { deadline_secs, ..old(self)@ }),
    {
        proof {
            use_type_invariant(&*self);
        }
        self.inner.deadline_secs = deadline_secs;
    }

    /// Asks to run the script at `path`.
    ///
    /// While a run is under way the call is turned away with a warning and
    /// changes nothing. Otherwise the run state becomes running, the console
    /// is cleared, and the answer carries what to launch.
    pub fn start(&mut self, path: String) -> (outcome: StartOutcome)
        ensures
            old(self)@.wf(),
            final(self)@.wf(),
            outcome == old(self)@.start_outcome(path),
            final(self)@ == old(self)@.after_start(),
            outcome.accepted <==> !old(self)@.run.running,
            !outcome.accepted ==> final(self)@ == old(self)@,
    {
        proof {
            use_type_invariant(&*self);
        }
        if self.inner.run.check_js_running() {
            return StartOutcome {
                accepted: false,
                notification: Message::toast_warn(Some(BUSY_NOTICE)),
                launch: None,
            };
        }
        let handle = RunHandle { id: self.inner.next_id, runner: self.inner.runner };
        let next_id: u64 = if self.inner.next_id == u64::MAX {
            0
        } else {
            self.inner.next_id + 1
        };
        let mut run = self.inner.run;
        run.run_new();
        self.inner = SupervisorState {
            run,
            active: Some(handle),
            runner: self.inner.runner,
            deadline_secs: self.inner.deadline_secs,
            next_id,
        };
        StartOutcome {
            accepted: true,
            notification: Message::console_clear(None),
            launch: Some(LaunchPlan { handle, path, deadline_secs: self.inner.deadline_secs }),
        }
    }

    /// Asks to run the script at `path` with the given strategy.
    ///
    /// While a run is under way the call is turned away and changes
    /// nothing, the strategy for later runs included. Otherwise the strategy
    /// is chosen and the run is admitted as by [`Supervisor::start`].
    pub fn start_with(&mut self, runner: RunnerKind, path: String) -> (outcome: StartOutcome)
        ensures
            final(self)@.wf(),
            outcome.accepted <==> !old(self)@.run.running,
            old(self)@.run.running ==> outcome == old(self)@.start_outcome(path) && final(self)@
                == old(self)@,
            !old(self)@.run.running ==> outcome == old(self)@.with_runner(runner).start_outcome(
                path,
            ) && final(self)@ == old(self)@.with_runner(runner).after_start(),
    {
        proof {
            use_type_invariant(&*self);
        }
        if !self.inner.run.check_js_running() {
            self.set_runner(runner);
        }
        self.start(path)
    }

    /// Asks to stop the run under way.
    ///
    /// Without a run nothing happens and nothing is asked for. With one,
    /// cancellation is recorded and the answer names what to terminate; the
    /// run itself ends later, with its terminal report.
    pub fn stop(&mut self) -> (request: Option<StopRequest>)
        ensures
            old(self)@.wf(),
            final(self)@.wf(),
            request == old(self)@.stop_request(),
            final(self)@ == old(self)@.after_stop(),
            request is Some <==> old(self)@.run.running,
            !old(self)@.run.running ==> final(self)@ == old(self)@,
    {
        proof {
            use_type_invariant(&*self);
        }
        let mut run = self.inner.run;
        let was_running = run.terminate_command();
        match self.inner.active {
            Some(handle) => {
                self.inner = SupervisorState {
                    run,
                    active: self.inner.active,
                    runner: self.inner.runner,
                    deadline_secs: self.inner.deadline_secs,
                    next_id: self.inner.next_id,
                };
                Some(handle.terminate_request())
            },
            None => None,
        }
    }

    /// Closes the run under way with the result that its runner returned.
    ///
    /// The run state is cleared whatever the result is. The report carries
    /// the result, which is `Terminated` where the user had asked to stop,
    /// the matching toast, and the handle that is released. Without a run
    /// there is nothing to close and nothing is reported.
    pub fn on_run_finished(&mut self, result: RunResult) -> (report: Option<TerminalReport>)
        ensures
            old(self)@.wf(),
            final(self)@.wf(),
            report == old(self)@.terminal(result),
            final(self)@ == old(self)@.after_finish(),
            final(self)@.run == RunState::idle(),
            report is Some <==> old(self)@.run.running,
    {
        proof {
            use_type_invariant(&*self);
        }
        let cancelled = self.inner.run.terminated();
        let active = self.inner.active;
        let mut run = self.inner.run;
        run.reset();
        self.inner = SupervisorState {
            run,
            active: None,
            runner: self.inner.runner,
            deadline_secs: self.inner.deadline_secs,
            next_id: self.inner.next_id,
        };
        match active {
            Some(handle) => {
                let reported = if cancelled {
                    RunResult::Terminated
                } else {
                    result
                };
                Some(TerminalReport { result: reported, toast: terminal_toast(reported), released: handle })
            },
            None => None,
        }
    }
}

} // verus!
