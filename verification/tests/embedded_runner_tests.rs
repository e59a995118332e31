use script_supervisor::embedded_runner::{
    engine_chunks, engine_outcome, engine_result, finish, main_module, main_module_from,
    op_print_msg,
    ConsoleResult, EngineOutcome, OutputBuffer,
};
use std::path::Path;
use script_supervisor::outcome::{FailureReason, OutputChunk, OutputSource, RunResult};

fn buffer_of(lines: &[&str]) -> OutputBuffer {
    let mut buffer = OutputBuffer::new();
    for l in lines {
        op_print_msg(&mut buffer, String::from(*l));
    }
    buffer
}

fn engine_chunk(text: &str) -> OutputChunk {
    OutputChunk { source: OutputSource::Engine, text: String::from(text) }
}

#[test]
fn a_new_buffer_is_empty() {
    let mut buffer = OutputBuffer::new();
    assert_eq!(buffer.len(), 0);
    assert_eq!(buffer.take(), Vec::<String>::new());
}

#[test]
fn printing_appends_the_line_and_replies_with_nothing() {
    let mut buffer = OutputBuffer::new();
    let reply = op_print_msg(&mut buffer, String::from("one"));
    assert_eq!(reply, "");
    assert_eq!(buffer.len(), 1);
    let reply = op_print_msg(&mut buffer, String::from("two"));
    assert_eq!(reply, "");
    assert_eq!(buffer.len(), 2);
    assert_eq!(buffer.take(), vec![String::from("one"), String::from("two")]);
}

#[test]
fn taking_leaves_the_buffer_empty() {
    let mut buffer = buffer_of(&["a", "b", "c"]);
    assert_eq!(buffer.take().len(), 3);
    assert_eq!(buffer.len(), 0);
    assert_eq!(buffer.take(), Vec::<String>::new());
}

#[test]
fn no_line_collects_to_the_empty_text() {
    assert_eq!(ConsoleResult::collect(Vec::new()), ConsoleResult::S(String::new()));
}

#[test]
fn one_line_collects_to_that_line() {
    assert_eq!(
        ConsoleResult::collect(vec![String::from("hello")]),
        ConsoleResult::S(String::from("hello"))
    );
}

#[test]
fn several_lines_collect_to_the_list() {
    assert_eq!(
        ConsoleResult::collect(vec![String::from("a"), String::from("b")]),
        ConsoleResult::V(vec![String::from("a"), String::from("b")])
    );
    assert_eq!(
        ConsoleResult::collect(vec![String::from("b"), String::new(), String::from("a")]),
        ConsoleResult::V(vec![String::from("b"), String::new(), String::from("a")])
    );
}

#[test]
fn engine_outcomes_map_to_results() {
    assert_eq!(engine_result(EngineOutcome::Evaluated), RunResult::Completed);
    assert_eq!(
        engine_result(EngineOutcome::EvaluationFailed),
        RunResult::Failed(FailureReason::EvaluationError)
    );
    assert_eq!(engine_result(EngineOutcome::DeadlineElapsed), RunResult::TimedOut);
}

#[test]
fn lines_become_engine_chunks_in_order() {
    let lines = vec![String::from("2"), String::from("1"), String::from("2")];
    assert_eq!(
        engine_chunks(&lines),
        vec![engine_chunk("2"), engine_chunk("1"), engine_chunk("2")]
    );
    assert_eq!(engine_chunks(&Vec::new()), Vec::<OutputChunk>::new());
}

#[test]
fn a_script_past_its_deadline_times_out_and_keeps_its_output() {
    let report = finish(buffer_of(&["tick 1", "tick 2", "tick 3"]), EngineOutcome::DeadlineElapsed);
    assert_eq!(report.result, RunResult::TimedOut);
    assert_eq!(
        report.chunks,
        vec![engine_chunk("tick 1"), engine_chunk("tick 2"), engine_chunk("tick 3")]
    );
    assert_eq!(
        report.console,
        ConsoleResult::V(vec![
            String::from("tick 1"),
            String::from("tick 2"),
            String::from("tick 3"),
        ])
    );
}

#[test]
fn a_script_that_failed_keeps_its_output() {
    let report = finish(buffer_of(&["before the throw"]), EngineOutcome::EvaluationFailed);
    assert_eq!(report.result, RunResult::Failed(FailureReason::EvaluationError));
    assert_eq!(report.chunks, vec![engine_chunk("before the throw")]);
    assert_eq!(report.console, ConsoleResult::S(String::from("before the throw")));
}

#[test]
fn a_script_that_ran_to_its_end_completes() {
    let report = finish(buffer_of(&["hello"]), EngineOutcome::Evaluated);
    assert_eq!(report.result, RunResult::Completed);
    assert_eq!(report.chunks, vec![engine_chunk("hello")]);
    assert_eq!(report.console, ConsoleResult::S(String::from("hello")));
}

#[test]
fn a_silent_script_delivers_no_chunk() {
    for outcome in [
        EngineOutcome::Evaluated,
        EngineOutcome::EvaluationFailed,
        EngineOutcome::DeadlineElapsed,
    ] {
        let report = finish(OutputBuffer::new(), outcome);
        assert_eq!(report.chunks, Vec::<OutputChunk>::new());
        assert_eq!(report.console, ConsoleResult::S(String::new()));
        assert_eq!(report.result, engine_result(outcome));
    }
}

#[test]
fn a_relative_path_resolves_against_the_current_directory() {
    assert_eq!(main_module("ok.js", "/work/scripts"), Ok(String::from("file:///work/scripts/ok.js")));
    assert_eq!(
        main_module("../lib/loop.js", "/work/scripts"),
        Ok(String::from("file:///work/lib/loop.js"))
    );
}

#[test]
fn an_absolute_path_resolves_to_itself() {
    assert_eq!(main_module("/opt/ok.js", "/work"), Ok(String::from("file:///opt/ok.js")));
}

#[test]
fn a_url_is_taken_as_it_is() {
    assert_eq!(
        main_module("https://example.com/mod.js", "/work"),
        Ok(String::from("https://example.com/mod.js"))
    );
}

#[test]
fn a_path_that_cannot_be_resolved_fails_the_evaluation() {
    assert_eq!(main_module("http://[", "/work"), Err(EngineOutcome::EvaluationFailed));
    assert_eq!(main_module("ok.js", "not/absolute"), Err(EngineOutcome::EvaluationFailed));
}

#[test]
fn a_resolution_is_passed_on_and_an_error_fails_the_evaluation() {
    assert_eq!(
        main_module_from(Ok(String::from("file:///a.js"))),
        Ok(String::from("file:///a.js"))
    );
    let error = deno_path_util::resolve_url_or_path("http://[", Path::new("/")).unwrap_err();
    assert_eq!(main_module_from(Err(error)), Err(EngineOutcome::EvaluationFailed));
}

#[test]
fn the_deadline_wins_the_race_when_it_passes_first() {
    for evaluated in [None, Some(false), Some(true)] {
        assert_eq!(engine_outcome(true, evaluated), EngineOutcome::DeadlineElapsed);
    }
}

#[test]
fn the_evaluation_decides_when_it_ends_before_the_deadline() {
    assert_eq!(engine_outcome(false, Some(true)), EngineOutcome::Evaluated);
    assert_eq!(engine_outcome(false, Some(false)), EngineOutcome::EvaluationFailed);
    assert_eq!(engine_outcome(false, None), EngineOutcome::EvaluationFailed);
}
