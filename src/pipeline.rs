use vstd::prelude::*;

use crate::source::{normalize_source, normalized};
use crate::text::{blank, is_blank};
use crate::verdict::{
    classify_run, compile_failed, compile_failure, rejected, rejection, run_verdict, timed_out,
    RunOutcome, CompileOutcome, Verdict, RUN_DEADLINE_MS,
};

verus! {

/// What the request handler does next.
#[derive(Debug)]
pub enum Step {
    /// Answer with this verdict; no further work is done.
    Respond { verdict: Verdict },
    /// Provision a workspace, write this source into it and compile it.
    Compile { source: String },
    /// Run the compiled program under the deadline.
    Run,
}

/// The first step for the submission `code`: a blank submission is answered
/// at once, before any workspace exists; any other is normalised and compiled.
pub fn begin(code: &str) -> (r: Step)
    ensures
        blank(code@) <==> r is Respond,
        blank(code@) ==> r->verdict@ == rejected(),
        !blank(code@) ==> r is Compile && r->source@ == normalized(code@),
{
    if is_blank(code) {
        Step::Respond { verdict: rejection() }
    } else {
        Step::Compile { source: normalize_source(code) }
    }
}

/// The step after the compile phase: run the program when the compiler
/// succeeded, otherwise answer with its diagnostics and never run anything.
pub fn after_compile(outcome: &CompileOutcome) -> (r: Step)
    ensures
        outcome.succeeded <==> r is Run,
        !outcome.succeeded ==> r is Respond && r->verdict@ == compile_failed(outcome.stderr_text@),
{
    if outcome.succeeded {
        Step::Run
    } else {
        Step::Respond { verdict: compile_failure(outcome.stderr_text.as_str()) }
    }
}

/// The answer after the run phase.
pub fn after_run(outcome: &RunOutcome) -> (r: Verdict)
    ensures
        r@ == run_verdict(*outcome),
        *outcome is TimedOut ==> r@ == timed_out(),
{
    classify_run(outcome)
}

/// What the watcher of a running program does after one look at it.
#[derive(Clone, Copy, Debug, PartialEq, Eq, Structural)]
pub enum PollAction {
    /// The program has ended with this exit code: report its completion.
    Report { exit_code: Option<i32> },
    /// The deadline has passed: kill the program and report a timeout.
    KillForTimeout,
    /// Look again later.
    Wait,
}

/// The watcher's decision, given whether the program has ended (and with
/// which exit code) and how many milliseconds have passed since its launch.
/// A program that has ended is reported even when the deadline has passed.
pub fn run_poll_step(exited: Option<Option<i32>>, elapsed_ms: u64) -> (r: PollAction)
    ensures
        exited is Some ==> r == (PollAction::Report { exit_code: exited->0 }),
        exited is None && elapsed_ms >= RUN_DEADLINE_MS ==> r == PollAction::KillForTimeout,
        exited is None && elapsed_ms < RUN_DEADLINE_MS ==> r == PollAction::Wait,
{
    match exited {
        Some(code) => PollAction::Report { exit_code: code },
        None => if elapsed_ms >= RUN_DEADLINE_MS {
            PollAction::KillForTimeout
        } else {
            PollAction::Wait
        },
    }
}

} // verus!
