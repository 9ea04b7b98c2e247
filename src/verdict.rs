use vstd::prelude::*;
use vstd::string::StringExecFns;

use crate::text::{decimal, push_decimal};

verus! {

/// How the front end answers a request: a classified outcome, a rejected
/// request, or a failure of the service itself.
#[derive(Clone, Copy, Debug, PartialEq, Eq, Structural)]
pub enum ResponseStatus {
    Classified,
    BadRequest,
    InternalError,
}

/// The classified outcome of one request, before its elapsed time is known.
#[derive(Debug)]
pub struct Verdict {
    pub status: ResponseStatus,
    pub success: bool,
    pub output: String,
    pub error: Option<String>,
}

/// The reply body: the verdict together with the wall time, in milliseconds,
/// from the request's acceptance to its classification.
#[derive(Debug)]
pub struct ExecutionResult {
    pub success: bool,
    pub output: String,
    pub error: Option<String>,
    pub execution_time: u64,
}

/// What the compile phase reports: whether the compiler succeeded, and its
/// diagnostics.
#[derive(Debug)]
pub struct CompileOutcome {
    pub succeeded: bool,
    pub stderr_text: String,
}

/// What the run phase reports.
#[derive(Debug)]
pub enum RunOutcome {
    /// The program ended within the deadline. `exit_code` is `None` when it
    /// was ended by a signal; it succeeded exactly when the code is zero.
    Completed { exit_code: Option<i32>, stdout: String, stderr: String },
    /// The program was still running at the deadline and was killed.
    TimedOut,
    /// The program could not be started.
    LaunchFailed { reason: String },
}

/// A verdict as plain values.
pub struct VerdictModel {
    pub status: ResponseStatus,
    pub success: bool,
    pub output: Seq<char>,
    pub error: Option<Seq<char>>,
}

impl View for Verdict {
    type V = VerdictModel;

    open spec fn view(&self) -> VerdictModel {
        VerdictModel {
            status: self.status,
            success: self.success,
            output: self.output@,
            error: match self.error {
                Some(e) => Some(e@),
                None => None,
            },
        }
    }
}

impl VerdictModel {
    /// A verdict reports an error exactly when it reports no success.
    pub open spec fn consistent(self) -> bool {
        self.success <==> self.error is None
    }
}

/// The wall-clock limit of the run phase, in seconds.
pub const RUN_DEADLINE_SECS: u64 = 5;

/// The wall-clock limit of the run phase, in milliseconds.
pub const RUN_DEADLINE_MS: u64 = RUN_DEADLINE_SECS * 1000;

/// The output reported for a successful program that printed nothing.
pub open spec fn no_output_text() -> Seq<char> {
    "(No output)"@
}

/// The answer to an empty or blank submission.
pub open spec fn rejected() -> VerdictModel {
    VerdictModel {
        status: ResponseStatus::BadRequest,
        success: false,
        output: Seq::empty(),
        error: Some("No code provided"@),
    }
}

/// The answer when the compiler rejected the source with diagnostics `diag`.
pub open spec fn compile_failed(diag: Seq<char>) -> VerdictModel {
    VerdictModel {
        status: ResponseStatus::Classified,
        success: false,
        output: Seq::empty(),
        error: Some("Compilation error:\n"@ + diag),
    }
}

/// The answer when the program overran the deadline.
pub open spec fn timed_out() -> VerdictModel {
    VerdictModel {
        status: ResponseStatus::Classified,
        success: false,
        output: Seq::empty(),
        error: Some("Execution timed out after 5 seconds"@),
    }
}

/// How an exit code is written in an error: the code in decimal. A program
/// ended by a signal has no exit code; this library then writes the fixed
/// text `none (ended by a signal)`.
pub open spec fn exit_code_text(code: Option<i32>) -> Seq<char> {
    match code {
        Some(c) => decimal(c as int),
        None => "none (ended by a signal)"@,
    }
}

/// The answer when the program ended within the deadline.
pub open spec fn completed(code: Option<i32>, stdout: Seq<char>, stderr: Seq<char>) -> VerdictModel {
    if code == Some(0i32) {
        VerdictModel {
            status: ResponseStatus::Classified,
            success: true,
            output: if stdout.len() == 0 { no_output_text() } else { stdout },
            error: None,
        }
    } else {
        VerdictModel {
            status: ResponseStatus::Classified,
            success: false,
            output: stdout,
            error: Some("Process exited with code: "@ + exit_code_text(code) + "\n"@ + stderr),
        }
    }
}

/// The answer when the service itself failed, with `detail` saying how.
pub open spec fn server_failed(detail: Seq<char>) -> VerdictModel {
    VerdictModel {
        status: ResponseStatus::InternalError,
        success: false,
        output: Seq::empty(),
        error: Some("Server error: "@ + detail),
    }
}

/// The answer for a run outcome.
pub open spec fn run_verdict(outcome: RunOutcome) -> VerdictModel {
    match outcome {
        RunOutcome::Completed { exit_code, stdout, stderr } => completed(exit_code, stdout@, stderr@),
        RunOutcome::TimedOut => timed_out(),
        RunOutcome::LaunchFailed { reason } => server_failed(reason@),
    }
}

/// The verdict for an empty or blank submission.
pub fn rejection() -> (r: Verdict)
    ensures
        r@ == rejected(),
{
    Verdict {
        status: ResponseStatus::BadRequest,
        success: false,
        output: String::new(),
        error: Some(String::from_str("No code provided")),
    }
}

/// The verdict for a compile failure with diagnostics `diag`.
pub fn compile_failure(diag: &str) -> (r: Verdict)
    ensures
        r@ == compile_failed(diag@),
{
    let mut e = String::from_str("Compilation error:\n");
    e.append(diag);
    Verdict { status: ResponseStatus::Classified, success: false, output: String::new(), error: Some(e) }
}

/// The verdict for a run that overran the deadline.
pub fn timeout_failure() -> (r: Verdict)
    ensures
        r@ == timed_out(),
{
    Verdict {
        status: ResponseStatus::Classified,
        success: false,
        output: String::new(),
        error: Some(String::from_str("Execution timed out after 5 seconds")),
    }
}

/// The verdict for a failure of the service itself.
pub fn server_failure(detail: &str) -> (r: Verdict)
    ensures
        r@ == server_failed(detail@),
{
    let mut e = String::from_str("Server error: ");
    e.append(detail);
    Verdict { status: ResponseStatus::InternalError, success: false, output: String::new(), error: Some(e) }
}

/// Appends the text of an exit code to `out`.
fn push_exit_code(out: &mut String, code: Option<i32>)
    ensures
        final(out)@ == old(out)@ + exit_code_text(code),
{
    match code {
        Some(c) => {
            push_decimal(out, c);
        },
        None => {
            out.append("none (ended by a signal)");
        },
    }
}

/// The verdict for a program that ended within the deadline.
pub fn completion(exit_code: Option<i32>, stdout: &str, stderr: &str) -> (r: Verdict)
    ensures
        r@ == completed(exit_code, stdout@, stderr@),
{
    if exit_code == Some(0i32) {
        let output = if stdout.is_empty() {
            String::from_str("(No output)")
        } else {
            String::from_str(stdout)
        };
        Verdict { status: ResponseStatus::Classified, success: true, output, error: None }
    } else {
        let mut e = String::from_str("Process exited with code: ");
        push_exit_code(&mut e, exit_code);
        e.append("\n");
        e.append(stderr);
        assert(e@ =~= "Process exited with code: "@ + exit_code_text(exit_code) + "\n"@ + stderr@);
        Verdict {
            status: ResponseStatus::Classified,
            success: false,
            output: String::from_str(stdout),
            error: Some(e),
        }
    }
}

/// The verdict for the outcome of the run phase.
pub fn classify_run(outcome: &RunOutcome) -> (r: Verdict)
    ensures
        r@ == run_verdict(*outcome),
        *outcome is TimedOut ==> r@ == timed_out(),
        r@.consistent(),
{
    match outcome {
        RunOutcome::Completed { exit_code, stdout, stderr } => completion(
            *exit_code,
            stdout.as_str(),
            stderr.as_str(),
        ),
        RunOutcome::TimedOut => timeout_failure(),
        RunOutcome::LaunchFailed { reason } => server_failure(reason.as_str()),
    }
}

/// The reply body for `v`, classified `elapsed_ms` milliseconds after the
/// request was accepted.
pub fn finish(v: Verdict, elapsed_ms: u64) -> (r: ExecutionResult)
    ensures
        r.success == v.success,
        r.output@ == v.output@,
        r.error == v.error,
        r.execution_time == elapsed_ms,
{
    ExecutionResult { success: v.success, output: v.output, error: v.error, execution_time: elapsed_ms }
}

/// A compile failure reports no output, and its error is the compilation
/// prefix followed by the compiler's diagnostics, unmodified.
pub proof fn lemma_compile_failure_shape(diag: Seq<char>)
    ensures
        compile_failed(diag).output.len() == 0,
        !compile_failed(diag).success,
        compile_failed(diag).error is Some,
        compile_failed(diag).error->0.subrange(0, 18) == "Compilation error:"@,
        compile_failed(diag).error->0.subrange(19, 19 + diag.len() as int) == diag,
        compile_failed(diag).error->0.len() == 19 + diag.len(),
{
    reveal_strlit("Compilation error:\n");
    reveal_strlit("Compilation error:");
    let e = "Compilation error:\n"@ + diag;
    assert(e.subrange(0, 18) =~= "Compilation error:"@);
    assert(e.subrange(19, 19 + diag.len() as int) =~= diag);
}

/// Every answer the service gives is consistent: it carries an error exactly
/// when it reports no success.
pub proof fn lemma_verdicts_consistent(
    diag: Seq<char>,
    code: Option<i32>,
    stdout: Seq<char>,
    stderr: Seq<char>,
    detail: Seq<char>,
)
    ensures
        rejected().consistent(),
        compile_failed(diag).consistent(),
        timed_out().consistent(),
        completed(code, stdout, stderr).consistent(),
        server_failed(detail).consistent(),
{
}

} // verus!
