//! Decisions of a service that compiles a submitted Rust snippet, runs the
//! program under a deadline and reports a classified verdict.
//!
//! The library holds the request validation, the source normalisation, the
//! classification of compile and run outcomes, and the naming of the per-request
//! workspace. Process launching, timing and the network front end live around it.
pub mod health;
pub mod pipeline;
pub mod source;
pub mod text;
pub mod verdict;
pub mod workspace;

pub use source::{has_entry_point, normalize_source, lemma_normalization_keeps_code};
pub use text::{contains_text, is_blank};
pub use verdict::{
    classify_run, compile_failure, completion, finish, lemma_compile_failure_shape,
    lemma_verdicts_consistent, rejection, server_failure, timeout_failure,
    CompileOutcome, ExecutionResult, ResponseStatus, RunOutcome, Verdict, RUN_DEADLINE_MS,
    RUN_DEADLINE_SECS,
};
pub use health::{health_report, HealthReport};
pub use pipeline::{after_compile, after_run, begin, run_poll_step, PollAction, Step};
pub use workspace::{
    compiler_args, lemma_workspace_names_distinct, new_workspace_name, workspace_dir_name,
    ARTIFACT_FILE_NAME, SOURCE_FILE_NAME,
};
