use rust_executor::{
    after_compile, after_run, begin, classify_run, compile_failure, completion, finish,
    has_entry_point, normalize_source, rejection, run_poll_step, server_failure, timeout_failure,
    CompileOutcome, PollAction, RUN_DEADLINE_MS,
    ResponseStatus, RunOutcome, Step, Verdict, RUN_DEADLINE_SECS,
};

fn respond(step: Step) -> Verdict {
    match step {
        Step::Respond { verdict } => verdict,
        other => panic!("expected an answer, got {:?}", other),
    }
}

fn completed(code: Option<i32>, stdout: &str, stderr: &str) -> RunOutcome {
    RunOutcome::Completed { exit_code: code, stdout: stdout.to_string(), stderr: stderr.to_string() }
}

#[test]
fn empty_code_is_rejected() {
    let v = respond(begin(""));
    assert_eq!(v.status, ResponseStatus::BadRequest);
    assert!(!v.success);
    assert_eq!(v.output, "");
    assert_eq!(v.error.as_deref(), Some("No code provided"));
}

#[test]
fn whitespace_only_code_is_rejected() {
    for code in [" ", "\n", "\t \r\n", "\u{3000}\u{a0}"] {
        let v = respond(begin(code));
        assert_eq!(v.status, ResponseStatus::BadRequest);
        assert!(!v.success);
        assert_eq!(v.error.as_deref(), Some("No code provided"));
    }
}

#[test]
fn complete_program_is_compiled_unchanged() {
    let code = "fn main() {\n    println!(\"hello\");\n}\n";
    match begin(code) {
        Step::Compile { source } => assert_eq!(source, code),
        other => panic!("expected a compile step, got {:?}", other),
    }
}

#[test]
fn bare_statements_are_wrapped() {
    let code = "println!(\"hi\");";
    match begin(code) {
        Step::Compile { source } => assert_eq!(source, "fn main() {\nprintln!(\"hi\");\n}"),
        other => panic!("expected a compile step, got {:?}", other),
    }
}

#[test]
fn normalizer_keeps_or_wraps() {
    assert_eq!(normalize_source("let x = 1;"), "fn main() {\nlet x = 1;\n}");
    assert_eq!(normalize_source("fn main(){}"), "fn main(){}");
    let wrapped = normalize_source("  x  ");
    assert!(wrapped.contains("  x  "));
}

#[test]
fn marker_in_a_comment_suppresses_wrapping() {
    let code = "// fn main is not here\nlet y = 2;";
    assert!(has_entry_point(code));
    assert_eq!(normalize_source(code), code);
    assert!(!has_entry_point("fn mai"));
    assert!(!has_entry_point("fnmain()"));
}

#[test]
fn compile_failure_reports_diagnostics() {
    let diag = "error: expected one of `.`, `;`\n --> main.rs:2:1\n";
    let step = after_compile(&CompileOutcome { succeeded: false, stderr_text: diag.to_string() });
    let v = respond(step);
    assert_eq!(v.status, ResponseStatus::Classified);
    assert!(!v.success);
    assert_eq!(v.output, "");
    let e = v.error.unwrap();
    assert!(e.starts_with("Compilation error:\n"));
    assert_eq!(e, format!("Compilation error:\n{}", diag));
    assert_eq!(compile_failure("").error.as_deref(), Some("Compilation error:\n"));
}

#[test]
fn compile_success_goes_on_to_run() {
    let step = after_compile(&CompileOutcome { succeeded: true, stderr_text: "warning: x".to_string() });
    assert!(matches!(step, Step::Run));
}

#[test]
fn hello_program_succeeds() {
    let v = after_run(&completed(Some(0), "hello\n", ""));
    assert_eq!(v.status, ResponseStatus::Classified);
    assert!(v.success);
    assert_eq!(v.output, "hello\n");
    assert_eq!(v.error, None);
}

#[test]
fn timeout_is_reported_exactly() {
    let v = after_run(&RunOutcome::TimedOut);
    assert_eq!(v.status, ResponseStatus::Classified);
    assert!(!v.success);
    assert_eq!(v.error.as_deref(), Some("Execution timed out after 5 seconds"));
    assert_eq!(timeout_failure().error, v.error);
    assert_eq!(RUN_DEADLINE_SECS, 5);
}

#[test]
fn nonzero_exit_keeps_partial_output() {
    let v = after_run(&completed(Some(1), "partial", "boom"));
    assert_eq!(v.status, ResponseStatus::Classified);
    assert!(!v.success);
    assert_eq!(v.output, "partial");
    let e = v.error.unwrap();
    assert!(e.starts_with("Process exited with code:"));
    assert_eq!(e, "Process exited with code: 1\nboom");
}

#[test]
fn exit_codes_are_written_in_decimal() {
    let text = |c: Option<i32>| completion(c, "", "err").error.unwrap();
    assert_eq!(text(Some(101)), "Process exited with code: 101\nerr");
    assert_eq!(text(Some(-3)), "Process exited with code: -3\nerr");
    assert_eq!(text(Some(i32::MIN)), "Process exited with code: -2147483648\nerr");
    assert_eq!(text(Some(i32::MAX)), "Process exited with code: 2147483647\nerr");
    assert_eq!(text(None), "Process exited with code: none (ended by a signal)\nerr");
    for c in [-1000, -10, -9, -1, 1, 9, 10, 99, 100, 255, 65535] {
        assert_eq!(text(Some(c)), format!("Process exited with code: {}\nerr", c));
    }
}

#[test]
fn silent_program_gets_placeholder() {
    let v = after_run(&completed(Some(0), "", "some stderr"));
    assert!(v.success);
    assert_eq!(v.output, "(No output)");
    assert_eq!(v.error, None);
}

#[test]
fn launch_failure_is_a_server_error() {
    let v = classify_run(&RunOutcome::LaunchFailed { reason: "No such file".to_string() });
    assert_eq!(v.status, ResponseStatus::InternalError);
    assert!(!v.success);
    assert_eq!(v.output, "");
    assert_eq!(v.error.as_deref(), Some("Server error: No such file"));
}

#[test]
fn server_failure_prefixes_detail() {
    let v = server_failure("disk full");
    assert_eq!(v.status, ResponseStatus::InternalError);
    assert_eq!(v.error.as_deref(), Some("Server error: disk full"));
}

#[test]
fn every_verdict_is_consistent() {
    let verdicts = vec![
        rejection(),
        compile_failure("bad"),
        timeout_failure(),
        completion(Some(0), "x", ""),
        completion(Some(0), "", ""),
        completion(Some(2), "x", "y"),
        completion(None, "", ""),
        server_failure("z"),
    ];
    for v in verdicts {
        assert_eq!(v.success, v.error.is_none());
    }
}

#[test]
fn finish_attaches_elapsed_time() {
    let r = finish(completion(Some(0), "hello\n", ""), 1234);
    assert!(r.success);
    assert_eq!(r.output, "hello\n");
    assert_eq!(r.error, None);
    assert_eq!(r.execution_time, 1234);
    let r = finish(rejection(), 0);
    assert!(!r.success);
    assert_eq!(r.error.as_deref(), Some("No code provided"));
    assert_eq!(r.execution_time, 0);
}

#[test]
fn watcher_waits_kills_or_reports() {
    assert_eq!(RUN_DEADLINE_MS, 5000);
    assert_eq!(run_poll_step(None, 0), PollAction::Wait);
    assert_eq!(run_poll_step(None, 4999), PollAction::Wait);
    assert_eq!(run_poll_step(None, 5000), PollAction::KillForTimeout);
    assert_eq!(run_poll_step(None, u64::MAX), PollAction::KillForTimeout);
    assert_eq!(run_poll_step(Some(Some(0)), 10), PollAction::Report { exit_code: Some(0) });
    assert_eq!(run_poll_step(Some(Some(3)), 6000), PollAction::Report { exit_code: Some(3) });
    assert_eq!(run_poll_step(Some(None), 1), PollAction::Report { exit_code: None });
}
