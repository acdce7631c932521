use code_runner::admission::Admission;
use code_runner::dispatch::Dispatcher;
use code_runner::error::ErrorKind;
use code_runner::language::Language;
use code_runner::outcome::{classify_step, combine_output, failure, labelled_output, ExecutionOutcome, StepResult};
use code_runner::profile::{direct_profile, runner_profile};
use code_runner::workspace::Workspace;

fn exited(stdout: &str, stderr: &str, code: Option<i32>) -> StepResult {
    StepResult::Exited { stdout: stdout.as_bytes().to_vec(), stderr: stderr.as_bytes().to_vec(), code }
}

#[test]
fn hello_world_runs_cleanly() {
    for l in [Language::Python, Language::JavaScript, Language::Java, Language::Cpp] {
        let ws = Workspace::new("/tmp/codeexec", "hello", l);
        let p = direct_profile(l);
        let mut d = Dispatcher::new(&p, &ws);
        while d.is_build_step() {
            assert!(d.current().is_some());
            d.finish_step(exited("", "", Some(0)));
        }
        assert!(d.current().is_some());
        d.finish_step(exited("Hello, World!\n", "", Some(0)));
        assert!(d.current().is_none());
        let o = d.into_outcome().unwrap();
        assert_eq!(o.stdout, "Hello, World!\n");
        assert_eq!(o.exit_status, Some(0));
        assert_eq!(o.error_kind, None);
    }
}

#[test]
fn infinite_loop_times_out() {
    let ws = Workspace::new("/tmp/codeexec", "loop", Language::Python);
    let mut d = Dispatcher::new(&runner_profile(Language::Python), &ws);
    d.finish_step(StepResult::TimedOut { stdout: b"partial".to_vec(), stderr: Vec::new() });
    assert!(d.current().is_none());
    let o = d.outcome().unwrap();
    assert_eq!(o.error_kind, Some(ErrorKind::TimedOut));
    assert_eq!(o.exit_status, None);
    assert_eq!(o.stdout, "partial");
    assert_eq!(o.error_text(), Some("Execution timed out".to_string()));
}

#[test]
fn compile_error_skips_run_step() {
    let ws = Workspace::new("/tmp/codeexec", "bad", Language::Cpp);
    let mut d = Dispatcher::new(&direct_profile(Language::Cpp), &ws);
    assert!(d.is_build_step());
    d.finish_step(exited("", "error: expected ';' before '}' token", Some(1)));
    assert!(d.current().is_none());
    let o = d.into_outcome().unwrap();
    assert_eq!(o.error_kind, Some(ErrorKind::CompileError));
    assert_eq!(o.stderr, "error: expected ';' before '}' token");
    assert!(!o.stderr.is_empty());
    assert_eq!(o.exit_status, Some(1));
}

#[test]
fn failing_program_is_not_a_system_error() {
    let ws = Workspace::new("/tmp/codeexec", "f", Language::Python);
    let mut d = Dispatcher::new(&runner_profile(Language::Python), &ws);
    assert!(!d.is_build_step());
    d.finish_step(exited("", "Traceback", Some(2)));
    let o = d.into_outcome().unwrap();
    assert_eq!(o.error_kind, None);
    assert_eq!(o.exit_status, Some(2));
    assert_eq!(o.stderr, "Traceback");
    assert_eq!(o.status_code(), 2);
}

#[test]
fn spawn_failure_is_infrastructure() {
    let o = classify_step(&StepResult::SpawnFailed { message: "No such file".to_string() }, false).unwrap();
    assert_eq!(o.error_kind, Some(ErrorKind::Infrastructure));
    assert_eq!(o.stderr, "No such file");
    assert_eq!(o.status_code(), -1);
    assert_eq!(o.error_text(), Some("Execution failed: No such file".to_string()));
}

#[test]
fn successful_build_step_continues() {
    assert!(classify_step(&exited("", "", Some(0)), true).is_none());
    let killed = classify_step(&exited("", "", None), true).unwrap();
    assert_eq!(killed.error_kind, Some(ErrorKind::CompileError));
}

#[test]
fn ascii_output_is_kept_verbatim() {
    let o = classify_step(&exited("Hello, World!\n", "", Some(0)), false).unwrap();
    assert_eq!(o.stdout, "Hello, World!\n");
}

#[test]
fn invalid_utf8_is_replaced() {
    let r = StepResult::Exited { stdout: vec![b'o', b'k', 0xff], stderr: Vec::new(), code: Some(0) };
    let o = classify_step(&r, false).unwrap();
    assert_eq!(o.stdout, "ok\u{FFFD}");
    assert_eq!(o.stderr, "");
}

#[test]
fn combined_output_texts() {
    assert_eq!(combine_output("hi\n", ""), "STDOUT:\nhi\n");
    assert_eq!(combine_output("", "oops"), "STDERR:\noops");
    assert_eq!(combine_output("a", "b"), "STDOUT:\na\nSTDERR:\nb");
    assert_eq!(combine_output("", ""), "(no output)");
    assert_eq!(labelled_output("x", "y"), "Output:\nx\nError:\ny");
}

#[test]
fn error_statuses_and_texts() {
    assert_eq!(ErrorKind::UnsupportedLanguage.http_status(), 400);
    assert_eq!(ErrorKind::TimedOut.http_status(), 408);
    assert_eq!(ErrorKind::WorkspaceIo.http_status(), 500);
    assert_eq!(ErrorKind::Infrastructure.http_status(), 500);
    assert_eq!(ErrorKind::CompileError.http_status(), 200);
    let f = failure(ErrorKind::WorkspaceIo, "Failed to write code to file");
    assert_eq!(f.error_text(), Some("Failed to write code to file".to_string()));
    let u = failure(ErrorKind::UnsupportedLanguage, "");
    assert_eq!(u.error_text(), Some("Unsupported language".to_string()));
    let ok = ExecutionOutcome { stdout: String::new(), stderr: String::new(), exit_status: Some(0), error_kind: None };
    assert_eq!(ok.error_text(), None);
}

#[test]
fn admission_bounds_concurrency() {
    let n = 3;
    let k = 2;
    let mut a = Admission::new(n);
    let mut permits = Vec::new();
    let mut waiting = 0;
    for _ in 0..(n + k) {
        match a.try_acquire() {
            Some(p) => permits.push(p),
            None => waiting += 1,
        }
        assert!(a.in_use() <= a.capacity());
    }
    assert_eq!(permits.len(), n);
    assert_eq!(waiting, k);
    let mut completed = 0;
    while let Some(p) = permits.pop() {
        a.release(p);
        completed += 1;
        if waiting > 0 {
            permits.push(a.try_acquire().unwrap());
            waiting -= 1;
        }
    }
    assert_eq!(completed, n + k);
    assert_eq!(a.in_use(), 0);
}
