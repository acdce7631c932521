use code_runner::error::ErrorKind;
use code_runner::language::Language;
use code_runner::outcome::{failure, ExecutionOutcome, StepResult};
use code_runner::session::{open_request, Deployment, Event, Phase};
use code_runner::tracker::{accept, InvocationCounters};
use code_runner::ui::{example_source, examples, language_choices, UiTemplate};

#[test]
fn unsupported_request_touches_nothing() {
    let mut c = InvocationCounters::new();
    let r = open_request(&mut c, "cobol", "/tmp/codeexec", Deployment::Runner);
    assert!(matches!(r, Err(ErrorKind::UnsupportedLanguage)));
    assert!(c.snapshot().is_empty());
}

#[test]
fn counters_count_accepted_requests() {
    let mut c = InvocationCounters::new();
    for id in ["python", "PYTHON", "java", "cobol", "Python"] {
        let _ = accept(&mut c, id);
    }
    assert_eq!(c.count(Language::Python), 3);
    assert_eq!(c.count(Language::Java), 1);
    assert_eq!(c.count(Language::Cpp), 0);
    c.record(Language::Cpp);
    assert_eq!(
        c.snapshot(),
        vec![(Language::Python, 3), (Language::Java, 1), (Language::Cpp, 1)]
    );
}

#[test]
fn snapshot_omits_languages_never_requested() {
    let mut c = InvocationCounters::new();
    assert!(c.snapshot().is_empty());
    c.record(Language::JavaScript);
    assert_eq!(c.snapshot(), vec![(Language::JavaScript, 1)]);
}

#[test]
fn request_runs_through_every_phase() {
    let mut c = InvocationCounters::new();
    let mut s = open_request(&mut c, "cpp", "/tmp/codeexec", Deployment::Direct).unwrap();
    assert_eq!(c.count(Language::Cpp), 1);
    assert_eq!(s.phase(), Phase::Admit);
    assert!(s.command().is_none());
    s.on_event(Event::Staged);
    assert_eq!(s.phase(), Phase::Admit);
    s.on_event(Event::Granted);
    assert_eq!(s.phase(), Phase::Stage);
    s.on_event(Event::Staged);
    assert_eq!(s.phase(), Phase::Run);
    assert!(s.is_build_step());
    assert_eq!(s.command().unwrap()[0], "g++");
    s.on_event(Event::StepDone {
        result: StepResult::Exited { stdout: Vec::new(), stderr: Vec::new(), code: Some(0) },
    });
    assert_eq!(s.phase(), Phase::Run);
    assert!(!s.is_build_step());
    assert_eq!(s.command().unwrap()[0], s.workspace().artifact_path);
    s.on_event(Event::StepDone {
        result: StepResult::Exited { stdout: b"Hello, World!\n".to_vec(), stderr: Vec::new(), code: Some(0) },
    });
    assert_eq!(s.phase(), Phase::Dispose);
    s.on_event(Event::Disposed);
    assert_eq!(s.phase(), Phase::Release);
    s.on_event(Event::Released);
    assert_eq!(s.phase(), Phase::Done);
    let o = s.into_outcome().unwrap();
    assert_eq!(o.stdout, "Hello, World!\n");
    assert_eq!(o.error_kind, None);
}

#[test]
fn staging_failure_still_cleans_up() {
    let mut c = InvocationCounters::new();
    let mut s = open_request(&mut c, "python", "/tmp/codeexec", Deployment::Runner).unwrap();
    s.on_event(Event::Granted);
    s.on_event(Event::StageFailed { message: "Failed to create temp directory".to_string() });
    assert_eq!(s.phase(), Phase::Dispose);
    assert!(s.command().is_none());
    let o = s.outcome().unwrap();
    assert_eq!(o.error_kind, Some(ErrorKind::WorkspaceIo));
    assert_eq!(o.stderr, "Failed to create temp directory");
    s.on_event(Event::Disposed);
    s.on_event(Event::Released);
    assert_eq!(s.phase(), Phase::Done);
}

#[test]
fn identical_requests_get_separate_workspaces() {
    let mut c = InvocationCounters::new();
    let a = open_request(&mut c, "python", "/tmp/codeexec", Deployment::Container).unwrap();
    let b = open_request(&mut c, "python", "/tmp/codeexec", Deployment::Container).unwrap();
    assert_ne!(a.workspace().id, b.workspace().id);
    assert_ne!(a.workspace().source_path, b.workspace().source_path);
    assert_eq!(c.count(Language::Python), 2);
}

#[test]
fn ui_initial_page() {
    let t = UiTemplate::initial();
    assert_eq!(t.language, "python");
    assert_eq!(t.code, "print('Hello, World!')");
    assert_eq!(t.output, "");
    assert_eq!(t.status, None);
    assert_eq!(t.languages, language_choices());
    assert_eq!(t.languages[3], ("cpp".to_string(), "C++".to_string()));
    assert_eq!(t.examples, examples());
    assert_eq!(t.examples[1].1, example_source(Language::JavaScript));
}

#[test]
fn ui_after_runs() {
    let ok = ExecutionOutcome {
        stdout: "Hello\n".to_string(),
        stderr: String::new(),
        exit_status: Some(0),
        error_kind: None,
    };
    let t = UiTemplate::after_run("Python", "print('Hello')", &ok);
    assert_eq!(t.language, "Python");
    assert_eq!(t.output, "STDOUT:\nHello\n");
    assert_eq!(t.status, Some(0));
    let u = UiTemplate::after_run("cobol", "x", &failure(ErrorKind::UnsupportedLanguage, ""));
    assert_eq!(u.output, "Unsupported language");
    assert_eq!(u.status, Some(400));
    let to = UiTemplate::after_run("python", "x", &failure(ErrorKind::TimedOut, ""));
    assert_eq!(to.output, "Execution timed out");
    assert_eq!(to.status, Some(408));
    let inf = UiTemplate::after_run("python", "x", &failure(ErrorKind::Infrastructure, "denied"));
    assert_eq!(inf.output, "Execution failed: denied");
    assert_eq!(inf.status, Some(500));
}
