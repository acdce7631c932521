use code_runner::error::ErrorKind;
use code_runner::language::{all_languages, resolve, resolve_folded, Language};
use code_runner::profile::{container_profile, direct_profile, resolve_command, runner_profile};
use code_runner::workspace::Workspace;

#[test]
fn resolves_canonical_identifiers() {
    assert_eq!(resolve("python"), Ok(Language::Python));
    assert_eq!(resolve("javascript"), Ok(Language::JavaScript));
    assert_eq!(resolve("java"), Ok(Language::Java));
    assert_eq!(resolve("cpp"), Ok(Language::Cpp));
}

#[test]
fn resolution_ignores_case() {
    assert_eq!(resolve("PyThOn"), Ok(Language::Python));
    assert_eq!(resolve("JAVA"), Ok(Language::Java));
    assert_eq!(resolve_folded("PYTHON"), Err(ErrorKind::UnsupportedLanguage));
}

#[test]
fn unsupported_language_is_rejected() {
    assert_eq!(resolve("cobol"), Err(ErrorKind::UnsupportedLanguage));
    assert_eq!(resolve(""), Err(ErrorKind::UnsupportedLanguage));
    assert_eq!(resolve("python "), Err(ErrorKind::UnsupportedLanguage));
}

#[test]
fn language_tables() {
    let all = all_languages();
    assert_eq!(all, vec![Language::Python, Language::JavaScript, Language::Java, Language::Cpp]);
    let ids: Vec<String> = all.iter().map(|l| l.id()).collect();
    assert_eq!(ids, vec!["python", "javascript", "java", "cpp"]);
    let exts: Vec<String> = all.iter().map(|l| l.extension()).collect();
    assert_eq!(exts, vec!["py", "js", "java", "cpp"]);
    assert_eq!(Language::Cpp.display_name(), "C++");
    assert_eq!(Language::Java.index(), 2);
}

#[test]
fn workspace_layout() {
    let ws = Workspace::new("/tmp/codeexec", "abc", Language::Python);
    assert_eq!(ws.dir, "/tmp/codeexec/run_abc");
    assert_eq!(ws.source_path, "/tmp/codeexec/run_abc/code_abc.py");
    assert_eq!(ws.artifact_path, "/tmp/codeexec/run_abc/code_abc.bin");
    assert_eq!(ws.extension, "py");
}

#[test]
fn fresh_workspaces_never_collide() {
    let a = Workspace::fresh("/tmp/codeexec", Language::Cpp);
    let b = Workspace::fresh("/tmp/codeexec", Language::Cpp);
    assert_eq!(a.id.len(), 36);
    assert_ne!(a.id, b.id);
    assert_ne!(a.dir, b.dir);
    assert_ne!(a.source_path, b.source_path);
    assert!(a.source_path.starts_with(&a.dir));
    assert!(a.id.chars().all(|ch| ch.is_ascii_hexdigit() && !ch.is_ascii_uppercase() || ch == '-'));
    let rest = &a.source_path[a.dir.len()..];
    assert!(rest.starts_with('/'));
    assert!(!rest[1..].contains('/'));
}

#[test]
fn runner_command_line() {
    let ws = Workspace::new("/tmp/codeexec", "id1", Language::JavaScript);
    let p = runner_profile(Language::JavaScript);
    assert!(p.build_steps.is_empty());
    let argv = resolve_command(&p.run_step, &ws);
    assert_eq!(
        argv,
        vec!["sudo", "-u", "code_runner", "/opt/runners/js_runner.sh", "/tmp/codeexec/run_id1/code_id1.js"]
    );
}

#[test]
fn container_command_line() {
    let ws = Workspace::new("/srv", "u", Language::Python);
    let p = container_profile(Language::Python);
    let argv = resolve_command(&p.run_step, &ws);
    assert_eq!(
        argv,
        vec![
            "docker",
            "run",
            "--rm",
            "--network",
            "none",
            "--memory=100m",
            "--cpus=0.5",
            "--pids-limit=50",
            "-v",
            "/srv/run_u/code_u.py:/code/user.py",
            "code-runner-python",
        ]
    );
}

#[test]
fn direct_profiles_build_compiled_languages() {
    let ws = Workspace::new("/w", "x", Language::Cpp);
    let p = direct_profile(Language::Cpp);
    assert_eq!(p.build_steps.len(), 1);
    assert_eq!(
        resolve_command(&p.build_steps[0], &ws),
        vec!["g++", "-O2", "-o", "/w/run_x/code_x.bin", "/w/run_x/code_x.cpp"]
    );
    assert_eq!(resolve_command(&p.run_step, &ws), vec!["/w/run_x/code_x.bin"]);
    let java = direct_profile(Language::Java);
    let wj = Workspace::new("/w", "y", Language::Java);
    assert_eq!(
        resolve_command(&java.build_steps[0], &wj),
        vec!["javac", "-d", "/w/run_y", "/w/run_y/code_y.java"]
    );
    assert_eq!(resolve_command(&java.run_step, &wj), vec!["java", "-cp", "/w/run_y", "Main"]);
    assert!(direct_profile(Language::Python).build_steps.is_empty());
    assert_eq!(
        resolve_command(&direct_profile(Language::Python).run_step, &ws),
        vec!["python3", "/w/run_x/code_x.cpp"]
    );
}
