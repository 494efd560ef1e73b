use code_runner::{
    frame_input, make_scratch_path, probe_verdict, push_decimal, same_text, Action, Event,
    Execution, ExecutionResult, Language, Phase, RunError, Runtime, Status,
};

fn begin(language: &str, stdin: Option<&str>, seq: u64) -> Execution {
    let (exec, action) = Execution::start(language, stdin, b"/tmp", 100, seq).unwrap();
    assert_eq!(action, Action::WriteArtifact);
    exec
}

fn run_to_wait(exec: &mut Execution) {
    assert_eq!(exec.step(Event::Done), Action::Spawn);
    assert_eq!(exec.step(Event::Done), Action::FeedStdin);
    assert_eq!(exec.step(Event::Done), Action::Wait);
    assert_eq!(exec.phase(), Phase::Waiting);
}

#[test]
fn language_names_are_looked_up() {
    assert_eq!(Language::from_name("python"), Ok(Language::Python));
    assert_eq!(Language::from_name("javascript"), Ok(Language::JavaScript));
    assert_eq!(Language::from_name("ruby"), Err(RunError::UnsupportedLanguage));
    assert_eq!(Language::from_name("Python"), Err(RunError::UnsupportedLanguage));
    assert_eq!(Language::from_name(""), Err(RunError::UnsupportedLanguage));
}

#[test]
fn language_table_gives_interpreter_and_extension() {
    assert_eq!(Language::Python.interpreter(), "python3");
    assert_eq!(Language::JavaScript.interpreter(), "node");
    assert_eq!(Language::Python.extension(), b"py".to_vec());
    assert_eq!(Language::JavaScript.extension(), b"js".to_vec());
}

#[test]
fn runtime_names_are_looked_up() {
    assert_eq!(Runtime::from_name("python"), Ok(Runtime::Python));
    assert_eq!(Runtime::from_name("node"), Ok(Runtime::Node));
    assert_eq!(Runtime::Python.program(), "python3");
    assert_eq!(Runtime::Node.program(), "node");
    assert_eq!(Runtime::Node.version_flag(), "--version");
}

#[test]
fn unsupported_runtime_is_an_error_not_absence() {
    let err = Runtime::from_name("unsupported").unwrap_err();
    assert_eq!(err, RunError::UnsupportedRuntime);
    assert_eq!(err.message(), "Unknown runtime");
}

#[test]
fn missing_interpreter_probes_false() {
    assert!(!probe_verdict(false, None));
    assert!(!probe_verdict(false, Some(0)));
}

#[test]
fn probe_needs_launch_and_zero_exit() {
    assert!(probe_verdict(true, Some(0)));
    assert!(!probe_verdict(true, Some(1)));
    assert!(!probe_verdict(true, None));
}

#[test]
fn error_messages() {
    assert_eq!(RunError::UnsupportedLanguage.message(), "Unsupported language");
    assert_eq!(RunError::Io("disk full".to_string()).message(), "disk full");
}

#[test]
fn same_text_compares_characters() {
    assert!(same_text("node", "node"));
    assert!(!same_text("node", "nodes"));
    assert!(!same_text("", "x"));
}

#[test]
fn stdin_without_newline_gets_one() {
    assert_eq!(frame_input("hello"), b"hello\n".to_vec());
}

#[test]
fn stdin_with_newline_is_kept() {
    assert_eq!(frame_input("hello\n"), b"hello\n".to_vec());
    assert_eq!(frame_input("a\n\n"), b"a\n\n".to_vec());
}

#[test]
fn empty_stdin_becomes_one_newline() {
    assert_eq!(frame_input(""), b"\n".to_vec());
}

#[test]
fn framing_twice_changes_nothing() {
    let once = frame_input("line");
    let text = String::from_utf8(once.clone()).unwrap();
    assert_eq!(frame_input(&text), once);
}

#[test]
fn decimal_digits() {
    let mut buf = b"n=".to_vec();
    push_decimal(&mut buf, 0);
    assert_eq!(buf, b"n=0".to_vec());
    let mut buf = Vec::new();
    push_decimal(&mut buf, 1234567890);
    assert_eq!(buf, b"1234567890".to_vec());
    let mut buf = Vec::new();
    push_decimal(&mut buf, u64::MAX);
    assert_eq!(buf, b"18446744073709551615".to_vec());
}

#[test]
fn scratch_path_layout() {
    assert_eq!(make_scratch_path(b"/tmp", 42, 7, Language::Python), b"/tmp/temp_42_7.py".to_vec());
    assert_eq!(
        make_scratch_path(b"/var/tmp", 0, 10, Language::JavaScript),
        b"/var/tmp/temp_0_10.js".to_vec()
    );
}

#[test]
fn concurrent_calls_get_distinct_scratch_files() {
    let a = make_scratch_path(b"/tmp", 42, 1, Language::Python);
    let b = make_scratch_path(b"/tmp", 42, 2, Language::Python);
    let c = make_scratch_path(b"/tmp", 4, 21, Language::Python);
    let d = make_scratch_path(b"/tmp", 42, 1, Language::JavaScript);
    assert_ne!(a, b);
    assert_ne!(a, c);
    assert_ne!(a, d);
    let e1 = begin("python", None, 5);
    let e2 = begin("python", None, 6);
    assert_ne!(e1.path(), e2.path());
}

#[test]
fn exit_status() {
    assert_eq!(Status::of_exit(Some(0)), Status::Success);
    assert_eq!(Status::of_exit(Some(3)), Status::Error);
    assert_eq!(Status::of_exit(None), Status::Error);
    assert_eq!(Status::Success.as_str(), "success");
    assert_eq!(Status::Error.as_str(), "error");
}

#[test]
fn output_is_decoded_lossily() {
    let r = ExecutionResult::from_output(b"ok\n", &[0x66, 0xff, 0x67], Some(0));
    assert_eq!(r.stdout, "ok\n");
    assert_eq!(r.stderr, "f\u{FFFD}g");
    assert_eq!(r.status, Status::Success);
    assert_eq!(r.code, Some(0));
}

#[test]
fn unsupported_language_takes_no_action() {
    assert_eq!(
        Execution::start("ruby", None, b"/tmp", 1, 1).err(),
        Some(RunError::UnsupportedLanguage)
    );
}

#[test]
fn execution_starts_with_the_scratch_file() {
    let exec = begin("python", Some("x"), 3);
    assert_eq!(exec.phase(), Phase::WritingArtifact);
    assert_eq!(exec.language(), Language::Python);
    assert_eq!(exec.interpreter(), "python3");
    assert_eq!(exec.path(), b"/tmp/temp_100_3.py");
    assert_eq!(exec.input(), b"x\n");
}

#[test]
fn absent_stdin_feeds_zero_bytes() {
    let mut exec = begin("javascript", None, 1);
    assert!(exec.input().is_empty());
    assert_eq!(exec.step(Event::Done), Action::Spawn);
    assert_eq!(exec.step(Event::Done), Action::FeedStdin);
    assert!(exec.input().is_empty());
}

#[test]
fn python_print_succeeds() {
    let mut exec = begin("python", None, 1);
    run_to_wait(&mut exec);
    let exited = Event::Exited { stdout: b"2\n".to_vec(), stderr: Vec::new(), code: Some(0) };
    assert!(exec.accepts(&exited));
    assert_eq!(exec.step(exited), Action::Finish { remove_artifact: true, stop_child: false });
    assert_eq!(exec.phase(), Phase::Completed);
    let r = exec.into_outcome().unwrap();
    assert_eq!(r.status, Status::Success);
    assert_eq!(r.code, Some(0));
    assert!(r.stdout.contains('2'));
    assert_eq!(r.stderr, "");
}

#[test]
fn javascript_exit_three_is_an_error_status() {
    let mut exec = begin("javascript", Some("in"), 2);
    run_to_wait(&mut exec);
    let exited = Event::Exited { stdout: Vec::new(), stderr: Vec::new(), code: Some(3) };
    assert_eq!(exec.step(exited), Action::Finish { remove_artifact: true, stop_child: false });
    let r = exec.into_outcome().unwrap();
    assert_eq!(r.status, Status::Error);
    assert_eq!(r.code, Some(3));
}

#[test]
fn signal_has_no_code() {
    let mut exec = begin("python", None, 4);
    run_to_wait(&mut exec);
    let exited = Event::Exited { stdout: Vec::new(), stderr: b"killed".to_vec(), code: None };
    exec.step(exited);
    let r = exec.into_outcome().unwrap();
    assert_eq!(r.status, Status::Error);
    assert_eq!(r.code, None);
    assert_eq!(r.stderr, "killed");
}

#[test]
fn write_failure_still_removes_artifact() {
    let mut exec = begin("python", None, 1);
    let a = exec.step(Event::Failed("read-only".to_string()));
    assert_eq!(a, Action::Finish { remove_artifact: true, stop_child: false });
    assert_eq!(exec.into_outcome(), Err(RunError::Io("read-only".to_string())));
}

#[test]
fn spawn_failure_removes_artifact() {
    let mut exec = begin("python", None, 1);
    assert_eq!(exec.step(Event::Done), Action::Spawn);
    let a = exec.step(Event::Failed("not found".to_string()));
    assert_eq!(a, Action::Finish { remove_artifact: true, stop_child: false });
    assert_eq!(exec.into_outcome(), Err(RunError::Io("not found".to_string())));
}

#[test]
fn stdin_failure_stops_child_and_removes_artifact() {
    let mut exec = begin("python", Some("data"), 1);
    exec.step(Event::Done);
    exec.step(Event::Done);
    let a = exec.step(Event::Failed("broken pipe".to_string()));
    assert_eq!(a, Action::Finish { remove_artifact: true, stop_child: true });
    assert_eq!(exec.phase(), Phase::Completed);
}

#[test]
fn wait_failure_stops_child_and_removes_artifact() {
    let mut exec = begin("javascript", None, 1);
    run_to_wait(&mut exec);
    let a = exec.step(Event::Failed("interrupted".to_string()));
    assert_eq!(a, Action::Finish { remove_artifact: true, stop_child: true });
}

#[test]
fn events_must_answer_the_pending_action() {
    let mut exec = begin("python", None, 1);
    let exited = Event::Exited { stdout: Vec::new(), stderr: Vec::new(), code: Some(0) };
    assert!(!exec.accepts(&exited));
    assert!(exec.accepts(&Event::Done));
    run_to_wait(&mut exec);
    assert!(!exec.accepts(&Event::Done));
    assert!(exec.accepts(&Event::Failed(String::new())));
    exec.step(exited);
    assert!(!exec.accepts(&Event::Done));
}
