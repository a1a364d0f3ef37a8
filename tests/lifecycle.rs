use llmchat_shell::paths::{resolve_data_directory, DataDirError, DATA_SUBDIR};
use llmchat_shell::supervisor::{
    sidecar_args, ChildEvent, Failure, OutputLine, SidecarState, StreamOrigin, Supervisor,
    SIDECAR_NAME,
};

fn out(t: &str) -> ChildEvent {
    ChildEvent::Stdout(t.to_string())
}

fn err(t: &str) -> ChildEvent {
    ChildEvent::Stderr(t.to_string())
}

fn running() -> Supervisor {
    let mut s = Supervisor::new();
    assert!(s.begin_spawn(Ok("/data".to_string())).is_some());
    s.spawned();
    assert_eq!(s.state(), &SidecarState::Running);
    s
}

#[test]
fn data_directory_under_root() {
    let r = resolve_data_directory(Some("/home/u/.local/share/app"));
    assert_eq!(r, Ok("/home/u/.local/share/app/htmx_llmchat_db".to_string()));
    assert_eq!(DATA_SUBDIR, "htmx_llmchat_db");
}

#[test]
fn data_directory_root_with_trailing_separator() {
    assert_eq!(resolve_data_directory(Some("/data/")), Ok("/data/htmx_llmchat_db".to_string()));
    assert_eq!(resolve_data_directory(Some("C:\\Users\\u\\")), Ok("C:\\Users\\u\\htmx_llmchat_db".to_string()));
}

#[test]
fn data_directory_resolution_is_idempotent() {
    let a = resolve_data_directory(Some("/var/app"));
    let b = resolve_data_directory(Some("/var/app"));
    assert!(a.is_ok());
    assert_eq!(a, b);
}

#[test]
fn data_directory_without_root_fails() {
    assert_eq!(resolve_data_directory(None), Err(DataDirError::Resolution));
    assert_eq!(resolve_data_directory(Some("")), Err(DataDirError::Resolution));
}

#[test]
fn backend_arguments() {
    assert_eq!(sidecar_args("/d/x"), vec!["serve".to_string(), "--dir".to_string(), "/d/x".to_string()]);
}

#[test]
fn spawn_request_names_bundled_binary() {
    let mut s = Supervisor::new();
    assert_eq!(s.state(), &SidecarState::NotStarted);
    let req = s.begin_spawn(Ok("/data/db".to_string())).unwrap();
    assert_eq!(req.program, SIDECAR_NAME);
    assert_eq!(req.program, "main");
    assert_eq!(req.args, vec!["serve".to_string(), "--dir".to_string(), "/data/db".to_string()]);
    assert_eq!(s.state(), &SidecarState::Spawning);
    assert!(!s.wants_output());
}

#[test]
fn second_spawn_is_refused() {
    let mut s = running();
    assert!(s.begin_spawn(Ok("/other".to_string())).is_none());
    assert_eq!(s.state(), &SidecarState::Running);
}

#[test]
fn data_directory_failure_fails_fast() {
    let mut s = Supervisor::new();
    let e = DataDirError::Creation("permission denied".to_string());
    assert!(s.begin_spawn(Err(e.clone())).is_none());
    assert_eq!(s.state(), &SidecarState::Failed(Failure::DataDir(e)));
    assert!(s.is_terminal());
    s.spawned();
    assert!(s.is_terminal());
}

#[test]
fn missing_executable_reaches_failed() {
    let mut s = Supervisor::new();
    s.begin_spawn(Ok("/data".to_string()));
    s.spawn_failed("No such file or directory".to_string());
    assert_eq!(
        s.state(),
        &SidecarState::Failed(Failure::Spawn("No such file or directory".to_string()))
    );
    assert!(s.is_terminal());
    assert!(!s.wants_output());
    s.spawned();
    assert!(s.begin_spawn(Ok("/data".to_string())).is_none());
    assert!(s.is_terminal());
}

#[test]
fn spawn_events_out_of_order_change_nothing() {
    let mut s = Supervisor::new();
    s.spawned();
    assert_eq!(s.state(), &SidecarState::NotStarted);
    s.spawn_failed("x".to_string());
    assert_eq!(s.state(), &SidecarState::NotStarted);
    let mut r = running();
    r.spawn_failed("late".to_string());
    assert_eq!(r.state(), &SidecarState::Running);
}

#[test]
fn relay_keeps_each_stream_in_order() {
    let mut s = running();
    let events = vec![out("o1"), err("e1"), out("o2"), out("o3"), err("e2"), ChildEvent::Terminated(Some(3))];
    let lines = s.relay(&events);
    assert_eq!(lines.len(), 5);
    let stdout: Vec<&str> =
        lines.iter().filter(|l| l.origin == StreamOrigin::Stdout).map(|l| l.text.as_str()).collect();
    let stderr: Vec<&str> =
        lines.iter().filter(|l| l.origin == StreamOrigin::Stderr).map(|l| l.text.as_str()).collect();
    assert_eq!(stdout, vec!["o1", "o2", "o3"]);
    assert_eq!(stderr, vec!["e1", "e2"]);
    assert_eq!(s.state(), &SidecarState::Exited(3));
}

#[test]
fn relay_keeps_repeated_lines() {
    let mut s = running();
    let lines = s.relay(&vec![out("same"), out("same"), err("same")]);
    assert_eq!(
        lines,
        vec![
            OutputLine { origin: StreamOrigin::Stdout, text: "same".to_string() },
            OutputLine { origin: StreamOrigin::Stdout, text: "same".to_string() },
            OutputLine { origin: StreamOrigin::Stderr, text: "same".to_string() },
        ]
    );
    assert_eq!(s.state(), &SidecarState::Running);
    assert!(s.relay(&vec![]).is_empty());
}

#[test]
fn exit_stops_the_relay() {
    let mut s = running();
    assert!(s.wants_output());
    assert_eq!(s.on_event(ChildEvent::Terminated(Some(1))), None);
    assert_eq!(s.state(), &SidecarState::Exited(1));
    assert!(!s.wants_output());
    assert!(s.is_terminal());
    s.on_event(ChildEvent::Error("late".to_string()));
    s.on_event(ChildEvent::Terminated(Some(0)));
    assert_eq!(s.state(), &SidecarState::Exited(1));
}

#[test]
fn read_error_fails_the_process() {
    let mut s = running();
    assert_eq!(s.on_event(ChildEvent::Error("broken pipe".to_string())), None);
    assert_eq!(s.state(), &SidecarState::Failed(Failure::StreamRead("broken pipe".to_string())));
    assert!(!s.wants_output());
}

#[test]
fn signal_without_exit_code_fails_the_process() {
    let mut s = running();
    s.on_event(ChildEvent::Terminated(None));
    assert_eq!(s.state(), &SidecarState::Failed(Failure::NoExitCode));
}

#[test]
fn ready_then_exit_zero() {
    let mut s = Supervisor::new();
    let req = s.begin_spawn(Ok("/tmp/db".to_string())).unwrap();
    assert_eq!(req.program, "main");
    s.spawned();
    let first = s.on_event(out("ready"));
    assert_eq!(first, Some(OutputLine { origin: StreamOrigin::Stdout, text: "ready".to_string() }));
    assert_eq!(s.state(), &SidecarState::Running);
    let second = s.on_event(ChildEvent::Terminated(Some(0)));
    assert_eq!(second, None);
    assert_eq!(s.state(), &SidecarState::Exited(0));
}

#[test]
fn channel_closing_early_fails_the_process() {
    let mut s = running();
    assert_eq!(s.relay(&vec![out("partial"), ChildEvent::Closed]).len(), 1);
    assert_eq!(s.state(), &SidecarState::Failed(Failure::OutputClosed));
    assert!(!s.wants_output());
}
