use taskhost::errors::TaskError;
use taskhost::manager::TaskManager;
use taskhost::models::{Task, TaskStatus};

fn shell_task(id: &str, command: &str) -> Task {
    Task::new_pending(
        String::from(id),
        String::from("eve"),
        String::from("job"),
        String::from(command),
        String::from("[]"),
        String::from("shell"),
        None,
        None,
        100,
    )
}

#[test]
fn spawn_marks_running_with_pid() {
    let mut mgr = TaskManager::new(String::from("/tmp"));
    let task = shell_task("sp-1", "echo hi");
    let handles = mgr.spawn(&task, None, None, 222).unwrap();
    assert_eq!(handles.task.status, TaskStatus::Running);
    assert_eq!(handles.task.started_at, Some(222));
    assert!(handles.task.pid.is_some());
    let mut mon = taskhost::monitor::OwnedMonitor::new(handles.child);
    assert!(mon.wait_exit().unwrap());
}

#[test]
fn spawn_resolution_error_leaves_registry_empty() {
    let mut mgr = TaskManager::new(String::from("/tmp"));
    let task = Task::new_pending(
        String::from("sp-2"),
        String::from("eve"),
        String::from("job"),
        String::from("echo hi"),
        String::from("[]"),
        String::from("weird-env"),
        None,
        None,
        100,
    );
    let err = match mgr.spawn(&task, None, None, 1) {
        Err(e) => e,
        Ok(_) => panic!("spawn of an unsupported environment succeeded"),
    };
    assert_eq!(err, TaskError::UnsupportedEnvironment);
    assert!(mgr.subscribe_output("sp-2").is_none());
    assert!(mgr.write_stdin("sp-2", b"x").is_ok());
}

#[test]
fn spawn_missing_program_fails() {
    let mut mgr = TaskManager::new(String::from("/tmp"));
    let mut task = shell_task("sp-3", "echo hi");
    // A conda-family task whose binary does not exist on this host.
    task.env_type = String::from("micromamba");
    task.env_name = Some(String::from("none"));
    let err = match mgr.spawn(&task, None, None, 1) {
        Err(e) => e,
        Ok(_) => panic!("spawn of a missing binary succeeded"),
    };
    assert_eq!(err, TaskError::SpawnFailure);
}

#[test]
fn pipeline_log_equals_early_subscriber_stream() {
    let mut mgr = TaskManager::new(String::from("/tmp"));
    let task = shell_task("sp-4", "printf 'abc'; printf 'def'");
    let handles = mgr.spawn(&task, None, None, 1).unwrap();
    // Subscribe before draining anything: this viewer must see every
    // published chunk, in order.
    let mut rx = mgr.subscribe_output("sp-4").expect("spawned task has a stream");
    let mut pipeline = handles.pipeline;
    let mut log: Vec<u8> = Vec::new();
    while let Some(chunk) = pipeline.pump() {
        assert!(!chunk.is_empty());
        log.extend_from_slice(&chunk);
    }
    let mut seen: Vec<u8> = Vec::new();
    while let Ok(chunk) = rx.try_recv() {
        seen.extend_from_slice(&chunk);
    }
    assert_eq!(log, seen);
    let text = String::from_utf8_lossy(&log).to_string();
    assert!(text.contains("abcdef"));
    let mut mon = taskhost::monitor::OwnedMonitor::new(handles.child);
    assert!(mon.wait_exit().unwrap());
}

#[test]
fn write_stdin_reaches_child_in_issue_order() {
    let mut mgr = TaskManager::new(String::from("/tmp"));
    let task = shell_task("sp-5", "read a; read b; echo \"got:$a$b\"");
    let handles = mgr.spawn(&task, None, None, 1).unwrap();
    mgr.write_stdin("sp-5", b"one\n").unwrap();
    mgr.write_stdin("sp-5", b"two\n").unwrap();
    let mut pipeline = handles.pipeline;
    let mut log: Vec<u8> = Vec::new();
    while let Some(chunk) = pipeline.pump() {
        log.extend_from_slice(&chunk);
    }
    let text = String::from_utf8_lossy(&log).to_string();
    assert!(text.contains("got:onetwo"), "terminal output was: {:?}", text);
    let mut mon = taskhost::monitor::OwnedMonitor::new(handles.child);
    assert!(mon.wait_exit().unwrap());
}

#[test]
fn write_stdin_is_noop_for_attached_and_unknown() {
    let mut mgr = TaskManager::new(String::from("/tmp"));
    let task = Task::new_attached(
        String::from("att-1"),
        String::from("eve"),
        String::from("ext"),
        99999,
        5,
    );
    let running = mgr.attach(&task, 99999, 6);
    assert_eq!(running.status, TaskStatus::Running);
    assert_eq!(running.pid, Some(99999));
    assert_eq!(running.started_at, Some(6));
    assert!(mgr.write_stdin("att-1", b"ignored").is_ok());
    assert!(mgr.write_stdin("no-such-id", b"ignored").is_ok());
    assert!(mgr.subscribe_output("att-1").is_none());
}

#[test]
fn log_path_is_keyed_by_task_id() {
    let path = taskhost::pipeline::log_path_for("/var/log/tasks", "abc-123");
    assert_eq!(path, "/var/log/tasks/abc-123.log");
}
