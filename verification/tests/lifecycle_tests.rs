use taskhost::models::{Task, TaskStatus};
use taskhost::monitor::{notification_tail, tail_bytes, AttachedMonitor, MonitorPhase, OwnedMonitor};

fn running_task() -> Task {
    let mut t = Task::new_pending(
        String::from("task-9"),
        String::from("bob"),
        String::from("job"),
        String::from("sleep 1"),
        String::from("[]"),
        String::from("shell"),
        None,
        None,
        500,
    );
    t.mark_running(Some(4242), 600);
    t
}

#[test]
fn new_pending_defaults() {
    let t = Task::new_pending(
        String::from("id"),
        String::from("owner"),
        String::from("n"),
        String::from("c"),
        String::from("[]"),
        String::from("shell"),
        None,
        None,
        7,
    );
    assert_eq!(t.status, TaskStatus::Pending);
    assert_eq!(t.cwd, ".");
    assert!(t.pid.is_none());
    assert!(t.started_at.is_none());
    assert!(t.ended_at.is_none());
    assert!(t.exit_code.is_none());
}

#[test]
fn mark_running_sets_pid_and_start() {
    let t = running_task();
    assert_eq!(t.status, TaskStatus::Running);
    assert_eq!(t.pid, Some(4242));
    assert_eq!(t.started_at, Some(600));
}

#[test]
fn successful_exit_completes_with_code_zero() {
    let mut t = running_task();
    t.finalize_owned(true, 700);
    assert_eq!(t.status, TaskStatus::Completed);
    assert_eq!(t.exit_code, Some(0));
    assert_eq!(t.ended_at, Some(700));
}

#[test]
fn failed_exit_coarsens_to_code_one() {
    let mut t = running_task();
    t.finalize_owned(false, 700);
    assert_eq!(t.status, TaskStatus::Failed);
    assert_eq!(t.exit_code, Some(1));
    assert_eq!(t.ended_at, Some(700));
}

#[test]
fn attached_record_command_names_pid() {
    let t = Task::new_attached(
        String::from("id-a"),
        String::from("carol"),
        String::from("external"),
        31337,
        900,
    );
    assert_eq!(t.command, "Attached PID 31337");
    assert_eq!(t.args, "[]");
    assert_eq!(t.env_type, "attached");
    assert_eq!(t.status, TaskStatus::Pending);
    assert!(t.pid.is_none());
}

#[test]
fn attached_monitor_completes_without_exit_code() {
    let mut t = Task::new_attached(
        String::from("id-a"),
        String::from("carol"),
        String::from("external"),
        31337,
        900,
    );
    t.mark_running(Some(31337), 901);
    let mut mon = AttachedMonitor::new(31337);
    assert_eq!(mon.phase, MonitorPhase::Watching);
    mon.poll(true);
    assert_eq!(mon.phase, MonitorPhase::Watching);
    mon.poll(false);
    assert_eq!(mon.phase, MonitorPhase::Finalizing);
    mon.finalize(&mut t, 903);
    assert_eq!(mon.phase, MonitorPhase::Done);
    assert_eq!(t.status, TaskStatus::Completed);
    assert_eq!(t.ended_at, Some(903));
    assert!(t.exit_code.is_none());
}

#[test]
fn tail_keeps_short_logs_whole() {
    let log: Vec<u8> = b"short log".to_vec();
    assert_eq!(tail_bytes(&log, 2000), log);
    assert_eq!(notification_tail(&log), log);
}

#[test]
fn tail_truncates_to_exactly_last_2000_bytes() {
    let mut log: Vec<u8> = Vec::new();
    for i in 0..2500u32 {
        log.push((i % 251) as u8);
    }
    let tail = notification_tail(&log);
    assert_eq!(tail.len(), 2000);
    assert_eq!(&tail[..], &log[500..]);
}

#[test]
fn tail_limit_boundary() {
    let log: Vec<u8> = vec![7u8; 2000];
    assert_eq!(notification_tail(&log).len(), 2000);
    let log_one_more: Vec<u8> = vec![7u8; 2001];
    let tail = notification_tail(&log_one_more);
    assert_eq!(tail.len(), 2000);
}

#[test]
fn owned_monitor_is_done_after_finalize() {
    // A child that exits immediately: spawn `true` through a terminal.
    let mut mgr = taskhost::manager::TaskManager::new(String::from("/tmp"));
    let task = Task::new_pending(
        String::from("mon-1"),
        String::from("dave"),
        String::from("noop"),
        String::from("true"),
        String::from("[]"),
        String::from("shell"),
        None,
        None,
        100,
    );
    let handles = mgr.spawn(&task, None, None, 101).unwrap();
    let mut running = handles.task;
    let mut mon = OwnedMonitor::new(handles.child);
    assert_eq!(mon.phase, MonitorPhase::Watching);
    let success = mon.wait_exit().expect("wait failed");
    assert!(success);
    assert_eq!(mon.phase, MonitorPhase::Finalizing);
    mon.finalize(&mut running, 102);
    assert_eq!(mon.phase, MonitorPhase::Done);
    assert_eq!(running.status, TaskStatus::Completed);
    assert_eq!(running.exit_code, Some(0));
}
