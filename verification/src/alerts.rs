use vstd::prelude::*;
use vstd::string::StrSliceExecFns;
use vstd::string::StringExecFns;

use crate::models::{spec_status_name, Task};
use crate::numtext::{i64_to_dec, spec_dec_signed};

verus! {

/// The subject line of a completion notification.
pub open spec fn spec_subject(t: Task) -> Seq<char> {
    "Task "@ + spec_status_name(t.status) + " - "@ + t.name@
}

/// The duration line of a completion notification: the elapsed
/// seconds when both timestamps are known, otherwise unknown.
pub open spec fn spec_duration_line(t: Task) -> Seq<char> {
    match (t.started_at, t.ended_at) {
        (Some(s), Some(e)) => "Duration: "@ + spec_dec_signed(e - s) + "s"@,
        _ => "Duration: Unknown"@,
    }
}

/// How the notification shows the recorded exit code.
pub open spec fn spec_exit_line(t: Task) -> Seq<char> {
    match t.exit_code {
        Some(c) => "Some("@ + spec_dec_signed(c as int) + ")"@,
        None => "None"@,
    }
}

/// The body of a completion notification.
pub open spec fn spec_body(t: Task, logs: Seq<char>) -> Seq<char> {
    "Task ID: "@ + t.id@ + "\nStatus: "@ + spec_status_name(t.status) + "\nCommand: "@ + t.command@
        + "\n"@ + spec_duration_line(t) + "\nExit Code: "@ + spec_exit_line(t)
        + "\n\n--- Last Output ---\n"@ + logs
}

/// Whether the elapsed time between the task's timestamps can be
/// computed in 64 bits.
pub open spec fn duration_fits(t: Task) -> bool {
    match (t.started_at, t.ended_at) {
        (Some(s), Some(e)) => i64::MIN <= e - s <= i64::MAX,
        _ => true,
    }
}

/// Decide whether the elapsed time is computable, so a caller can
/// establish `email_body`'s precondition before calling it.
pub fn duration_fits_exec(task: &Task) -> (r: bool)
    ensures
        r == duration_fits(*task),
{
    match (task.started_at, task.ended_at) {
        (Some(s), Some(e)) => e.checked_sub(s).is_some(),
        _ => true,
    }
}

/// Build the subject line of a completion notification.
pub fn email_subject(task: &Task) -> (r: String)
    ensures
        r@ == spec_subject(*task),
{
    let mut s = String::from_str("Task ");
    s.append(task.status.name());
    s.append(" - ");
    s.append(task.name.as_str());
    assert(s@ =~= spec_subject(*task));
    s
}

/// Build the body of a completion notification around the log tail.
pub fn email_body(task: &Task, logs: &str) -> (r: String)
    requires
        duration_fits(*task),
    ensures
        r@ == spec_body(*task, logs@),
{
    let mut s = String::from_str("Task ID: ");
    s.append(task.id.as_str());
    s.append("\nStatus: ");
    s.append(task.status.name());
    s.append("\nCommand: ");
    s.append(task.command.as_str());
    s.append("\n");
    match (task.started_at, task.ended_at) {
        (Some(started), Some(ended)) => {
            s.append("Duration: ");
            let seconds = i64_to_dec(ended - started);
            s.append(seconds.as_str());
            s.append("s");
        },
        _ => {
            s.append("Duration: Unknown");
        },
    }
    s.append("\nExit Code: ");
    match task.exit_code {
        Some(code) => {
            s.append("Some(");
            let digits = i64_to_dec(code as i64);
            s.append(digits.as_str());
            s.append(")");
        },
        None => {
            s.append("None");
        },
    }
    s.append("\n\n--- Last Output ---\n");
    s.append(logs);
    assert(s@ =~= spec_body(*task, logs@));
    s
}

/// The fixed notification text for attached tasks, whose output this
/// system never sees.
pub fn attached_note() -> (r: String)
    ensures
        r@ == "Task attached via PID. Logs unavailable."@,
{
    String::from_str("Task attached via PID. Logs unavailable.")
}

} // verus!
