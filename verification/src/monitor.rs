use vstd::prelude::*;

use crate::models::Task;
use crate::pty::{child_wait, PtyChild};

verus! {

/// At most this many bytes of log reach the notification.
pub const LOG_TAIL_LIMIT: usize = 2000;

/// Seconds between liveness polls of an attached process.
pub const ATTACH_POLL_SECONDS: u64 = 2;

/// The phases of a process monitor.
#[derive(Clone, Copy, Debug, PartialEq, Eq, Structural)]
pub enum MonitorPhase {
    /// Waiting for the process to terminate.
    Watching,
    /// Termination observed; the task record is to be finalized.
    Finalizing,
    /// Finished, or given up after a failed wait.
    Done,
}

/// The last `limit` bytes of a log, or all of it when shorter.
pub open spec fn spec_tail(s: Seq<u8>, limit: int) -> Seq<u8> {
    if s.len() <= limit {
        s
    } else {
        s.subrange(s.len() - limit, s.len() as int)
    }
}

/// Truncate a log to at most its last `limit` bytes.
pub fn tail_bytes(log: &Vec<u8>, limit: usize) -> (r: Vec<u8>)
    ensures
        r@ == spec_tail(log@, limit as int),
{
    let len = log.len();
    let start: usize = if len > limit {
        len - limit
    } else {
        0
    };
    let mut out: Vec<u8> = Vec::new();
    let mut i: usize = start;
    while i < len
        invariant
            start <= i <= len,
            len == log@.len(),
            out@ == log@.subrange(start as int, i as int),
        decreases len - i,
    {
        out.push(log[i]);
        assert(out@ == log@.subrange(start as int, i + 1 as int));
        i = i + 1;
    }
    assert(out@ == log@.subrange(start as int, len as int));
    if start == 0 {
        assert(log@.subrange(0, len as int) == log@);
    }
    out
}

/// The log tail handed to the notification collaborator: a log longer
/// than the limit is truncated, byte-level, to exactly its last
/// `LOG_TAIL_LIMIT` bytes.
pub fn notification_tail(log: &Vec<u8>) -> (r: Vec<u8>)
    ensures
        r@ == spec_tail(log@, LOG_TAIL_LIMIT as int),
        log@.len() > LOG_TAIL_LIMIT ==> r@ == log@.subrange(
            log@.len() - LOG_TAIL_LIMIT,
            log@.len() as int,
        ) && r@.len() == LOG_TAIL_LIMIT,
        log@.len() <= LOG_TAIL_LIMIT ==> r@ == log@,
{
    tail_bytes(log, LOG_TAIL_LIMIT)
}

/// The monitor for a child this system spawned: it blocks until the
/// child exits, then finalizes the task record from the exit status.
pub struct OwnedMonitor {
    pub phase: MonitorPhase,
    pub child: PtyChild,
    /// Whether the child exited successfully, once observed.
    pub observed: Option<bool>,
}

impl OwnedMonitor {
    /// A monitor in Watching over a freshly spawned child.
    pub fn new(child: PtyChild) -> (m: OwnedMonitor)
        ensures
            m.phase is Watching,
            m.observed is None,
    {
        OwnedMonitor { phase: MonitorPhase::Watching, child, observed: None }
    }

    /// Watching: block until the child exits, then move to Finalizing
    /// with the exit's success recorded. When the wait itself fails
    /// nothing was observed, the monitor is Done, and the task is
    /// left as it was — Running, forever.
    pub fn wait_exit(&mut self) -> (r: Option<bool>)
        requires
            old(self).phase is Watching,
        ensures
            final(self).observed == r,
            r is Some <==> final(self).phase is Finalizing,
            r is None <==> final(self).phase is Done,
    {
        let r = child_wait(&mut self.child);
        self.observed = r;
        match r {
            Some(_) => {
                self.phase = MonitorPhase::Finalizing;
            },
            None => {
                self.phase = MonitorPhase::Done;
            },
        }
        r
    }

    /// Finalizing: fold the observed exit into the Running record —
    /// Completed with exit code 0 on success, Failed with exit code 1
    /// otherwise, the end time set either way — and move to Done. The
    /// caller persists the record, reads the log back, and notifies
    /// with its tail.
    pub fn finalize(&mut self, task: &mut Task, now: i64)
        requires
            old(self).phase is Finalizing,
            old(self).observed is Some,
            old(task).status is Running,
            old(task).wf(),
        ensures
            final(self).phase is Done,
            final(self).observed == old(self).observed,
            *final(task) == old(task).spec_finalize_owned(old(self).observed->0, now),
            final(task).wf(),
    {
        let success = match self.observed {
            Some(s) => s,
            None => false,
        };
        task.finalize_owned(success, now);
        self.phase = MonitorPhase::Done;
    }
}

/// The monitor for a process this system did not spawn: a poll loop
/// that wakes every `ATTACH_POLL_SECONDS` and checks the OS process
/// table, finalizing the task on the first tick where the process is
/// gone.
pub struct AttachedMonitor {
    pub phase: MonitorPhase,
    /// The foreign process id being watched.
    pub pid: u32,
}

impl AttachedMonitor {
    /// A monitor in Watching over the given process id.
    pub fn new(pid: u32) -> (m: AttachedMonitor)
        ensures
            m.phase is Watching,
            m.pid == pid,
    {
        AttachedMonitor { phase: MonitorPhase::Watching, pid }
    }

    /// One poll tick. While the process is still in the process
    /// table the monitor keeps Watching; the first tick that finds it
    /// gone moves to Finalizing.
    pub fn poll(&mut self, alive: bool)
        requires
            old(self).phase is Watching,
        ensures
            final(self).pid == old(self).pid,
            alive ==> final(self).phase is Watching,
            !alive ==> final(self).phase is Finalizing,
    {
        if !alive {
            self.phase = MonitorPhase::Finalizing;
        }
    }

    /// Finalizing: complete the Running record with the end time and
    /// move to Done. No exit code is ever recorded for an attached
    /// task: the real exit status of a foreign process is
    /// unobservable.
    pub fn finalize(&mut self, task: &mut Task, now: i64)
        requires
            old(self).phase is Finalizing,
            old(task).status is Running,
            old(task).wf(),
        ensures
            final(self).phase is Done,
            final(self).pid == old(self).pid,
            *final(task) == old(task).spec_finalize_attached(now),
            final(task).wf(),
            old(task).exit_code is None ==> final(task).exit_code is None,
    {
        task.finalize_attached(now);
        self.phase = MonitorPhase::Done;
    }
}

} // verus!
