use vstd::prelude::*;
use vstd::string::StringExecFns;

use crate::numtext::{spec_dec, u64_to_dec};

verus! {

/// Lifecycle state of a task record.
#[derive(Clone, Copy, Debug, PartialEq, Eq, Structural)]
pub enum TaskStatus {
    Pending,
    Running,
    Completed,
    Failed,
    Stopped,
}

/// Whether a status is at or past Running.
pub open spec fn reached_running(s: TaskStatus) -> bool {
    !(s is Pending)
}

/// Whether a status is terminal.
pub open spec fn is_terminal(s: TaskStatus) -> bool {
    s is Completed || s is Failed || s is Stopped
}

/// Position of a status along the Pending -> Running -> terminal chain.
pub open spec fn status_rank(s: TaskStatus) -> int {
    if s is Pending {
        0
    } else if s is Running {
        1
    } else {
        2
    }
}

/// The display name of a status.
pub open spec fn spec_status_name(s: TaskStatus) -> Seq<char> {
    match s {
        TaskStatus::Pending => "Pending"@,
        TaskStatus::Running => "Running"@,
        TaskStatus::Completed => "Completed"@,
        TaskStatus::Failed => "Failed"@,
        TaskStatus::Stopped => "Stopped"@,
    }
}

impl TaskStatus {
    /// The display name of the status.
    pub fn name(&self) -> (r: &'static str)
        ensures
            r@ == spec_status_name(*self),
    {
        match self {
            TaskStatus::Pending => "Pending",
            TaskStatus::Running => "Running",
            TaskStatus::Completed => "Completed",
            TaskStatus::Failed => "Failed",
            TaskStatus::Stopped => "Stopped",
        }
    }
}

/// A task record. Timestamps are seconds since the Unix epoch.
#[derive(Debug, Clone)]
pub struct Task {
    pub id: String,
    pub owner: String,
    pub name: String,
    /// The raw command string; its interpretation depends on `env_type`.
    pub command: String,
    /// A JSON array of extra arguments, kept as text.
    pub args: String,
    /// One of "shell", "conda", "mamba", "micromamba", "uv", "jupyter".
    pub env_type: String,
    /// An environment name, or for jupyter the path of a kernel-spec file.
    pub env_name: Option<String>,
    pub cwd: String,
    pub status: TaskStatus,
    pub created_at: i64,
    pub started_at: Option<i64>,
    pub ended_at: Option<i64>,
    pub pid: Option<u32>,
    pub exit_code: Option<i32>,
}

impl Task {
    /// Well-formedness: the record's fields agree with its status.
    ///
    /// A process id is only set once the task has reached Running;
    /// the start timestamp is set exactly then; end timestamp and
    /// exit code appear only in terminal states, and an exit code
    /// only on the owned-spawn terminal states.
    pub open spec fn wf(self) -> bool {
        &&& self.pid is Some ==> reached_running(self.status)
        &&& self.started_at is Some <==> reached_running(self.status)
        &&& self.ended_at is Some ==> is_terminal(self.status)
        &&& self.status is Running ==> self.ended_at is None && self.exit_code is None
        &&& self.exit_code is Some ==> self.status is Completed || self.status is Failed
    }

    /// A fresh record as created for a command to be spawned later.
    pub fn new_pending(
        id: String,
        owner: String,
        name: String,
        command: String,
        args: String,
        env_type: String,
        env_name: Option<String>,
        cwd: Option<String>,
        created_at: i64,
    ) -> (t: Task)
        ensures
            t.id == id,
            t.owner == owner,
            t.name == name,
            t.command == command,
            t.args == args,
            t.env_type == env_type,
            t.env_name == env_name,
            cwd matches Some(c) ==> t.cwd == c,
            cwd is None ==> t.cwd@ == "."@,
            t.status is Pending,
            t.created_at == created_at,
            t.started_at is None && t.ended_at is None && t.pid is None && t.exit_code is None,
            t.wf(),
    {
        let cwd_or_default = match cwd {
            Some(c) => c,
            None => String::from_str("."),
        };
        Task {
            id,
            owner,
            name,
            command,
            args,
            env_type,
            env_name,
            cwd: cwd_or_default,
            status: TaskStatus::Pending,
            created_at,
            started_at: None,
            ended_at: None,
            pid: None,
            exit_code: None,
        }
    }

    /// A fresh record for supervision attached to an existing process.
    ///
    /// The command field records the supervised process id; the id
    /// itself is persisted only when the attach operation marks the
    /// task Running.
    pub fn new_attached(id: String, owner: String, name: String, pid: u32, created_at: i64) -> (t:
        Task)
        ensures
            t.id == id,
            t.owner == owner,
            t.name == name,
            t.command@ == "Attached PID "@ + spec_dec(pid as nat),
            t.args@ == "[]"@,
            t.env_type@ == "attached"@,
            t.env_name is None,
            t.cwd@ == "."@,
            t.status is Pending,
            t.created_at == created_at,
            t.started_at is None && t.ended_at is None && t.pid is None && t.exit_code is None,
            t.wf(),
    {
        let mut command = String::from_str("Attached PID ");
        let digits = u64_to_dec(pid as u64);
        command.append(digits.as_str());
        Task {
            id,
            owner,
            name,
            command,
            args: String::from_str("[]"),
            env_type: String::from_str("attached"),
            env_name: None,
            cwd: String::from_str("."),
            status: TaskStatus::Pending,
            created_at,
            started_at: None,
            ended_at: None,
            pid: None,
            exit_code: None,
        }
    }

    /// The record after the transition to Running.
    pub open spec fn spec_mark_running(self, pid: Option<u32>, now: i64) -> Task {
        Task { status: TaskStatus::Running, started_at: Some(now), pid, ..self }
    }

    /// Move a Pending record to Running, recording the process id and
    /// the start time.
    pub fn mark_running(&mut self, pid: Option<u32>, now: i64)
        requires
            old(self).status is Pending,
            old(self).wf(),
        ensures
            *final(self) == old(self).spec_mark_running(pid, now),
            final(self).wf(),
    {
        self.status = TaskStatus::Running;
        self.started_at = Some(now);
        self.pid = pid;
    }

    /// A copy of a Pending record moved to Running, as
    /// `spec_mark_running` describes, leaving the original intact.
    pub fn to_running(&self, pid: Option<u32>, now: i64) -> (t: Task)
        requires
            self.status is Pending,
            self.wf(),
        ensures
            t == self.spec_mark_running(pid, now),
            t.wf(),
    {
        Task {
            id: self.id.clone(),
            owner: self.owner.clone(),
            name: self.name.clone(),
            command: self.command.clone(),
            args: self.args.clone(),
            env_type: self.env_type.clone(),
            env_name: match &self.env_name {
                Some(s) => Some(s.clone()),
                None => None,
            },
            cwd: self.cwd.clone(),
            status: TaskStatus::Running,
            created_at: self.created_at,
            started_at: Some(now),
            ended_at: self.ended_at,
            pid,
            exit_code: self.exit_code,
        }
    }

    /// The record after an owned child exited.
    ///
    /// The raw exit status is coarsened: success becomes exit code 0
    /// and Completed, everything else (nonzero codes and signals
    /// alike) becomes exit code 1 and Failed.
    pub open spec fn spec_finalize_owned(self, success: bool, now: i64) -> Task {
        Task {
            status: if success {
                TaskStatus::Completed
            } else {
                TaskStatus::Failed
            },
            ended_at: Some(now),
            exit_code: Some(
                if success {
                    0
                } else {
                    1
                },
            ),
            ..self
        }
    }

    /// Finalize a Running owned-spawn record from its child's exit.
    pub fn finalize_owned(&mut self, success: bool, now: i64)
        requires
            old(self).status is Running,
            old(self).wf(),
        ensures
            *final(self) == old(self).spec_finalize_owned(success, now),
            final(self).wf(),
    {
        self.status = if success {
            TaskStatus::Completed
        } else {
            TaskStatus::Failed
        };
        self.ended_at = Some(now);
        self.exit_code = Some(
            if success {
                0i32
            } else {
                1i32
            },
        );
    }

    /// The record after an attached process was seen gone.
    ///
    /// No exit code is recorded: the real exit status of a process
    /// this system did not spawn is unobservable.
    pub open spec fn spec_finalize_attached(self, now: i64) -> Task {
        Task { status: TaskStatus::Completed, ended_at: Some(now), ..self }
    }

    /// Finalize a Running attached record once its process is gone.
    pub fn finalize_attached(&mut self, now: i64)
        requires
            old(self).status is Running,
            old(self).wf(),
        ensures
            *final(self) == old(self).spec_finalize_attached(now),
            final(self).wf(),
            final(self).exit_code is None,
    {
        self.status = TaskStatus::Completed;
        self.ended_at = Some(now);
    }
}

/// Status transitions are monotonic along
/// Pending -> Running -> {Completed, Failed, Stopped}: each lifecycle
/// transition strictly advances the status.
pub proof fn lemma_transitions_monotonic(t: Task, pid: Option<u32>, now: i64, success: bool)
    ensures
        t.status is Pending ==> status_rank(t.spec_mark_running(pid, now).status) > status_rank(
            t.status,
        ),
        t.status is Running ==> status_rank(t.spec_finalize_owned(success, now).status)
            > status_rank(t.status),
        t.status is Running ==> status_rank(t.spec_finalize_attached(now).status) > status_rank(
            t.status,
        ),
{
}

/// An owned spawn that is then finalized: Running carries the pid and
/// start time; exit success yields Completed with exit code 0, any
/// other exit yields Failed with exit code 1; the end time is set in
/// both cases.
pub proof fn lemma_owned_lifecycle(t: Task, pid: Option<u32>, started: i64, success: bool, ended: i64)
    requires
        t.wf(),
        t.status is Pending,
    ensures
        ({
            let running = t.spec_mark_running(pid, started);
            let done = running.spec_finalize_owned(success, ended);
            &&& running.status is Running
            &&& running.pid == pid
            &&& running.started_at == Some(started)
            &&& done.status == (if success {
                TaskStatus::Completed
            } else {
                TaskStatus::Failed
            })
            &&& done.exit_code == Some(
                if success {
                    0i32
                } else {
                    1i32
                },
            )
            &&& done.ended_at == Some(ended)
            &&& done.started_at == Some(started)
            &&& done.pid == pid
        }),
{
}

/// An attached task that is then finalized: it completes with the end
/// time set and never acquires an exit code.
pub proof fn lemma_attached_lifecycle(t: Task, pid: u32, started: i64, ended: i64)
    requires
        t.wf(),
        t.status is Pending,
    ensures
        ({
            let running = t.spec_mark_running(Some(pid), started);
            let done = running.spec_finalize_attached(ended);
            &&& running.status is Running
            &&& done.status is Completed
            &&& done.ended_at == Some(ended)
            &&& done.exit_code is None
        }),
{
}

/// Incoming request payload for creating a task record.
#[derive(Debug, Clone)]
pub struct CreateTaskRequest {
    pub name: String,
    pub command: String,
    pub args: Vec<String>,
    pub env_type: String,
    pub env_name: Option<String>,
    pub cwd: Option<String>,
}

} // verus!
