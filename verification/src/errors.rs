use vstd::prelude::*;

verus! {

/// The error taxonomy of the task supervisor.
///
/// Resolution and spawn errors abort an operation before any state
/// mutation; errors inside background pipelines and monitors are
/// absorbed and never reach a caller.
#[derive(Clone, Copy, Debug, PartialEq, Eq, Structural)]
pub enum TaskError {
    /// No task record exists for the requested id.
    NotFound,
    /// The task names an environment kind that is not supported.
    UnsupportedEnvironment,
    /// A conda-family environment was requested without a name.
    MissingEnvironmentName,
    /// The jupyter kernel-spec document is unreadable, unparsable,
    /// or has an empty `argv`.
    InvalidKernelSpec,
    /// The pseudo-terminal could not be opened.
    PtyOpenFailure,
    /// The child process could not be started.
    SpawnFailure,
    /// Writing to the terminal's input side failed.
    WriteFailure,
    /// The task store rejected a read or update.
    PersistenceFailure,
}

impl TaskError {
    /// A short human-readable description of the error.
    pub fn describe(&self) -> (r: &'static str)
        ensures
            self is NotFound ==> r@ == "task not found"@,
            self is UnsupportedEnvironment ==> r@ == "unknown environment type"@,
            self is MissingEnvironmentName ==> r@ == "environment name required"@,
            self is InvalidKernelSpec ==> r@ == "invalid kernel spec"@,
            self is PtyOpenFailure ==> r@ == "failed to open pty"@,
            self is SpawnFailure ==> r@ == "failed to spawn child"@,
            self is WriteFailure ==> r@ == "failed to write to pty"@,
            self is PersistenceFailure ==> r@ == "task store failure"@,
    {
        match self {
            TaskError::NotFound => "task not found",
            TaskError::UnsupportedEnvironment => "unknown environment type",
            TaskError::MissingEnvironmentName => "environment name required",
            TaskError::InvalidKernelSpec => "invalid kernel spec",
            TaskError::PtyOpenFailure => "failed to open pty",
            TaskError::SpawnFailure => "failed to spawn child",
            TaskError::WriteFailure => "failed to write to pty",
            TaskError::PersistenceFailure => "task store failure",
        }
    }
}

} // verus!
