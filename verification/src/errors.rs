//! Error values returned by the session registry.
use vstd::prelude::*;
use vstd::string::StringExecFns;

verus! {

/// Why a spawn request failed. Each failing stage of the spawn pipeline is
/// distinguishable; the payload carries the human-readable message for the
/// command boundary, and no partial session survives any of them.
#[derive(Debug)]
pub enum SpawnError {
    /// The OS refused to open a new PTY pair.
    PtyOpen(String),
    /// The writer or reader side could not be obtained from the PTY master.
    WriterUnavailable(String),
    /// The child process could not be started on the slave side.
    ChildSpawn(String),
}

/// Why an operation on an existing session failed.
#[derive(Debug)]
pub enum SessionError {
    /// The addressed identifier is absent from the registry: it was never
    /// issued, or the session was already closed.
    NotFound,
    /// An OS-level write, flush or resize failed against a live session.
    /// The session stays in the registry; the caller decides what to do.
    Io(String),
}

impl SpawnError {
    /// The flattened message for the command boundary.
    pub fn into_message(self) -> (r: String)
        ensures
            r@ == match self {
                SpawnError::PtyOpen(m) => m@,
                SpawnError::WriterUnavailable(m) => m@,
                SpawnError::ChildSpawn(m) => m@,
            },
    {
        match self {
            SpawnError::PtyOpen(m) => m,
            SpawnError::WriterUnavailable(m) => m,
            SpawnError::ChildSpawn(m) => m,
        }
    }
}

impl SessionError {
    /// The flattened message for the command boundary, naming the addressed
    /// session where the identifier was not found.
    pub fn describe(self, session_id: &str) -> (r: String)
        ensures
            r@ == match self {
                SessionError::NotFound => "Session not found: "@ + session_id@,
                SessionError::Io(m) => m@,
            },
    {
        match self {
            SessionError::NotFound => "Session not found: ".to_owned().concat(session_id),
            SessionError::Io(m) => m,
        }
    }
}

} // verus!
