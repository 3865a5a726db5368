//! Errors the library reports to callers.

use vstd::prelude::*;
use vstd::string::*;
use crate::job::ConflictEntry;

verus! {

/// Why a request was refused.
#[derive(Debug, PartialEq, Eq)]
pub enum ServerError {
    /// A request or configuration that fails validation.
    Validation(String),
    /// The requested command is not offered by this server.
    UnknownCommand(String),
    /// No job has this id.
    JobNotFound(String),
    /// The request collides with the state of an existing job.
    JobConflict { message: String, conflicts: Vec<ConflictEntry> },
    /// Durable state could not be read or written.
    Persistence(String),
    /// The host had no memory for the job.
    MemoryPressure(String),
    /// A requested file does not exist.
    FileNotFound(String),
}

/// The operator-facing message of an error.
pub open spec fn spec_server_error_message(e: ServerError) -> Seq<char> {
    match e {
        ServerError::Validation(m) => m@,
        ServerError::UnknownCommand(m) => m@,
        ServerError::JobNotFound(id) => "Job not found: "@ + id@,
        ServerError::JobConflict { message, .. } => message@,
        ServerError::Persistence(m) => m@,
        ServerError::MemoryPressure(m) => m@,
        ServerError::FileNotFound(m) => m@,
    }
}

impl ServerError {
    /// The operator-facing message.
    pub fn message(&self) -> (r: String)
        ensures
            r@ == spec_server_error_message(*self),
    {
        match self {
            ServerError::Validation(m) => m.clone(),
            ServerError::UnknownCommand(m) => m.clone(),
            ServerError::JobNotFound(id) => {
                let mut s = String::from_str("Job not found: ");
                s.append(id.as_str());
                s
            },
            ServerError::JobConflict { message, .. } => message.clone(),
            ServerError::Persistence(m) => m.clone(),
            ServerError::MemoryPressure(m) => m.clone(),
            ServerError::FileNotFound(m) => m.clone(),
        }
    }
}

} // verus!
