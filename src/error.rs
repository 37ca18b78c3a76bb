use vstd::prelude::*;
use vstd::string::*;

verus! {

/// Errors that can arise while recording a call edge.
#[derive(Debug)]
pub enum CallGraphError {
    /// The log file could not be created, written or flushed; holds the
    /// operating system's description of the failure.
    IoError(String),
    /// The lock around the log file was poisoned.
    LockError,
    /// A write was attempted before the log file was opened.
    NoLogFile,
}

/// The text that describes an error.
pub open spec fn error_text(e: CallGraphError) -> Seq<char> {
    match e {
        CallGraphError::IoError(m) => "I/O error: "@ + m@,
        CallGraphError::LockError => "Failed to acquire lock"@,
        CallGraphError::NoLogFile => "Log file not initialized"@,
    }
}

impl CallGraphError {
    /// Human-readable description, as reported on the diagnostic channel.
    pub fn message(&self) -> (r: String)
        ensures
            r@ == error_text(*self),
    {
        match self {
            CallGraphError::IoError(m) => {
                let mut s = String::from_str("I/O error: ");
                s.append(m.as_str());
                s
            },
            CallGraphError::LockError => String::from_str("Failed to acquire lock"),
            CallGraphError::NoLogFile => String::from_str("Log file not initialized"),
        }
    }
}

} // verus!
