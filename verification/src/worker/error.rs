use vstd::prelude::*;

verus! {

/// Why one round of sampling failed.
#[derive(Copy, Clone, Debug, PartialEq, Eq, Structural)]
pub enum WorkerError {
    DeserializationError,
    RpcError,
    AccountNotFound,
    DbCommitError,
}

/// The text that reports an error.
pub open spec fn worker_error_text(e: WorkerError) -> Seq<char> {
    match e {
        WorkerError::DeserializationError => "Error deserializing data"@,
        WorkerError::RpcError => "Rpc error"@,
        WorkerError::AccountNotFound => "Account not found"@,
        WorkerError::DbCommitError => "Failed to commit account to database"@,
    }
}

impl WorkerError {
    /// The text that reports the error.
    pub fn message(&self) -> (s: String)
        ensures
            s@ == worker_error_text(*self),
    {
        match *self {
            WorkerError::DeserializationError => String::from_str("Error deserializing data"),
            WorkerError::RpcError => String::from_str("Rpc error"),
            WorkerError::AccountNotFound => String::from_str("Account not found"),
            WorkerError::DbCommitError => String::from_str("Failed to commit account to database"),
        }
    }
}

} // verus!
