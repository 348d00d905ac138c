use vstd::prelude::*;

verus! {

/// The error of an operation, carried as its message.
#[derive(Debug)]
pub struct Error {
    pub message: String,
}

/// The error of a task that did not run to its end (it panicked or was cancelled),
/// carried as its message.
#[derive(Debug)]
pub struct JoinError {
    pub message: String,
}

} // verus!
