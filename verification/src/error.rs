use vstd::prelude::*;

verus! {

/// Failures that the feedback contract reports to its callers.
#[derive(Copy, Clone, Debug, PartialEq, Eq, Structural, PartialOrd, Ord)]
pub enum Error {
    AlreadyInitialized,
    NotInitialized,
    NoAdminAuth,
    MessageAlreadyExists,
}

/// The number under which the contract reports an error.
pub open spec fn error_code(e: Error) -> u32 {
    match e {
        Error::AlreadyInitialized => 0,
        Error::NotInitialized => 1,
        Error::NoAdminAuth => 2,
        Error::MessageAlreadyExists => 3,
    }
}

impl Error {
    /// The number under which the contract reports this error.
    pub fn code(&self) -> (c: u32)
        ensures
            c == error_code(*self),
    {
        match self {
            Error::AlreadyInitialized => 0,
            Error::NotInitialized => 1,
            Error::NoAdminAuth => 2,
            Error::MessageAlreadyExists => 3,
        }
    }
}

} // verus!
