//! Errors of the window layer.

use vstd::prelude::*;

verus! {

/// Why a window could not be produced or configured. Each variant carries a
/// backend-supplied detail message.
#[derive(Debug)]
pub enum WindowError {
    CreationFailed(String),
    BackendError(String),
    InvalidConfig(String),
}

impl WindowError {
    /// The fixed description of each variant.
    pub open spec fn describe_spec(&self) -> Seq<char> {
        match self {
            WindowError::CreationFailed(_) => "window creation failed"@,
            WindowError::BackendError(_) => "backend error"@,
            WindowError::InvalidConfig(_) => "invalid configuration"@,
        }
    }

    /// A short description of the error kind; the carried detail message is
    /// available by matching on the variant.
    pub fn describe(&self) -> (s: &'static str)
        ensures
            s@ == self.describe_spec(),
    {
        match self {
            WindowError::CreationFailed(_) => "window creation failed",
            WindowError::BackendError(_) => "backend error",
            WindowError::InvalidConfig(_) => "invalid configuration",
        }
    }
}

} // verus!
