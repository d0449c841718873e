use vstd::prelude::*;

verus! {

/// The two kinds of failure the library reports.
#[derive(Debug, Clone, PartialEq, Eq)]
pub enum NeosynthError {
    /// A failure surfaced by the synthesis or playback engine: its message
    /// and its native status code, unchanged.
    RuntimeError(String, i32),
    /// An invalid use detected locally (a missing capability, an unknown
    /// voice identifier).
    OperationError(String),
}

pub type NeosynthResult<T> = Result<T, NeosynthError>;

impl NeosynthError {
    /// Whether this is an error detected by the library itself.
    pub fn is_operation_error(&self) -> (r: bool)
        ensures
            r == (self is OperationError),
    {
        match self {
            NeosynthError::OperationError(_) => true,
            NeosynthError::RuntimeError(_, _) => false,
        }
    }
}

} // verus!
