use vstd::prelude::*;

verus! {

/// A typed fault raised by the library. Every fault is local and recoverable:
/// the library reports which contract was violated and with which concrete
/// values, and the caller decides whether to retry, abort, or surface it.
#[derive(Clone, Copy, Debug, PartialEq, Eq, Structural)]
pub enum NnError {
    /// A matrix shape contract was violated. The fields carry the shapes of
    /// the two operands as the failing operation saw them.
    DimensionMismatch {
        left_rows: usize,
        left_cols: usize,
        right_rows: usize,
        right_cols: usize,
    },
    /// A network was requested with fewer than two layers.
    InvalidArchitecture { layer_count: usize },
    /// A requested dataset name is not registered.
    UnknownExample,
    /// A checkpoint is structurally invalid or dimensionally inconsistent.
    CheckpointFormat,
}

impl NnError {
    /// A short, stable description of the fault, for callers that log or
    /// surface messages (the library itself never prints).
    pub fn describe(&self) -> (r: &'static str)
        ensures
            r@ == self.describe_spec(),
    {
        match self {
            NnError::DimensionMismatch { .. } => "matrix dimension mismatch",
            NnError::InvalidArchitecture { .. } => "network needs at least two layers",
            NnError::UnknownExample => "unknown example dataset",
            NnError::CheckpointFormat => "checkpoint is structurally invalid",
        }
    }

    pub open spec fn describe_spec(&self) -> Seq<char> {
        match self {
            NnError::DimensionMismatch { .. } => "matrix dimension mismatch"@,
            NnError::InvalidArchitecture { .. } => "network needs at least two layers"@,
            NnError::UnknownExample => "unknown example dataset"@,
            NnError::CheckpointFormat => "checkpoint is structurally invalid"@,
        }
    }
}

} // verus!
