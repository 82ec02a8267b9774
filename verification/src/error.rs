//! The failures that the library reports.

use vstd::prelude::*;

verus! {

/// How a schema was violated.
#[derive(Clone, Copy, Debug, PartialEq, Eq, Structural)]
pub enum Violation {
    /// The columns differ in length: column `column` is the first that
    /// does not have the `expected` entries of the first column, but
    /// `found`.
    Uneven { column: usize, expected: usize, found: usize },
    /// Operation `op` of a run names an input column that the source
    /// lacks.
    MissingInput { op: usize },
    /// Operation `op` of a run fills an output column that the output
    /// lacks: the one at position `field` among those it declares, or its
    /// only one.
    MissingOutput { op: usize, field: usize },
}

impl Violation {
    /// Whether the violation reports the first of the given lengths that
    /// differs from the length at the front.
    pub open spec fn is_first_uneven(self, lengths: Seq<nat>) -> bool {
        &&& self matches Violation::Uneven { column, expected, found }
        &&& 0 < column < lengths.len()
        &&& expected == lengths[0]
        &&& found == lengths[column as int]
        &&& found != expected
        &&& forall|j: int| 0 <= j < column ==> lengths[j] == expected
    }
}

/// Why a column refused what was to be appended to it.
#[derive(Clone, Copy, Debug, PartialEq, Eq, Structural)]
pub enum Refusal {
    /// The column is of another concrete type.
    TypeMismatch,
    /// The column is of the right type and has no place for the value: a
    /// byte string of another width than the column's, or a text that
    /// would take the column past the range of its 32-bit offsets.
    ValueRejected,
}

impl Refusal {
    /// The refusal as the failure of the column at position `column`.
    pub open spec fn of_column(self, column: usize) -> PackError {
        match self {
            Refusal::TypeMismatch => PackError::TypeMismatch { column },
            Refusal::ValueRejected => PackError::ValueRejected { column },
        }
    }

    /// The refusal as the failure of the column at position `column`.
    pub fn at(self, column: usize) -> (e: PackError)
        ensures
            e == self.of_column(column),
    {
        match self {
            Refusal::TypeMismatch => PackError::TypeMismatch { column },
            Refusal::ValueRejected => PackError::ValueRejected { column },
        }
    }
}

/// Why an operation was refused. Nothing is retried: after any of these the
/// output written so far is to be discarded.
#[derive(Clone, Copy, Debug, PartialEq, Eq, Structural)]
pub enum PackError {
    /// A value was pushed or copied into the column at position `column`,
    /// which is of another concrete type.
    TypeMismatch { column: usize },
    /// The columns of a table differ in length, or a named column is
    /// missing.
    SchemaViolation(Violation),
    /// A type of the source has no corresponding [`crate::Kind`]: that of
    /// the declared column at position `field`, or the one type that was
    /// asked about, at position zero.
    ExternalTypeUnsupported { field: usize },
    /// The encoder task of the sink at position `sink` returned an error
    /// or ended abnormally.
    ThreadFailure { sink: usize },
    /// A batch was submitted after an encoder task had gone, and no task
    /// said why.
    ChannelClosed,
    /// The `ErrorOut` action of operation `op` fired.
    UserAbort { op: usize },
    /// The column at position `column` has no place for the value: a byte
    /// string of another width than the column's, or a text that would
    /// take the column past the range of its 32-bit offsets.
    ValueRejected { column: usize },
}

} // verus!
