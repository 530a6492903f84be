use vstd::prelude::*;

verus! {

/// Errors reported while validating bounded catalog observations.
#[derive(Clone, Debug, PartialEq, Eq)]
pub enum ObservationError {
    /// One named observation field violates the modeled PostgreSQL 18 contract.
    InvalidObservationField { field: &'static str },
    /// A one-based ordinal position was zero.
    InvalidOrdinalPosition,
    /// A receipt was requested for a location that the snapshot does not contain.
    UnknownObservationLocation { location: String },
    /// A constraint name is already used by another constraint of the same relation.
    DuplicateConstraintName { schema_name: String, table_name: String, constraint_name: String },
}

/// Holds exactly when `error` reports the invalid field called `name`.
pub open spec fn is_invalid_field(error: ObservationError, name: &str) -> bool {
    error matches ObservationError::InvalidObservationField { field } && field@ == name@
}

/// Holds exactly when `result` failed by reporting the invalid field called `name`.
pub open spec fn fails_with<T>(result: Result<T, ObservationError>, name: &str) -> bool {
    result matches Err(error) && is_invalid_field(error, name)
}

/// Builds the error that names one invalid observation field.
pub fn invalid(field: &'static str) -> (error: ObservationError)
    ensures
        is_invalid_field(error, field),
{
    ObservationError::InvalidObservationField { field }
}

} // verus!

verus! {

/// Holds exactly when `result` failed by reporting the invalid field whose name is `name`.
pub open spec fn fails_with_text<T>(result: Result<T, ObservationError>, name: Seq<char>) -> bool {
    result matches Err(error) && error matches ObservationError::InvalidObservationField { field }
        && field@ == name
}

} // verus!
