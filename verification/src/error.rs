//! What can go wrong between the application and its table.

use vstd::prelude::*;

verus! {

/// Why an operation on the table gave no row.
#[derive(Debug, Clone, Copy, PartialEq, Eq, Structural)]
pub enum DataError {
    /// No row has the key that was asked for.
    NotFound,
    /// The table could not be read or written.
    DataAccess,
}

/// The outcome of reading or writing, with whatever went wrong taken as a
/// failure of access.
pub fn access_result<T, E>(outcome: Result<T, E>) -> (result: Result<T, DataError>)
    ensures
        match outcome {
            Ok(value) => result == Ok::<T, DataError>(value),
            Err(_) => result == Err::<T, DataError>(DataError::DataAccess),
        },
{
    match outcome {
        Ok(value) => Ok(value),
        Err(_) => Err(DataError::DataAccess),
    }
}

/// The outcome of looking a row up by its key: a lookup that went through
/// and met no row is `NotFound`, one that did not go through is a failure
/// of access.
pub fn lookup_result<T, E>(outcome: Result<Option<T>, E>) -> (result: Result<T, DataError>)
    ensures
        match outcome {
            Ok(Some(row)) => result == Ok::<T, DataError>(row),
            Ok(None) => result == Err::<T, DataError>(DataError::NotFound),
            Err(_) => result == Err::<T, DataError>(DataError::DataAccess),
        },
{
    match outcome {
        Ok(Some(row)) => Ok(row),
        Ok(None) => Err(DataError::NotFound),
        Err(_) => Err(DataError::DataAccess),
    }
}

} // verus!
