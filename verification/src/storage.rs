//! What the answers of a storage backend mean for the request that
//! asked: for adapters that keep their rows elsewhere and hand the
//! library only what came back.

use crate::error::AppError;
use crate::status::STATUS_NO_CONTENT;
use vstd::prelude::*;

verus! {

/// The answer to a read by identifier: the row the storage found, or
/// `NotFound` where it found none.
pub fn found<T>(row: Option<T>) -> (res: Result<T, AppError>)
    ensures
        match row {
            Some(value) => res == Ok::<T, AppError>(value),
            None => res matches Err(error) && error is NotFound,
        },
{
    match row {
        Some(value) => Ok(value),
        None => Err(AppError::NotFound),
    }
}

/// The answer to a deletion by identifier that removed `rows_affected`
/// rows: status 204, or `NotFound` where nothing was removed.
pub fn deleted(rows_affected: u64) -> (res: Result<u16, AppError>)
    ensures
        match res {
            Ok(status) => rows_affected > 0 && status == STATUS_NO_CONTENT,
            Err(error) => rows_affected == 0 && error is NotFound,
        },
{
    if rows_affected == 0 {
        Err(AppError::NotFound)
    } else {
        Ok(STATUS_NO_CONTENT)
    }
}

} // verus!
