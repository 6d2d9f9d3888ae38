use vstd::prelude::*;

use crate::document::PersistedDocument;
use crate::error::StoreError;

verus! {

/// The result of a load, given what the lookup of the id's row returned:
/// the row's snapshot, `NotFound` when no row matched, or the query failure.
pub fn load_result(fetched: Result<Option<PersistedDocument>, String>) -> (r: Result<
    PersistedDocument,
    StoreError,
>)
    ensures
        match fetched {
            Ok(Some(d)) => r == Ok::<PersistedDocument, StoreError>(d),
            Ok(None) => r == Err::<PersistedDocument, StoreError>(StoreError::NotFound),
            Err(cause) => r == Err::<PersistedDocument, StoreError>(StoreError::Database(cause)),
        },
{
    match fetched {
        Ok(Some(d)) => Ok(d),
        Ok(None) => Err(StoreError::NotFound),
        Err(cause) => Err(StoreError::Database(cause)),
    }
}

/// The result of an upsert, given the number of rows it affected: success
/// only when exactly one row was affected; any other count is an integrity
/// failure, even though the write may have been applied.
pub fn store_result(executed: Result<u64, String>) -> (r: Result<(), StoreError>)
    ensures
        match executed {
            Ok(n) => if n == 1 {
                r == Ok::<(), StoreError>(())
            } else {
                r == Err::<(), StoreError>(StoreError::Integrity(n))
            },
            Err(cause) => r == Err::<(), StoreError>(StoreError::Database(cause)),
        },
{
    match executed {
        Ok(n) => if n == 1 {
            Ok(())
        } else {
            Err(StoreError::Integrity(n))
        },
        Err(cause) => Err(StoreError::Database(cause)),
    }
}

/// The result of a count, given the number the counting query returned. A
/// number that is no valid count (below zero, or past `usize`) is a
/// database error.
pub fn count_result(fetched: Result<i64, String>) -> (r: Result<usize, StoreError>)
    ensures
        match fetched {
            Ok(n) => if 0 <= n <= usize::MAX {
                r == Ok::<usize, StoreError>(n as usize)
            } else {
                r is Err && r->Err_0 is Database
            },
            Err(cause) => r == Err::<usize, StoreError>(StoreError::Database(cause)),
        },
{
    match fetched {
        Ok(n) => if 0 <= n && n as u64 <= usize::MAX as u64 {
            Ok(n as usize)
        } else {
            Err(StoreError::Database(String::from_str("the document count is out of range")))
        },
        Err(cause) => Err(StoreError::Database(cause)),
    }
}

} // verus!
