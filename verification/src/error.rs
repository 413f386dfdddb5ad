//! The failures that callers of this crate observe, and those of the
//! store, which are never passed on as they are.

use crate::text::str_opt;
use vstd::prelude::*;
use vstd::string::StrSliceExecFns;

verus! {

/// Failure kinds of the permission operations.
#[derive(Clone, Copy, Debug, PartialEq, Eq, Structural)]
pub enum Error {
    /// The named permission does not exist.
    NotFound,
    /// No applicable, enabled permission governs the request.
    Forbidden,
    /// The store rejected a supplied value.
    InvalidValue,
    /// A write did not change exactly one row.
    Conflict,
}

/// Why a statement did not run to its end in the store.
#[derive(Clone, Copy, Debug, PartialEq, Eq, Structural)]
pub enum StoreError {
    /// The store turned the statement down: a value breaks one of its
    /// constraints.
    Rejected,
    /// The statement failed for another reason.
    Failed,
}

/// The kind of failure that a status code of the store stands for, where
/// the store gave one: the codes of the classes 22 (a value that does not
/// fit its type) and 23 (a broken constraint) say that the store turned
/// the statement down.
pub open spec fn kind_of_code(code: Option<Seq<char>>) -> StoreError {
    match code {
        Some(c) => if c.len() >= 2 && c[0] == '2' && (c[1] == '2' || c[1] == '3') {
            StoreError::Rejected
        } else {
            StoreError::Failed
        },
        None => StoreError::Failed,
    }
}

/// Tells from the status code of a failed statement why it failed.
pub fn store_error(code: Option<&str>) -> (r: StoreError)
    ensures
        r == kind_of_code(str_opt(code)),
{
    match code {
        Some(c) => if c.unicode_len() >= 2 && c.get_char(0) == '2' && (c.get_char(1) == '2'
            || c.get_char(1) == '3') {
            StoreError::Rejected
        } else {
            StoreError::Failed
        },
        None => StoreError::Failed,
    }
}

/// A write is expected to change exactly one row: any other number is the
/// given failure.
pub open spec fn one_row(rows: u64, otherwise: Error) -> Result<(), Error> {
    if rows == 1 {
        Ok(())
    } else {
        Err(otherwise)
    }
}

/// Checks that a write has changed exactly one row.
pub fn expect_one_row(rows: u64, otherwise: Error) -> (r: Result<(), Error>)
    ensures
        r == one_row(rows, otherwise),
{
    if rows == 1 {
        Ok(())
    } else {
        Err(otherwise)
    }
}

/// The outcome of creating a row: it succeeds where one row was added, and
/// is an `InvalidValue` otherwise.
pub open spec fn created(w: Result<u64, StoreError>) -> Result<(), Error> {
    match w {
        Ok(rows) => one_row(rows, Error::InvalidValue),
        Err(_) => Err(Error::InvalidValue),
    }
}

/// The outcome of deleting a row: it succeeds where one row was removed,
/// and is `NotFound` otherwise.
pub open spec fn removed(w: Result<u64, StoreError>) -> Result<(), Error> {
    match w {
        Ok(rows) => one_row(rows, Error::NotFound),
        Err(_) => Err(Error::NotFound),
    }
}

/// Settles the creation of a row from what the store said.
pub fn settle_create(w: Result<u64, StoreError>) -> (r: Result<(), Error>)
    ensures
        r == created(w),
{
    match w {
        Ok(rows) => expect_one_row(rows, Error::InvalidValue),
        Err(_) => Err(Error::InvalidValue),
    }
}

/// Settles the deletion of a row from what the store said.
pub fn settle_delete(w: Result<u64, StoreError>) -> (r: Result<(), Error>)
    ensures
        r == removed(w),
{
    match w {
        Ok(rows) => expect_one_row(rows, Error::NotFound),
        Err(_) => Err(Error::NotFound),
    }
}

} // verus!
