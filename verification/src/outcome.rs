//! Records and results as mathematical values, for use in contracts.

use crate::error::Error;
use vstd::prelude::*;

verus! {

/// The record that a call names, where there is one, as a value.
pub open spec fn viewed<T: View>(record: Option<&T>) -> Option<T::V> {
    match record {
        Some(r) => Some(r@),
        None => None,
    }
}

/// What a call that returns a name hands back, with the name as a value.
pub open spec fn named(result: Result<String, Error>) -> Result<Seq<char>, Error> {
    match result {
        Ok(name) => Ok(name@),
        Err(e) => Err(e),
    }
}

/// What a call that returns an amount hands back, with the amount as a value.
pub open spec fn amounted(result: Result<i128, Error>) -> Result<int, Error> {
    match result {
        Ok(amount) => Ok(amount as int),
        Err(e) => Err(e),
    }
}

/// What a call that returns the number of a grant hands back, with the number as
/// a value.
pub open spec fn numbered(result: Result<u64, Error>) -> Result<int, Error> {
    match result {
        Ok(number) => Ok(number as int),
        Err(e) => Err(e),
    }
}

} // verus!
