//! Errors of the conversions.
use vstd::prelude::*;
use crate::types::Type;

verus! {

/// Why reading a value failed at the byte level.
#[derive(Debug, Clone, Copy, PartialEq, Eq, Structural)]
pub enum IoErrorKind {
    /// The buffer ended before the value did.
    EndOfFile,
}

/// An error converting between Rust and Postgres values.
#[derive(Debug, PartialEq, Eq)]
pub enum Error {
    /// The Postgres type is not one that the Rust type converts to or from.
    WrongType(Type),
    /// A `NULL` value was read into a type that cannot hold it.
    WasNull,
    /// The bytes are not a valid value of the Postgres type.
    BadData,
    /// The bytes could not be read.
    IoError(IoErrorKind),
}

/// The error of reading past the end of a buffer.
pub open spec fn end_of_file() -> Error {
    Error::IoError(IoErrorKind::EndOfFile)
}

} // verus!

verus! {

/// A result with its value taken by its view.
pub open spec fn res_view<T: View>(r: Result<T, Error>) -> Result<T::V, Error> {
    match r {
        Ok(v) => Ok(v@),
        Err(e) => Err(e),
    }
}

/// An option with its value taken by its view.
pub open spec fn opt_view<T: View>(o: Option<T>) -> Option<T::V> {
    match o {
        Some(v) => Some(v@),
        None => None,
    }
}

/// A result of an option with its value taken by its view.
pub open spec fn opt_res_view<T: View>(r: Result<Option<T>, Error>) -> Result<Option<T::V>, Error> {
    match r {
        Ok(o) => Ok(opt_view(o)),
        Err(e) => Err(e),
    }
}

} // verus!

