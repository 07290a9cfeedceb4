//! The errors with which a request can end.

use vstd::prelude::*;

verus! {

#[derive(Debug, PartialEq, Eq)]
pub enum AppError {
    /// Something that the request names does not exist.
    NotFound(String),
    /// A query that must yield a row yielded none.
    RowNotFound,
    /// A part of the service outside this library failed. It says with which
    /// status the request is to be answered.
    Upstream { status: u16, message: String },
}

} // verus!
