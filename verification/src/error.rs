//! The error type shared by every fallible operation of the library.

use vstd::prelude::*;

verus! {

/// Why a library operation failed.
///
/// `Failure` carries the error text of a response envelope whose success
/// flag was false, or another protocol-level refusal; `Lab` reports a
/// parameter-patching target that was not found; `Http` carries a
/// transport failure reported by the executor; `Serde` a response body
/// that could not be decoded.
#[derive(Debug, Clone, PartialEq)]
pub enum Error {
    Failure(String),
    Lab(String),
    Http(String),
    Serde(String),
}

} // verus!
