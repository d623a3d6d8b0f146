//! The library's error type.

use vstd::prelude::*;

verus! {

/// Everything that can go wrong in the library.
#[derive(Debug)]
pub enum Error {
    /// The HTTP layer (building the client, sending, reading the reply) failed.
    HttpClient(reqwest::Error),
    /// A body could not be serialized to, or parsed from, JSON.
    Serialization(serde_json::Error),
    /// A method name that is none of the supported methods.
    InvalidMethod(String),
    /// An integer did not fit the type it was converted to.
    TryFromIntError(std::num::TryFromIntError),
}

} // verus!
