//! The ways in which one call of the client can fail.

use vstd::prelude::*;
use crate::decimal::CoercionError;
use crate::envelope::ResponseError;

verus! {

/// The credential that every request carries could not be found.
#[derive(Clone, Copy, Debug, PartialEq, Eq, Structural)]
pub enum ConfigurationError {
    /// The environment holds no token.
    MissingToken,
}

/// The body of an answer could not be turned into the expected payload.
#[derive(Clone, Debug, PartialEq, Eq)]
pub enum DecodeError {
    /// The body does not have the expected shape; the text says why.
    Malformed(String),
    /// A field that holds a number as text does not hold a number of its
    /// type.
    InvalidNumber,
}

/// Why a call did not yield a payload.
#[derive(Clone, Debug, PartialEq, Eq)]
pub enum Error<R> {
    /// The request did not get an answer; the text says why.
    Transport(String),
    /// The answer could not be decoded.
    Decode(DecodeError),
    /// The service reported a failure.
    Envelope(ResponseError<R>),
    /// The service reported success, but its payload is no number.
    Coercion(CoercionError),
}

} // verus!
