//! What the answer to a request amounts to.
//!
//! The caller fetches the address of a request and reports what came back as
//! a `Reply`. The functions here turn the reply into the payload or into the
//! error that the caller sees.

use vstd::prelude::*;
use crate::api::API;
use crate::decimal::parse_u128_spec;
use crate::envelope::{Response, StatusCode};
use crate::error::{DecodeError, Error};
use crate::models::{all_decodable, all_decoded, decode_all, Balance, Record};

verus! {

/// What came back for one request. `F` is the payload as it arrives, with
/// every field as text.
#[derive(Clone, Debug, PartialEq, Eq)]
pub enum Reply<F> {
    /// Nothing came back: the transport failed, and the text says how.
    Failed(String),
    /// A body came back that is no envelope around the expected payload; the
    /// text says why.
    Malformed(String),
    /// An envelope came back.
    Envelope { status: String, message: String, result: F },
}

/// The payload of an envelope, or the error that it reports.
pub open spec fn unwrapped<T>(response: Response<T>) -> Result<T, Error<T>> {
    match response.outcome() {
        Ok(payload) => Ok(payload),
        Err(e) => Err(Error::Envelope(e)),
    }
}

/// What a reply with one record amounts to. A failed transport comes first,
/// then a body that cannot be decoded, then the status of the envelope.
pub open spec fn settled<T: Record>(reply: Reply<T::Fields>) -> Result<T, Error<T>> {
    match reply {
        Reply::Failed(why) => Err(Error::Transport(why)),
        Reply::Malformed(why) => Err(Error::Decode(DecodeError::Malformed(why))),
        Reply::Envelope { status, message, result } => {
            if T::decodable(&result) {
                unwrapped(Response::envelope(status@, message, T::decoded(&result)))
            } else {
                Err(Error::Decode(DecodeError::InvalidNumber))
            }
        },
    }
}

/// What a reply amounts to once its payload has been decoded, or has failed
/// to decode.
pub open spec fn settled_decoded<T>(reply: Reply<Result<T, DecodeError>>) -> Result<T, Error<T>> {
    match reply {
        Reply::Failed(why) => Err(Error::Transport(why)),
        Reply::Malformed(why) => Err(Error::Decode(DecodeError::Malformed(why))),
        Reply::Envelope { status, message, result } => match result {
            Ok(payload) => unwrapped(Response::envelope(status@, message, payload)),
            Err(e) => Err(Error::Decode(e)),
        },
    }
}

/// Unwraps an envelope into the payload or the error of a call.
pub fn unwrap_envelope<T>(response: Response<T>) -> (r: Result<T, Error<T>>)
    ensures
        r == unwrapped(response),
{
    match response.result_or_error() {
        Ok(payload) => Ok(payload),
        Err(e) => Err(Error::Envelope(e)),
    }
}

/// Concludes a call whose payload the caller has decoded already.
pub fn conclude_decoded<T>(reply: Reply<Result<T, DecodeError>>) -> (r: Result<T, Error<T>>)
    ensures
        r == settled_decoded(reply),
{
    match reply {
        Reply::Failed(why) => Err(Error::Transport(why)),
        Reply::Malformed(why) => Err(Error::Decode(DecodeError::Malformed(why))),
        Reply::Envelope { status, message, result } => match result {
            Ok(payload) => unwrap_envelope(Response::new(status.as_str(), message, payload)),
            Err(e) => Err(Error::Decode(e)),
        },
    }
}

/// Concludes a call whose payload is one record.
pub fn conclude<T: Record>(reply: Reply<T::Fields>) -> (r: Result<T, Error<T>>)
    ensures
        r == settled::<T>(reply),
{
    match reply {
        Reply::Failed(why) => Err(Error::Transport(why)),
        Reply::Malformed(why) => Err(Error::Decode(DecodeError::Malformed(why))),
        Reply::Envelope { status, message, result } => {
            let decoded = T::decode(&result);
            conclude_decoded(Reply::Envelope { status, message, result: decoded })
        },
    }
}

/// Concludes a call whose payload is a list of records. The records keep
/// the order in which they arrived.
pub fn conclude_list<T: Record>(reply: Reply<Vec<T::Fields>>) -> (r: Result<
    Vec<T>,
    Error<Vec<T>>,
>)
    ensures
        match reply {
            Reply::Failed(why) => r == Err::<Vec<T>, Error<Vec<T>>>(Error::Transport(why)),
            Reply::Malformed(why) => r == Err::<Vec<T>, Error<Vec<T>>>(
                Error::Decode(DecodeError::Malformed(why)),
            ),
            Reply::Envelope { status, message, result } => {
                if !all_decodable::<T>(result@) {
                    r == Err::<Vec<T>, Error<Vec<T>>>(Error::Decode(DecodeError::InvalidNumber))
                } else if StatusCode::classify(status@) == StatusCode::Error {
                    &&& r matches Err(Error::Envelope(e))
                    &&& e.status_code == StatusCode::Error
                    &&& e.message == message
                    &&& e.result@ == all_decoded::<T>(result@)
                } else {
                    &&& r matches Ok(records)
                    &&& records@ == all_decoded::<T>(result@)
                }
            },
        },
{
    match reply {
        Reply::Failed(why) => Err(Error::Transport(why)),
        Reply::Malformed(why) => Err(Error::Decode(DecodeError::Malformed(why))),
        Reply::Envelope { status, message, result } => {
            let decoded = decode_all::<T>(&result);
            conclude_decoded(Reply::Envelope { status, message, result: decoded })
        },
    }
}

/// What a reply to a request for an amount comes to: the amount as a number,
/// where the envelope reports success and its payload is a number.
pub open spec fn settled_balance(reply: Reply<String>) -> Result<u128, Error<Balance>> {
    match settled::<Balance>(reply) {
        Ok(balance) => match parse_u128_spec(balance.0@) {
            Ok(v) => Ok(v),
            Err(e) => Err(Error::Coercion(e)),
        },
        Err(e) => Err(e),
    }
}

impl API {
    /// Concludes a call whose payload is an amount.
    pub fn fetch_balance(reply: Reply<String>) -> (r: Result<u128, Error<Balance>>)
        ensures
            r == settled_balance(reply),
    {
        match conclude::<Balance>(reply) {
            Ok(result) => match result.value() {
                Ok(v) => Ok(v),
                Err(e) => Err(Error::Coercion(e)),
            },
            Err(e) => Err(e),
        }
    }
}

} // verus!
