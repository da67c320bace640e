//! The envelope that wraps every answer of the remote service, and the rule
//! that turns it into a payload or an error.

use vstd::prelude::*;

verus! {

/// The three meanings that the status text of an envelope can have.
#[derive(Clone, Copy, Debug, PartialEq, Eq, Structural)]
pub enum StatusCode {
    /// The service answered the request.
    Success,
    /// The service reported a failure.
    Error,
    /// The status text is neither of the two known ones.
    Unknown,
}

impl StatusCode {
    /// The meaning of a status text: `1` is success, `0` is failure, and
    /// every other text is unknown.
    pub open spec fn classify(text: Seq<char>) -> StatusCode {
        if text == seq!['1'] {
            StatusCode::Success
        } else if text == seq!['0'] {
            StatusCode::Error
        } else {
            StatusCode::Unknown
        }
    }

    /// The lower-case name of the status.
    pub open spec fn label(self) -> Seq<char> {
        match self {
            StatusCode::Success => "ok"@,
            StatusCode::Error => "error"@,
            StatusCode::Unknown => "unknown"@,
        }
    }

    /// Classifies a status text.
    pub fn parse(s: &str) -> (code: StatusCode)
        ensures
            code == StatusCode::classify(s@),
    {
        broadcast use vstd::string::group_string_axioms;

        let mut it = s.chars();
        let first = it.next();
        let second = it.next();
        match (first, second) {
            (Some(c), None) => {
                assert(s@ =~= seq![c]);
                if c == '1' {
                    StatusCode::Success
                } else if c == '0' {
                    StatusCode::Error
                } else {
                    assert(seq![c][0] == c);
                    StatusCode::Unknown
                }
            },
            _ => {
                assert(s@.len() != 1);
                StatusCode::Unknown
            },
        }
    }

    /// Reads a status text. Every text is read: one that is neither `1` nor
    /// `0` comes back as `Ok(StatusCode::Unknown)`, so that reading a status
    /// never fails.
    pub fn from_str(s: &str) -> (r: Result<StatusCode, StatusCode>)
        ensures
            r == Ok::<StatusCode, StatusCode>(StatusCode::classify(s@)),
    {
        Ok(StatusCode::parse(s))
    }

    /// The lower-case name of the status, as text.
    pub fn to_string(&self) -> (s: String)
        ensures
            s@ == self.label(),
    {
        match self {
            StatusCode::Success => "ok".to_owned(),
            StatusCode::Error => "error".to_owned(),
            StatusCode::Unknown => "unknown".to_owned(),
        }
    }
}

/// One answer of the service: a status, a message and a payload.
#[derive(Clone, Debug, PartialEq, Eq)]
pub struct Response<T> {
    pub status: StatusCode,
    pub message: String,
    pub result: T,
}

/// What an envelope with a failure status carried.
#[derive(Clone, Debug, PartialEq, Eq)]
pub struct ResponseError<R> {
    pub status_code: StatusCode,
    pub message: String,
    pub result: R,
}

impl<T> Response<T> {
    /// The envelope with the given status text, message and payload.
    pub open spec fn envelope(status: Seq<char>, message: String, result: T) -> Response<T> {
        Response { status: StatusCode::classify(status), message, result }
    }

    /// What unwrapping the envelope gives: the error that carries status,
    /// message and payload where the status is a failure, else the payload.
    pub open spec fn outcome(self) -> Result<T, ResponseError<T>> {
        if self.status == StatusCode::Error {
            Err(
                ResponseError {
                    status_code: self.status,
                    message: self.message,
                    result: self.result,
                },
            )
        } else {
            Ok(self.result)
        }
    }

    /// Builds an envelope from the status text, the message and the payload
    /// of an answer.
    pub fn new(status: &str, message: String, result: T) -> (r: Response<T>)
        ensures
            r == Response::envelope(status@, message, result),
    {
        Response { status: StatusCode::parse(status), message, result }
    }

    /// Unwraps the envelope: the payload, or the error that the service
    /// reported.
    pub fn result_or_error(self) -> (r: Result<T, ResponseError<T>>)
        ensures
            r == self.outcome(),
    {
        match self.status {
            StatusCode::Error => Err(
                ResponseError {
                    status_code: self.status,
                    message: self.message,
                    result: self.result,
                },
            ),
            _ => Ok(self.result),
        }
    }
}

impl<R> ResponseError<R> {
    /// The text of the error, given the text that stands for the payload.
    pub open spec fn description(self, result_text: Seq<char>) -> Seq<char> {
        "response error with status "@ + self.status_code.label() + ", message: "@ + self.message@
            + ", result: "@ + result_text
    }

    /// Describes the error in one line. How a payload is shown is up to the
    /// caller, who hands in its text.
    pub fn describe(&self, result_text: &str) -> (s: String)
        ensures
            s@ == self.description(result_text@),
    {
        let mut s = "response error with status ".to_owned();
        let label = self.status_code.to_string();
        s.append(label.as_str());
        s.append(", message: ");
        s.append(self.message.as_str());
        s.append(", result: ");
        s.append(result_text);
        s
    }
}

/// An envelope whose status text is `1` unwraps to its payload, unchanged.
pub proof fn lemma_status_one_yields_payload<T>(status: Seq<char>, message: String, result: T)
    requires
        status == "1"@,
    ensures
        Response::envelope(status, message, result).outcome() == Ok::<T, ResponseError<T>>(result),
{
    reveal_strlit("1");
    assert(status =~= seq!['1']);
}

/// An envelope whose status text is `0` unwraps to an error that carries the
/// message and the payload of the envelope.
pub proof fn lemma_status_zero_yields_error<T>(status: Seq<char>, message: String, result: T)
    requires
        status == "0"@,
    ensures
        Response::envelope(status, message, result).outcome() == Err::<T, ResponseError<T>>(
            ResponseError { status_code: StatusCode::Error, message, result },
        ),
{
    reveal_strlit("0");
    assert(status =~= seq!['0']);
    assert(seq!['0'][0] != seq!['1'][0]);
}

/// An envelope whose status text is neither `1` nor `0` unwraps to its
/// payload: an unrecognised status is let through.
pub proof fn lemma_unknown_status_yields_payload<T>(status: Seq<char>, message: String, result: T)
    requires
        status != "1"@,
        status != "0"@,
    ensures
        Response::envelope(status, message, result).status == StatusCode::Unknown,
        Response::envelope(status, message, result).outcome() == Ok::<T, ResponseError<T>>(result),
{
    reveal_strlit("1");
    reveal_strlit("0");
    assert("1"@ =~= seq!['1']);
    assert("0"@ =~= seq!['0']);
}

} // verus!
