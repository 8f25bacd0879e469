use vstd::prelude::*;

use crate::errors::{content_error_to_error, handle_content_error, ContentError, Error};

verus! {

/// What to do with a response once its status is known.
#[derive(Debug, Clone, PartialEq, Eq)]
pub enum ResponseStep {
    /// Decode the body as the type the call expects.
    DecodeBody,
    /// Decode the body as a `{code, msg}` content error.
    DecodeContentError,
    /// The call failed; the body is not read.
    Fail(Error),
}

/// The documented status table.
pub open spec fn status_step(status: u16) -> ResponseStep {
    if status == 200 {
        ResponseStep::DecodeBody
    } else if status == 400 {
        ResponseStep::DecodeContentError
    } else if status == 401 {
        ResponseStep::Fail(Error::Unauthorized)
    } else if status == 500 {
        ResponseStep::Fail(Error::InternalServerError)
    } else if status == 503 {
        ResponseStep::Fail(Error::ServiceUnavailable)
    } else {
        ResponseStep::Fail(Error::UnexpectedStatus { status })
    }
}

/// Classifies a response by its status; only 200 leads to a success body.
pub fn interpret_status(status: u16) -> (r: ResponseStep)
    ensures
        r == status_step(status),
        r is DecodeBody <==> status == 200,
{
    if status == 200 {
        ResponseStep::DecodeBody
    } else if status == 400 {
        ResponseStep::DecodeContentError
    } else if status == 401 {
        ResponseStep::Fail(Error::Unauthorized)
    } else if status == 500 {
        ResponseStep::Fail(Error::InternalServerError)
    } else if status == 503 {
        ResponseStep::Fail(Error::ServiceUnavailable)
    } else {
        ResponseStep::Fail(Error::UnexpectedStatus { status })
    }
}

/// The outcome of a 200 response, given the result of decoding its body
/// (the decoder's message on failure): the value, or a deserialization
/// error, which is final for the call.
pub fn finish_body<T>(decoded: Result<T, String>) -> (r: Result<T, Error>)
    ensures
        match decoded {
            Ok(v) => r == Ok::<T, Error>(v),
            Err(m) => r == Err::<T, Error>(Error::DeserializationError(m)),
        },
{
    match decoded {
        Ok(v) => Ok(v),
        Err(m) => Err(Error::DeserializationError(m)),
    }
}

/// The error of a 400 response, given the result of decoding its body as a
/// content error.
pub fn finish_content_error(decoded: Result<ContentError, String>) -> (r: Error)
    ensures
        match decoded {
            Ok(e) => r == content_error_to_error(e),
            Err(m) => r == Error::DeserializationError(m),
        },
{
    match decoded {
        Ok(e) => handle_content_error(e),
        Err(m) => Error::DeserializationError(m),
    }
}

} // verus!
