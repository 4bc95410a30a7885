use vstd::prelude::*;
use crate::error::LastkajenError;

verus! {

/// The one status code on which the service's answer is read as data.
pub const STATUS_OK: u16 = 200;

/// What to do with a response body once its status is known.
#[derive(Debug, Clone, Copy, PartialEq, Eq, Structural)]
pub enum ResponseStep {
    /// The status is success: decode the body as the expected data.
    Decode,
    /// The status is anything else: read the body as text, to be reported.
    ReadErrorText,
}

/// The step that follows a response with the given status.
pub open spec fn step_for(status: u16) -> ResponseStep {
    if status == STATUS_OK {
        ResponseStep::Decode
    } else {
        ResponseStep::ReadErrorText
    }
}

/// The error reported for a failed response, given what reading its body as
/// text gave.
pub open spec fn error_for(text: Result<String, reqwest::Error>) -> LastkajenError {
    match text {
        Ok(t) => LastkajenError::LastkajenError(t),
        Err(e) => LastkajenError::ReqwestError(e),
    }
}

/// Decides how a response is handled: only a status of exactly 200 lets its
/// body be decoded; on any other status the body is only read as text.
pub fn check_status(status: u16) -> (r: ResponseStep)
    ensures
        r == step_for(status),
        r == ResponseStep::Decode <==> status == 200,
{
    if status == STATUS_OK {
        ResponseStep::Decode
    } else {
        ResponseStep::ReadErrorText
    }
}

/// The error for a response whose status was not success: the service's own
/// message where the body could be read as text, else the transport failure.
pub fn error_from_body(text: Result<String, reqwest::Error>) -> (r: LastkajenError)
    ensures
        r == error_for(text),
{
    match text {
        Ok(t) => LastkajenError::LastkajenError(t),
        Err(e) => LastkajenError::ReqwestError(e),
    }
}

/// The result of an exchange whose body was decoded: a decoding or transport
/// failure becomes a transport error.
pub fn from_decoded<T>(decoded: Result<T, reqwest::Error>) -> (r: Result<T, LastkajenError>)
    ensures
        match decoded {
            Ok(v) => r == Ok::<T, LastkajenError>(v),
            Err(e) => r == Err::<T, LastkajenError>(LastkajenError::ReqwestError(e)),
        },
{
    match decoded {
        Ok(v) => Ok(v),
        Err(e) => Err(LastkajenError::ReqwestError(e)),
    }
}

/// A response with any status other than 200 is never decoded: its body is
/// read as text only, and the outcome is the service's message when that text
/// could be read, else the transport failure.
pub proof fn lemma_failed_status_never_decodes(status: u16, text: Result<String, reqwest::Error>)
    requires
        status != 200,
    ensures
        step_for(status) == ResponseStep::ReadErrorText,
        step_for(status) != ResponseStep::Decode,
        text matches Ok(t) ==> error_for(text) == LastkajenError::LastkajenError(t),
        text matches Err(e) ==> error_for(text) == LastkajenError::ReqwestError(e),
{
}

} // verus!
