use vstd::prelude::*;
use crate::decimal::{decimal, decimal_string};

verus! {

#[verifier::external_type_specification]
#[verifier::external_body]
pub struct ExReqwestError(reqwest::Error);

#[verifier::external_type_specification]
#[verifier::external_body]
pub struct ExIoError(std::io::Error);

/// Every way an exchange with the service can fail.
#[derive(Debug)]
pub enum LastkajenError {
    /// The HTTP layer failed: connection, TLS, reading or decoding a body.
    ReqwestError(reqwest::Error),
    /// Writing downloaded bytes to the sink failed.
    IoError(std::io::Error),
    /// The service answered with a status other than success and nothing more.
    StatusError(u16),
    /// The service answered with a status other than success and this message.
    LastkajenError(String),
}

impl From<reqwest::Error> for LastkajenError {
    fn from(error: reqwest::Error) -> (r: Self)
        ensures
            r == LastkajenError::ReqwestError(error),
    {
        LastkajenError::ReqwestError(error)
    }
}

impl vstd::std_specs::convert::FromSpecImpl<reqwest::Error> for LastkajenError {
    open spec fn obeys_from_spec() -> bool {
        true
    }

    open spec fn from_spec(v: reqwest::Error) -> Self {
        LastkajenError::ReqwestError(v)
    }
}

impl From<std::io::Error> for LastkajenError {
    fn from(error: std::io::Error) -> (r: Self)
        ensures
            r == LastkajenError::IoError(error),
    {
        LastkajenError::IoError(error)
    }
}

impl vstd::std_specs::convert::FromSpecImpl<std::io::Error> for LastkajenError {
    open spec fn obeys_from_spec() -> bool {
        true
    }

    open spec fn from_spec(v: std::io::Error) -> Self {
        LastkajenError::IoError(v)
    }
}

impl From<u16> for LastkajenError {
    fn from(status: u16) -> (r: Self)
        ensures
            r == LastkajenError::StatusError(status),
    {
        LastkajenError::StatusError(status)
    }
}

impl vstd::std_specs::convert::FromSpecImpl<u16> for LastkajenError {
    open spec fn obeys_from_spec() -> bool {
        true
    }

    open spec fn from_spec(v: u16) -> Self {
        LastkajenError::StatusError(v)
    }
}

/// Relies on the `Display` impl of `reqwest::Error` for the text of a
/// transport failure.
#[verifier::external_body]
fn transport_text(error: &reqwest::Error) -> (r: String) {
    format!("{}", error)
}

/// Relies on the `Display` impl of `std::io::Error` for the text of a sink
/// failure.
#[verifier::external_body]
fn io_text(error: &std::io::Error) -> (r: String) {
    format!("{}", error)
}

impl LastkajenError {
    /// A line of text that describes the error: a label for its kind followed
    /// by the status code, the service's message or the cause's own text.
    pub fn message(&self) -> (r: String)
        ensures
            match self {
                LastkajenError::ReqwestError(_) => "reqwest::Error: "@.is_prefix_of(r@),
                LastkajenError::IoError(_) => "IO Error: "@.is_prefix_of(r@),
                LastkajenError::StatusError(code) => r@ == "Api Request Error: HTTP status "@
                    + decimal(*code as nat),
                LastkajenError::LastkajenError(text) => r@ == "Lastkajen Error: "@ + text@,
            },
    {
        match self {
            LastkajenError::ReqwestError(err) => {
                let mut out = String::from_str("reqwest::Error: ");
                let cause = transport_text(err);
                out.append(cause.as_str());
                assert(out@.subrange(0, "reqwest::Error: "@.len() as int) =~= "reqwest::Error: "@);
                out
            },
            LastkajenError::IoError(err) => {
                let mut out = String::from_str("IO Error: ");
                let cause = io_text(err);
                out.append(cause.as_str());
                assert(out@.subrange(0, "IO Error: "@.len() as int) =~= "IO Error: "@);
                out
            },
            LastkajenError::StatusError(code) => {
                let mut out = String::from_str("Api Request Error: HTTP status ");
                let digits = decimal_string(*code as usize);
                out.append(digits.as_str());
                out
            },
            LastkajenError::LastkajenError(text) => {
                let mut out = String::from_str("Lastkajen Error: ");
                out.append(text.as_str());
                out
            },
        }
    }
}

} // verus!
