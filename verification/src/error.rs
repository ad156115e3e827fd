//! airfrog firmware errors, and the HTTP status code each stands for.

use crate::swd::{error_text, SwdError};
use vstd::prelude::*;

verus! {

/// airfrog firmware error type.
#[derive(Debug, Clone, PartialEq, Eq)]
pub enum AirfrogError {
    Swd(SwdError),
    Airfrog(ErrorKind),
}

/// [`AirfrogError::Airfrog`] error kinds.
#[derive(Debug, Clone, Copy, PartialEq, Eq, Structural)]
pub enum ErrorKind {
    BadRequest,
    InvalidBody,
    InvalidPath,
    _InvalidMethod,
    Timeout,
    TooLarge,
    InternalServerError,
    Api,
    Network,
    NoFirmware,
    Flash,
}

/// The HTTP status code of an SWD error.
pub open spec fn swd_status(e: SwdError) -> u16 {
    match e {
        SwdError::WaitAck | SwdError::Timeout => 408,
        SwdError::NoAck(_) | SwdError::FaultAck | SwdError::ReadParity | SwdError::DpError => 500,
        SwdError::OperationFailed(_) => 400,
        SwdError::NotReady | SwdError::Network => 503,
        SwdError::Api => 400,
        SwdError::Unsupported => 501,
    }
}

/// The HTTP status code of an error kind.
pub open spec fn kind_status(k: ErrorKind) -> u16 {
    match k {
        ErrorKind::BadRequest => 400,
        ErrorKind::InvalidBody => 400,
        ErrorKind::InvalidPath => 404,
        ErrorKind::_InvalidMethod => 405,
        ErrorKind::Timeout => 408,
        ErrorKind::TooLarge => 413,
        ErrorKind::InternalServerError => 500,
        ErrorKind::Api => 400,
        ErrorKind::Network => 503,
        ErrorKind::NoFirmware => 404,
        ErrorKind::Flash => 500,
    }
}

/// The HTTP status code of an error.
pub open spec fn error_status(e: AirfrogError) -> u16 {
    match e {
        AirfrogError::Swd(swd) => swd_status(swd),
        AirfrogError::Airfrog(kind) => kind_status(kind),
    }
}

/// The firmware error an SWD error becomes: API, network and timeout errors
/// become the matching airfrog kinds, the rest stay SWD errors.
pub open spec fn from_swd(e: SwdError) -> AirfrogError {
    match e {
        SwdError::Api => AirfrogError::Airfrog(ErrorKind::Api),
        SwdError::Network => AirfrogError::Airfrog(ErrorKind::Network),
        SwdError::Timeout => AirfrogError::Airfrog(ErrorKind::Timeout),
        _ => AirfrogError::Swd(e),
    }
}

/// An error kind as displayed.
pub open spec fn kind_text(k: ErrorKind) -> Seq<char> {
    match k {
        ErrorKind::BadRequest => "Bad request"@,
        ErrorKind::InvalidBody => "Invalid body"@,
        ErrorKind::InvalidPath => "Invalid path"@,
        ErrorKind::_InvalidMethod => "Invalid method"@,
        ErrorKind::Timeout => "Timeout"@,
        ErrorKind::TooLarge => "Request too large"@,
        ErrorKind::InternalServerError => "Internal server error"@,
        ErrorKind::Api => "api error"@,
        ErrorKind::Network => "network error"@,
        ErrorKind::NoFirmware => "no firmware"@,
        ErrorKind::Flash => "flash storage error"@,
    }
}

/// An error kind's kind, as serialized.
pub open spec fn kind_name(k: ErrorKind) -> Seq<char> {
    match k {
        ErrorKind::BadRequest => "bad request"@,
        ErrorKind::InvalidBody => "invalid body"@,
        ErrorKind::InvalidPath => "invalid path"@,
        ErrorKind::_InvalidMethod => "invalid method"@,
        ErrorKind::Timeout => "timeout"@,
        ErrorKind::TooLarge => "too large"@,
        ErrorKind::InternalServerError => "internal server error"@,
        ErrorKind::Api => "api error"@,
        ErrorKind::Network => "network error"@,
        ErrorKind::NoFirmware => "no firmware"@,
        ErrorKind::Flash => "flash storage error"@,
    }
}

impl ErrorKind {
    /// The HTTP status code of this kind.
    pub fn status_code(&self) -> (r: u16)
        ensures
            r == kind_status(*self),
    {
        match self {
            ErrorKind::BadRequest => 400,
            ErrorKind::InvalidBody => 400,
            ErrorKind::InvalidPath => 404,
            ErrorKind::_InvalidMethod => 405,
            ErrorKind::Timeout => 408,
            ErrorKind::TooLarge => 413,
            ErrorKind::InternalServerError => 500,
            ErrorKind::Api => 400,
            ErrorKind::Network => 503,
            ErrorKind::NoFirmware => 404,
            ErrorKind::Flash => 500,
        }
    }

    /// The kind as displayed.
    pub fn as_str(&self) -> (r: &'static str)
        ensures
            r@ == kind_text(*self),
    {
        match self {
            ErrorKind::BadRequest => "Bad request",
            ErrorKind::InvalidBody => "Invalid body",
            ErrorKind::InvalidPath => "Invalid path",
            ErrorKind::_InvalidMethod => "Invalid method",
            ErrorKind::Timeout => "Timeout",
            ErrorKind::TooLarge => "Request too large",
            ErrorKind::InternalServerError => "Internal server error",
            ErrorKind::Api => "api error",
            ErrorKind::Network => "network error",
            ErrorKind::NoFirmware => "no firmware",
            ErrorKind::Flash => "flash storage error",
        }
    }

    /// The kind's name, as serialized.
    pub fn kind(&self) -> (r: &'static str)
        ensures
            r@ == kind_name(*self),
    {
        match self {
            ErrorKind::BadRequest => "bad request",
            ErrorKind::InvalidBody => "invalid body",
            ErrorKind::InvalidPath => "invalid path",
            ErrorKind::_InvalidMethod => "invalid method",
            ErrorKind::Timeout => "timeout",
            ErrorKind::TooLarge => "too large",
            ErrorKind::InternalServerError => "internal server error",
            ErrorKind::Api => "api error",
            ErrorKind::Network => "network error",
            ErrorKind::NoFirmware => "no firmware",
            ErrorKind::Flash => "flash storage error",
        }
    }
}

impl AirfrogError {
    /// The HTTP status code of this error.
    pub fn status_code(&self) -> (r: u16)
        ensures
            r == error_status(*self),
    {
        match self {
            AirfrogError::Swd(swd) => Self::status_code_from_swd_error(swd),
            AirfrogError::Airfrog(kind) => kind.status_code(),
        }
    }

    /// The HTTP status code of an SWD error.
    pub fn status_code_from_swd_error(swd: &SwdError) -> (r: u16)
        ensures
            r == swd_status(*swd),
    {
        match swd {
            SwdError::WaitAck | SwdError::Timeout => 408,
            SwdError::NoAck(_) | SwdError::FaultAck | SwdError::ReadParity | SwdError::DpError => 500,
            SwdError::OperationFailed(_) => 400,
            SwdError::NotReady | SwdError::Network => 503,
            SwdError::Api => 400,
            SwdError::Unsupported => 501,
        }
    }

    /// The error as displayed.
    pub fn to_string(&self) -> (r: String)
        ensures
            r@ == match *self {
                AirfrogError::Swd(swd) => error_text(swd),
                AirfrogError::Airfrog(kind) => kind_text(kind),
            },
    {
        match self {
            AirfrogError::Swd(swd) => swd.to_string(),
            AirfrogError::Airfrog(kind) => String::from_str(kind.as_str()),
        }
    }
}

impl From<SwdError> for AirfrogError {
    fn from(error: SwdError) -> (r: Self) {
        match error {
            SwdError::Api => AirfrogError::Airfrog(ErrorKind::Api),
            SwdError::Network => AirfrogError::Airfrog(ErrorKind::Network),
            SwdError::Timeout => AirfrogError::Airfrog(ErrorKind::Timeout),
            _ => AirfrogError::Swd(error),
        }
    }
}

impl vstd::std_specs::convert::FromSpecImpl<SwdError> for AirfrogError {
    open spec fn obeys_from_spec() -> bool {
        true
    }

    open spec fn from_spec(e: SwdError) -> AirfrogError {
        from_swd(e)
    }
}

/// An SWD error keeps its HTTP status code when it becomes a firmware
/// error.
pub proof fn lemma_from_swd_keeps_status(e: SwdError)
    ensures
        error_status(from_swd(e)) == swd_status(e),
{
}

} // verus!
