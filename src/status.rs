//! Errors of the protocol layer and their mapping onto host status codes.
use vstd::prelude::*;

verus! {

/// Errors reported by a chip's protocol manager.
#[derive(Clone, Copy, Debug, PartialEq, Eq, Structural)]
pub enum UwbError {
    BadParameters,
    MaxSessionsExceeded,
    MaxRangingRoundsExceeded,
    CommandRetry,
    DuplicatedSessionId,
    ProtocolSpecific,
    Timeout,
    PacketTxError,
    ForeignFunctionInterface,
    Unknown,
}

/// The status codes that the host-facing byte channel can carry.
#[derive(Clone, Copy, Debug, PartialEq, Eq, Structural)]
pub enum StatusCode {
    UciStatusOk,
    UciStatusFailed,
    UciStatusInvalidParam,
    UciStatusCommandRetry,
    UciStatusMaxSessionsExceeded,
}

/// Wire value of each status code.
pub open spec fn status_value(s: StatusCode) -> i8 {
    match s {
        StatusCode::UciStatusOk => 0x00,
        StatusCode::UciStatusFailed => 0x02,
        StatusCode::UciStatusInvalidParam => 0x04,
        StatusCode::UciStatusCommandRetry => 0x0a,
        StatusCode::UciStatusMaxSessionsExceeded => 0x14,
    }
}

/// The status code that an error collapses to: three errors keep their own
/// code, every other one becomes the generic failure.
pub open spec fn error_status(e: UwbError) -> StatusCode {
    match e {
        UwbError::BadParameters => StatusCode::UciStatusInvalidParam,
        UwbError::MaxSessionsExceeded => StatusCode::UciStatusMaxSessionsExceeded,
        UwbError::CommandRetry => StatusCode::UciStatusCommandRetry,
        _ => StatusCode::UciStatusFailed,
    }
}

pub open spec fn result_status<T>(r: Result<T, UwbError>) -> StatusCode {
    match r {
        Ok(_) => StatusCode::UciStatusOk,
        Err(e) => error_status(e),
    }
}

impl StatusCode {
    /// The byte sent to the host for this status.
    pub fn to_i8(&self) -> (r: i8)
        ensures
            r == status_value(*self),
    {
        match self {
            StatusCode::UciStatusOk => 0x00,
            StatusCode::UciStatusFailed => 0x02,
            StatusCode::UciStatusInvalidParam => 0x04,
            StatusCode::UciStatusCommandRetry => 0x0a,
            StatusCode::UciStatusMaxSessionsExceeded => 0x14,
        }
    }
}

/// Converts a protocol result to the status code reported to the host.
pub fn result_to_status_code<T>(result: &Result<T, UwbError>) -> (r: StatusCode)
    ensures
        r == result_status(*result),
{
    match result {
        Ok(_) => StatusCode::UciStatusOk,
        Err(UwbError::BadParameters) => StatusCode::UciStatusInvalidParam,
        Err(UwbError::MaxSessionsExceeded) => StatusCode::UciStatusMaxSessionsExceeded,
        Err(UwbError::CommandRetry) => StatusCode::UciStatusCommandRetry,
        Err(_) => StatusCode::UciStatusFailed,
    }
}

/// Reduces a result to success or failure; `error_msg` names the operation
/// for the caller's log.
pub fn boolean_result_helper<T>(result: Result<T, UwbError>, error_msg: &str) -> (r: bool)
    ensures
        r == result is Ok,
{
    match result {
        Ok(_) => true,
        Err(_) => false,
    }
}

/// Reduces a result to the status byte of the host channel.
pub fn byte_result_helper<T>(result: Result<T, UwbError>, error_msg: &str) -> (r: i8)
    ensures
        r == status_value(result_status(result)),
        r == 0 <==> result is Ok,
{
    let code = result_to_status_code(&result);
    code.to_i8()
}

/// Keeps the value of a successful result and drops the error.
pub fn option_result_helper<T>(result: Result<T, UwbError>, error_msg: &str) -> (r: Option<T>)
    ensures
        r == match result {
            Ok(v) => Some(v),
            Err(_) => None::<T>,
        },
{
    match result {
        Ok(v) => Some(v),
        Err(_) => None,
    }
}

} // verus!
