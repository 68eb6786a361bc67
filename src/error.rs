//! Errors of the LED driver and the peripheral status codes they come from.
use vstd::prelude::*;

verus! {

/// Status code of a successful peripheral call.
pub const ESP_OK: i32 = 0;

/// Status code of an invalid argument.
pub const ESP_ERR_INVALID_ARG: i32 = 0x102;

/// Status code of an operation that the peripheral's state does not allow.
pub const ESP_ERR_INVALID_STATE: i32 = 0x103;

/// Status code of an operation that did not finish in time.
pub const ESP_ERR_TIMEOUT: i32 = 0x107;

/// What went wrong while bringing up or driving the light.
#[derive(Clone, Copy, Debug, PartialEq, Eq, Structural)]
pub enum LedError {
    /// The peripheral refused the channel or pin configuration, or reported a
    /// clock it cannot be calibrated against. Fatal to construction.
    Configuration(i32),
    /// The pulse-train driver could not be installed or could not take the
    /// encoder. Fatal to construction.
    DriverInstall(i32),
    /// The hardware did not report the end of a transmission in time.
    TransmitTimeout,
    /// The hardware refused a transmission for another reason.
    Transmit(i32),
    /// A previous holder of the shared light failed while holding it.
    PoisonedAccess,
}

/// The HTTP status that answers a request to change the light.
pub open spec fn status_for(r: Result<(), LedError>) -> u16 {
    match r {
        Ok(()) => 200,
        Err(_) => 500,
    }
}

/// The HTTP status that answers a request to change the light: 200 on
/// success, 500 on any failure, a poisoned lock included.
pub fn http_status(r: &Result<(), LedError>) -> (s: u16)
    ensures
        s == status_for(*r),
{
    match r {
        Ok(()) => 200,
        Err(_) => 500,
    }
}

/// The error of a transmission whose completion the hardware reported with
/// `status`, or `None` where it reported success.
pub open spec fn transmit_error(status: i32) -> Option<LedError> {
    if status == ESP_OK {
        None
    } else if status == ESP_ERR_TIMEOUT {
        Some(LedError::TransmitTimeout)
    } else {
        Some(LedError::Transmit(status))
    }
}

/// Classifies the status that ends a transmission.
pub fn classify_transmit(status: i32) -> (r: Option<LedError>)
    ensures
        r == transmit_error(status),
{
    if status == ESP_OK {
        None
    } else if status == ESP_ERR_TIMEOUT {
        Some(LedError::TransmitTimeout)
    } else {
        Some(LedError::Transmit(status))
    }
}

} // verus!
