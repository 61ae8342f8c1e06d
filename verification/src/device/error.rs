//! Errors returned by operations on devices.

use vstd::prelude::*;
use crate::error::{self as base, ErrorKind, describe_quick_spec, reason_view};
use crate::event_instant::EventInstant;

verus! {

/// Error returned by operations on devices.
#[derive(Debug, Clone, Hash, PartialEq, Eq)]
pub enum Error {
    /// The device was disconnected at the specific instant, if known.
    DeviceDisconnected(Option<EventInstant>),
    /// The device (or backend for the device) does not support this operation.
    NotSupportedByDevice { reason: Option<String> },
    /// Another error occured (in the meantime, it is unknown whether or not the device is
    /// still connected).
    Other(base::Error),
}

/// The short description of a device error.
pub open spec fn device_error_description(e: Error) -> Seq<char> {
    match e {
        Error::DeviceDisconnected(_) => "Device disconnected"@,
        Error::NotSupportedByDevice { .. } => "Not supported by device"@,
        Error::Other(o) => describe_quick_spec(o.kind),
    }
}

impl Error {
    /// The short description of this error.
    pub fn description(&self) -> (r: &'static str)
        ensures
            r@ == device_error_description(*self),
    {
        match self {
            Error::DeviceDisconnected(_) => "Device disconnected",
            Error::NotSupportedByDevice { .. } => "Not supported by device",
            Error::Other(e) => e.description(),
        }
    }
}

/// Fails because the device was disconnected at the given instant.
pub fn disconnected_at<T>(instant: EventInstant) -> (r: Result<T, Error>)
    ensures
        r matches Err(Error::DeviceDisconnected(Some(i))) && i == instant,
{
    Err(Error::DeviceDisconnected(Some(instant)))
}

/// Fails because the device was disconnected at an unknown instant.
pub fn disconnected<T>() -> (r: Result<T, Error>)
    ensures
        r matches Err(Error::DeviceDisconnected(None)),
{
    Err(Error::DeviceDisconnected(None))
}

/// Fails for another reason, unexplained.
pub fn failed_unexplained<T>() -> (r: Result<T, Error>)
    ensures
        r matches Err(Error::Other(e)) && e.kind == ErrorKind::Failed && e.reason is None,
{
    Err(Error::Other(base::Error::failed_unexplained()))
}

/// Fails for another, explained, reason.
pub fn failed<T>(s: String) -> (r: Result<T, Error>)
    ensures
        r matches Err(Error::Other(e)) && e.kind == ErrorKind::Failed && reason_view(e.reason)
            == Some(s@),
{
    Err(Error::Other(base::Error::failed(s)))
}

/// Fails because the device does not support the operation, for the given reason.
pub fn not_supported_by_device<T>(s: String) -> (r: Result<T, Error>)
    ensures
        r matches Err(Error::NotSupportedByDevice { reason }) && reason_view(reason) == Some(s@),
{
    Err(Error::NotSupportedByDevice { reason: Some(s) })
}

/// Fails because the device does not support the operation, unexplained.
pub fn not_supported_by_device_unexplained<T>() -> (r: Result<T, Error>)
    ensures
        r matches Err(Error::NotSupportedByDevice { reason: None }),
{
    Err(Error::NotSupportedByDevice { reason: None })
}

} // verus!
