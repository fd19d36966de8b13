//! Errors reported by hardware backends

use vstd::prelude::*;
use vstd::string::{to_string_from_display_ensures, StringExecFns};

verus! {

/// Error produced by the API of a hardware backend
#[derive(Debug, PartialEq, Eq)]
pub enum HardwareError {
    /// The backend's API returned an error code, with its description
    APIError {
        /// Error code reported by the backend
        code: u32,
        /// Description of the code
        desc: String,
    },
    /// The requested channel type is already in use on the device
    ConflictingChannel,
    /// The device does not support the requested channel type
    ChannelNotSupported,
    /// The device could not be found
    DeviceNotFound,
    /// The device has not been opened
    DeviceNotOpen,
    /// The lock guarding a shared device was poisoned by a holder that panicked
    DeviceLockError,
}

/// Message of an error, up to what it reports of the backend's own words
pub open spec fn hardware_error_text(e: HardwareError) -> Seq<char> {
    match e {
        HardwareError::APIError { .. } => "Device API error "@,
        HardwareError::ConflictingChannel => "Channel type conflicts with an already open channel"@,
        HardwareError::ChannelNotSupported => "Channel type not supported on this hardware"@,
        HardwareError::DeviceNotFound => "Device not found"@,
        HardwareError::DeviceNotOpen => "Device function called on a device that is not open"@,
        HardwareError::DeviceLockError => "Device lock poisoned by a holder that panicked"@,
    }
}

/// `m` is the message of `e`: for an API error, the prefix, the code as `u32`'s
/// `to_string` writes it, `": "` and the description
pub open spec fn is_hardware_message(e: HardwareError, m: Seq<char>) -> bool {
    match e {
        HardwareError::APIError { code, desc } => exists|t: String|
            #![trigger to_string_from_display_ensures::<u32>(&code, t)]
            to_string_from_display_ensures::<u32>(&code, t) && m == hardware_error_text(e) + t@
                + ": "@ + desc@,
        _ => m == hardware_error_text(e),
    }
}

impl HardwareError {
    /// Human readable message of the error. An API error gives its code and then its
    /// description after the message's prefix.
    pub fn to_string(&self) -> (r: String)
        ensures
            is_hardware_message(*self, r@),
    {
        match self {
            HardwareError::APIError { code, desc } => {
                let mut m = "Device API error ".to_owned();
                let t = code.to_string();
                m.append(t.as_str());
                m.append(": ");
                m.append(desc.as_str());
                assert(m@ == hardware_error_text(*self) + t@ + ": "@ + desc@);
                m
            },
            HardwareError::ConflictingChannel => "Channel type conflicts with an already open channel".to_owned(),
            HardwareError::ChannelNotSupported => "Channel type not supported on this hardware".to_owned(),
            HardwareError::DeviceNotFound => "Device not found".to_owned(),
            HardwareError::DeviceNotOpen => "Device function called on a device that is not open".to_owned(),
            HardwareError::DeviceLockError => "Device lock poisoned by a holder that panicked".to_owned(),
        }
    }
}

} // verus!
