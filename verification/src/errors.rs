//! Error taxonomy for device access and device selection, with the
//! classification that decides when a selected device is discarded.

use vstd::prelude::*;

verus! {

/// Failure of one read or write on a brightness control: an I/O failure,
/// which remembers whether the control was missing, or malformed numeric
/// content.
#[derive(Clone, Copy, Debug, PartialEq, Eq, Structural)]
pub enum AccessError {
    IoError { not_found: bool },
    ParseError,
}

/// Failure of device selection or of a lid transition's device work.
/// `DeviceInitError` wraps the failed read of a device's maximum brightness;
/// `AccessFailed` wraps a failed read or write on the brightness control.
#[derive(Clone, Copy, Debug, PartialEq, Eq, Structural)]
pub enum DeviceError {
    NoDevicesFound,
    RequestedDeviceNotFound,
    DeviceInitError(AccessError),
    AccessFailed(AccessError),
}

/// Whether an access failure's root cause is a missing file or directory.
pub open spec fn access_not_found(e: AccessError) -> bool {
    match e {
        AccessError::IoError { not_found } => not_found,
        AccessError::ParseError => false,
    }
}

/// Whether a device error's root cause is a missing file or directory; only
/// such errors invalidate the selected device.
pub open spec fn is_not_found(e: DeviceError) -> bool {
    match e {
        DeviceError::DeviceInitError(a) => access_not_found(a),
        DeviceError::AccessFailed(a) => access_not_found(a),
        _ => false,
    }
}

impl DeviceError {
    /// Runtime form of the invalidation test.
    pub fn not_found(&self) -> (r: bool)
        ensures
            r == is_not_found(*self),
    {
        match self {
            DeviceError::DeviceInitError(AccessError::IoError { not_found }) => *not_found,
            DeviceError::AccessFailed(AccessError::IoError { not_found }) => *not_found,
            _ => false,
        }
    }
}

} // verus!
