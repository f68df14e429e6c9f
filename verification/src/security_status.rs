//! The device's security state as the encryption status reply reports it.
use vstd::prelude::*;
use crate::result::Error;

verus! {

/// Security state of the drive's hardware encryption.
#[derive(Clone, Copy, Debug, PartialEq, Eq, Structural)]
pub enum SecurityStatus {
    /// Encrypted with a default password; no user password is set.
    NoUserPassword,
    Locked,
    Unlocked,
    UnlockAttemptExceeded,
    NoEncryption,
}

impl SecurityStatus {
    pub open spec fn spec_from_code(value: u8) -> Option<SecurityStatus> {
        match value {
            0u8 => Some(SecurityStatus::NoUserPassword),
            1u8 => Some(SecurityStatus::Locked),
            2u8 => Some(SecurityStatus::Unlocked),
            6u8 => Some(SecurityStatus::UnlockAttemptExceeded),
            7u8 => Some(SecurityStatus::NoEncryption),
            _ => Option::None,
        }
    }

    /// The status a reply byte names; an unknown code marks an
    /// unsupported device.
    pub fn from_code(value: u8) -> (r: crate::result::Result<SecurityStatus>)
        ensures
            match r {
                Ok(s) => SecurityStatus::spec_from_code(value) == Some(s),
                Err(e) => SecurityStatus::spec_from_code(value) is None
                    && e is UnsupportedDevice,
            },
            r is Ok <==> SecurityStatus::spec_from_code(value) is Some,
    {
        match value {
            0 => Ok(SecurityStatus::NoUserPassword),
            1 => Ok(SecurityStatus::Locked),
            2 => Ok(SecurityStatus::Unlocked),
            6 => Ok(SecurityStatus::UnlockAttemptExceeded),
            7 => Ok(SecurityStatus::NoEncryption),
            _ => Err(Error::UnsupportedDevice),
        }
    }
}

/// Fails with `NotUnlocked` carrying the given message when the device is
/// locked or out of unlock attempts; the operations that change device
/// settings demand an unlocked device.
pub fn check_device_unlocked(status: &SecurityStatus, error_message: &str) -> (r:
    crate::result::Result<()>)
    ensures
        r is Ok <==> !(status is Locked || status is UnlockAttemptExceeded),
        match r {
            Ok(()) => true,
            Err(Error::NotUnlocked(m)) => m@ == error_message@,
            Err(_) => false,
        },
{
    match status {
        SecurityStatus::Locked | SecurityStatus::UnlockAttemptExceeded => Err(
            Error::NotUnlocked(error_message.to_owned()),
        ),
        _ => Ok(()),
    }
}

} // verus!
