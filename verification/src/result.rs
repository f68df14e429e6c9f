//! Domain error taxonomy of the vendor command layer: precise causes
//! recognized from sense data, validation failures, and wrapped
//! transport errors.
use vstd::prelude::*;

verus! {

/// A failure of a vendor command or of the logic around it.
#[derive(Debug)]
pub enum Error {
    /// The device is not locked; the operation needed a locked device.
    NotLocked(String),
    /// The device is not unlocked; the operation needed an unlocked device.
    NotUnlocked(String),
    /// The maximum number of unlock attempts has been exceeded.
    ExceedUnlockAttempts,
    /// The password was incorrect.
    PasswordIncorrect,
    /// The password blob does not have the size the cipher requires.
    PasswordBlobSizeIncorrect,
    /// The cipher is not supported.
    UnsupportedCipher,
    /// The device's reply does not look like this vendor's protocol.
    UnsupportedDevice,
    /// The persisted security block is structurally invalid or absent.
    InvalidSecurityBlock,
    /// The hint does not fit the security block's capacity.
    HintTooLong,
    /// The salt does not fit its fixed eight bytes.
    SaltTooLong,
    /// A transport-level failure underneath the vendor command.
    ScsiError(crate::error::Error),
    Other(String),
}

pub type Result<T> = core::result::Result<T, Error>;

} // verus!
