//! Decisions of the device-handle construction. Opening the device node
//! and issuing the capability probe are the caller's; these judge the
//! probe's answers: the target must be a block special device, and the
//! generic SCSI driver must be recent enough.
use vstd::prelude::*;

verus! {

/// Oldest generic-SCSI driver version the passthrough interface needs.
pub const MIN_SCSI_GENERIC_VERSION: i32 = 30000;

/// Default per-call timeout handed to the transport, in milliseconds.
pub const SG_DEFAULT_TIMEOUT: u64 = 60000;

/// Whether the version the driver reports supports generic SCSI
/// passthrough.
pub fn scsi_generic_version_supported(version: i32) -> (r: bool)
    ensures
        r == (version >= 30000),
{
    version >= 30000
}

/// An on/off switch for the auxiliary hardware features.
#[derive(Clone, Copy, Debug, PartialEq, Eq, Structural)]
pub enum Switch {
    On,
    Off,
}

impl Switch {
    pub fn is_on(&self) -> (r: bool)
        ensures
            r == (self is On),
    {
        match self {
            Switch::On => true,
            Switch::Off => false,
        }
    }
}

} // verus!
