//! Transport-level error taxonomy: resource errors from opening a device,
//! transport errors from a failed passthrough call, and protocol-status
//! errors composed from the status channels of a completed call.
use vstd::prelude::*;

verus! {

/// The non-nominal status channels of a completed passthrough call,
/// composed into one value: any channel may be non-zero, and the raw sense
/// bytes (exactly as many as the driver reported written) are kept.
#[derive(Debug)]
pub struct StatusSummary {
    pub masked_status: u8,
    pub host_status: u16,
    pub driver_status: u16,
    pub sense: Vec<u8>,
}

/// A transport-level failure.
#[derive(Debug)]
pub enum Error {
    /// The path did not name a block special device.
    NotBlockDevice(String),
    /// The device does not support generic SCSI passthrough, or the driver
    /// is too old.
    NotScsiDevice(String),
    /// The device or driver reported an exceptional status; one clause per
    /// non-nominal channel.
    CheckCondition(StatusSummary),
    Other(String),
    /// The passthrough syscall itself failed; holds the operating system's
    /// error code captured right after the call.
    IO(i32),
}

pub type Result<T> = core::result::Result<T, Error>;

} // verus!
