//! Host adapter status codes reported by the generic SCSI driver.
use vstd::prelude::*;

verus! {

/// Errors reported by the host adapter, independent of the device response.
#[derive(Clone, Copy, Debug, PartialEq, Eq, Structural)]
pub enum HostStatus {
    /// No error.
    Okay,
    /// Couldn't connect before the timeout period.
    NoConnect,
    /// Bus stayed busy through the timeout period.
    BusBusy,
    /// Timed out for another reason.
    TimeOut,
    /// Bad target, device not responding?
    BadTarget,
    /// Told to abort for some other reason.
    Abort,
    /// Parity error; probably a cable or termination problem.
    Parity,
    /// Internal error detected in the host adapter.
    Error,
    /// The SCSI bus (or this device) has been reset.
    Reset,
    /// Got an interrupt we weren't expecting.
    BadInterrupt,
    /// Force command past the mid-layer.
    Passthrough,
    /// The low-level driver wants a retry.
    SoftError,
    /// Retry without decrementing the retry count.
    ImmediateRetry,
    /// Requeue the command, also without decrementing the retry count.
    Requeue,
    /// Something unknown.
    Unknown,
}

impl HostStatus {
    pub open spec fn spec_from_code(value: u16) -> HostStatus {
        match value {
            0x00 => HostStatus::Okay,
            0x01 => HostStatus::NoConnect,
            0x02 => HostStatus::BusBusy,
            0x03 => HostStatus::TimeOut,
            0x04 => HostStatus::BadTarget,
            0x05 => HostStatus::Abort,
            0x06 => HostStatus::Parity,
            0x07 => HostStatus::Error,
            0x08 => HostStatus::Reset,
            0x09 => HostStatus::BadInterrupt,
            0x0a => HostStatus::Passthrough,
            0x0b => HostStatus::SoftError,
            0x0c => HostStatus::ImmediateRetry,
            0x0d => HostStatus::Requeue,
            _ => HostStatus::Unknown,
        }
    }

    /// The status named by a raw driver code.
    pub fn from_code(value: u16) -> (r: HostStatus)
        ensures
            r == HostStatus::spec_from_code(value),
    {
        match value {
            0x00 => HostStatus::Okay,
            0x01 => HostStatus::NoConnect,
            0x02 => HostStatus::BusBusy,
            0x03 => HostStatus::TimeOut,
            0x04 => HostStatus::BadTarget,
            0x05 => HostStatus::Abort,
            0x06 => HostStatus::Parity,
            0x07 => HostStatus::Error,
            0x08 => HostStatus::Reset,
            0x09 => HostStatus::BadInterrupt,
            0x0a => HostStatus::Passthrough,
            0x0b => HostStatus::SoftError,
            0x0c => HostStatus::ImmediateRetry,
            0x0d => HostStatus::Requeue,
            _ => HostStatus::Unknown,
        }
    }
}

} // verus!
