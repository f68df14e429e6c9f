//! Transfer direction of a command's data phase.
use vstd::prelude::*;

verus! {

/// Direction of the data transfer that a command performs.
#[derive(Clone, Copy, Debug, PartialEq, Eq, Structural)]
pub enum DataDirection {
    /// No data phase, e.g. a SCSI Test Unit Ready command.
    NoData,
    /// Data flows to the device, e.g. a SCSI WRITE command.
    ToDevice,
    /// Data flows from the device, e.g. a SCSI READ command.
    FromDevice,
    /// Treated like `FromDevice`, with the user buffer additionally copied
    /// into the kernel buffers before the transfer.
    ToFromDevice,
    Unknown,
}

impl DataDirection {
    /// The raw constant the generic SCSI driver expects for this direction.
    pub fn raw_value(&self) -> (r: i32)
        ensures
            r == self.spec_raw_value(),
    {
        match self {
            DataDirection::NoData => -1,
            DataDirection::ToDevice => -2,
            DataDirection::FromDevice => -3,
            DataDirection::ToFromDevice => -4,
            DataDirection::Unknown => -5,
        }
    }

    pub open spec fn spec_raw_value(&self) -> i32 {
        match self {
            DataDirection::NoData => -1i32,
            DataDirection::ToDevice => -2i32,
            DataDirection::FromDevice => -3i32,
            DataDirection::ToFromDevice => -4i32,
            DataDirection::Unknown => -5i32,
        }
    }
}

} // verus!
