//! Raw outcome of one passthrough call and its classification into success
//! or a structured failure.
//!
//! Four channels are evaluated together after each transport call: the
//! syscall return code, the masked SCSI status, the host/driver status, and
//! the count of sense bytes written. A call is nominal exactly when all four
//! are zero.
use vstd::prelude::*;
use crate::error::{Error, StatusSummary};

verus! {

/// Everything the transport reports about one completed call, as plain
/// values. `os_error` holds the operating system's error code captured
/// right after the syscall, meaningful only when `ioctl_result` is nonzero.
#[derive(Debug)]
pub struct ResultData {
    pub ioctl_result: i32,
    pub os_error: i32,
    pub transfered_data_length: usize,
    pub data: Vec<u8>,
    pub transfered_sense_length: usize,
    pub sense_buffer: Vec<u8>,
    pub masked_status: u8,
    pub host_status: u16,
    pub driver_status: u16,
}

impl ResultData {
    /// All status channels of the completed call are nominal.
    pub open spec fn spec_nominal(&self) -> bool {
        &&& self.masked_status == 0
        &&& self.host_status == 0
        &&& self.driver_status == 0
        &&& self.transfered_sense_length == 0
    }

    /// The sense bytes the driver actually wrote.
    pub open spec fn spec_sense_written(&self) -> Seq<u8> {
        self.sense_buffer@.take(self.transfered_sense_length as int)
    }

    /// The transport never reports more sense bytes written than the
    /// buffer holds.
    pub open spec fn spec_wf(&self) -> bool {
        self.transfered_sense_length <= self.sense_buffer@.len()
    }

    /// Holds when `e` is the composed status error for this non-nominal
    /// outcome: all four channels and the written sense bytes.
    pub open spec fn spec_status_failure(&self, e: Error) -> bool {
        match e {
            Error::CheckCondition(s) => {
                &&& !self.spec_nominal()
                &&& s.masked_status == self.masked_status
                &&& s.host_status == self.host_status
                &&& s.driver_status == self.driver_status
                &&& s.sense@ == self.spec_sense_written()
            },
            _ => false,
        }
    }

    /// Holds when `r` reports the status channels of `self`: `Ok` exactly
    /// when every channel is nominal, and otherwise an error carrying all
    /// four channels and the written sense bytes.
    pub open spec fn spec_common_error(&self, r: crate::error::Result<()>) -> bool {
        match r {
            Ok(()) => self.spec_nominal(),
            Err(Error::CheckCondition(s)) => {
                &&& !self.spec_nominal()
                &&& s.masked_status == self.masked_status
                &&& s.host_status == self.host_status
                &&& s.driver_status == self.driver_status
                &&& s.sense@ == self.spec_sense_written()
            },
            Err(_) => false,
        }
    }

    /// Classifies the status channels, ignoring the syscall return code.
    pub fn check_common_error(&self) -> (r: crate::error::Result<()>)
        requires
            self.transfered_sense_length <= self.sense_buffer@.len(),
        ensures
            self.spec_common_error(r),
            r is Ok <==> self.spec_nominal(),
    {
        if self.masked_status == 0 && self.host_status == 0 && self.driver_status == 0
            && self.transfered_sense_length == 0 {
            Ok(())
        } else {
            let mut sense: Vec<u8> = Vec::new();
            let mut i: usize = 0;
            while i < self.transfered_sense_length
                invariant
                    0 <= i <= self.transfered_sense_length,
                    self.transfered_sense_length <= self.sense_buffer@.len(),
                    sense@ == self.sense_buffer@.take(i as int),
                decreases self.transfered_sense_length - i,
            {
                sense.push(self.sense_buffer[i]);
                proof {
                    assert(self.sense_buffer@.take(i + 1) =~= self.sense_buffer@.take(
                        i as int,
                    ).push(self.sense_buffer@[i as int]));
                }
                i += 1;
            }
            Err(Error::CheckCondition(StatusSummary {
                masked_status: self.masked_status,
                host_status: self.host_status,
                driver_status: self.driver_status,
                sense,
            }))
        }
    }

    /// Holds when `r` reports the syscall return code of `self`: `Ok`
    /// exactly when the return code is zero, and otherwise the operating
    /// system's error captured after the call.
    pub open spec fn spec_ioctl_error(&self, r: crate::error::Result<()>) -> bool {
        if self.ioctl_result == 0 {
            r == Ok::<(), Error>(())
        } else {
            r == Err::<(), Error>(Error::IO(self.os_error))
        }
    }

    /// Classifies the syscall return code alone.
    pub fn check_ioctl_error(&self) -> (r: crate::error::Result<()>)
        ensures
            self.spec_ioctl_error(r),
            r is Ok <==> self.ioctl_result == 0,
    {
        if self.ioctl_result == 0 {
            Ok(())
        } else {
            Err(Error::IO(self.os_error))
        }
    }
}

/// Classifies a raw syscall return code; `os_error` is the operating
/// system's error code captured right after the call.
pub fn check_ioctl_result(result: i32, os_error: i32) -> (r: crate::error::Result<()>)
    ensures
        result == 0 <==> r is Ok,
        result != 0 ==> r == Err::<(), Error>(Error::IO(os_error)),
{
    if result == 0 {
        Ok(())
    } else {
        Err(Error::IO(os_error))
    }
}

/// Holds when `r` classifies the given status channels: `Ok` exactly when
/// all are zero and no sense bytes were written.
pub open spec fn spec_error_status(
    masked_status: u8,
    host_status: u16,
    driver_status: u16,
    sense_buffer_written: u8,
    sense: Seq<u8>,
    r: crate::error::Result<()>,
) -> bool {
    match r {
        Ok(()) => masked_status == 0 && host_status == 0 && driver_status == 0
            && sense_buffer_written == 0,
        Err(Error::CheckCondition(s)) => {
            &&& !(masked_status == 0 && host_status == 0 && driver_status == 0
                && sense_buffer_written == 0)
            &&& s.masked_status == masked_status
            &&& s.host_status == host_status
            &&& s.driver_status == driver_status
            &&& s.sense@ == sense.take(sense_buffer_written as int)
        },
        Err(_) => false,
    }
}

/// Classifies the status channels of a completed call given piecemeal, for
/// callers that hold a raw header rather than a `ResultData`.
pub fn check_error_status_any_sense(
    masked_status: u8,
    host_status: u16,
    driver_status: u16,
    sense_buffer_written: u8,
    sense_buffer: Option<&Vec<u8>>,
) -> (r: crate::error::Result<()>)
    requires
        sense_buffer_written != 0 ==> sense_buffer is Some
            && sense_buffer_written <= sense_buffer.unwrap()@.len(),
    ensures
        spec_error_status(
            masked_status,
            host_status,
            driver_status,
            sense_buffer_written,
            if sense_buffer is Some {
                sense_buffer.unwrap()@
            } else {
                Seq::empty()
            },
            r,
        ),
        r is Ok <==> masked_status == 0 && host_status == 0 && driver_status == 0
            && sense_buffer_written == 0,
{
    if masked_status == 0 && host_status == 0 && driver_status == 0 && sense_buffer_written == 0 {
        Ok(())
    } else {
        let mut sense: Vec<u8> = Vec::new();
        if sense_buffer_written != 0 {
            let buf = sense_buffer.unwrap();
            let n = sense_buffer_written as usize;
            let mut i: usize = 0;
            while i < n
                invariant
                    0 <= i <= n,
                    n <= buf@.len(),
                    sense@ == buf@.take(i as int),
                decreases n - i,
            {
                sense.push(buf[i]);
                proof {
                    assert(buf@.take(i + 1) =~= buf@.take(i as int).push(buf@[i as int]));
                }
                i += 1;
            }
        }
        proof {
            let sseq = if sense_buffer is Some {
                sense_buffer.unwrap()@
            } else {
                Seq::<u8>::empty()
            };
            assert(sense@ =~= sseq.take(sense_buffer_written as int));
        }
        Err(Error::CheckCondition(StatusSummary { masked_status, host_status, driver_status, sense }))
    }
}

} // verus!
