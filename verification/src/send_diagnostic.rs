//! The Send Diagnostic command (opcode 0x1D) asking the device to run its
//! default self-test, and the interpretation of its outcome.
use vstd::prelude::*;
use crate::command::Command;
use crate::data_direction::DataDirection;
use crate::error::Error;
use crate::result_data::ResultData;
use crate::sense::spec_sense_key;

verus! {

pub const SEND_DIAGNOSTIC_OPERATION_CODE: u8 = 0x1d;

/// Outcome of the device self-test.
#[derive(Clone, Copy, Debug, PartialEq, Eq, Structural)]
pub enum TestResult {
    Passed,
    HardwareError,
}

/// The 6-byte Send Diagnostic command descriptor block: opcode and the
/// self-test bit.
pub open spec fn spec_send_diagnostic_cdb() -> Seq<u8> {
    seq![0x1du8, 0x04u8, 0u8, 0u8, 0u8, 0u8]
}

/// A Send Diagnostic command running the device's default self-test.
pub struct SendDiagnostic {
}

impl SendDiagnostic {
    pub fn new() -> (r: SendDiagnostic) {
        SendDiagnostic {  }
    }
}

impl Command for SendDiagnostic {
    type ReturnType = crate::error::Result<TestResult>;

    open spec fn spec_direction(&self) -> DataDirection {
        DataDirection::ToDevice
    }

    open spec fn spec_command(&self) -> Seq<u8> {
        spec_send_diagnostic_cdb()
    }

    open spec fn spec_data(&self) -> Seq<u8> {
        Seq::empty()
    }

    open spec fn spec_data_size(&self) -> u32 {
        0
    }

    open spec fn spec_sense_size(&self) -> nat {
        34
    }

    /// A sense key of 0x04 is intercepted as a terminal hardware error,
    /// bypassing the generic status classification.
    open spec fn result_spec(&self, result: &ResultData, r: Self::ReturnType) -> bool {
        if result.ioctl_result != 0 {
            r == Err::<TestResult, Error>(Error::IO(result.os_error))
        } else if spec_sense_key(result.sense_buffer@) == 0x04 {
            r == Ok::<TestResult, Error>(TestResult::HardwareError)
        } else {
            match r {
                Ok(t) => result.spec_nominal() && t == TestResult::Passed,
                Err(e) => result.spec_status_failure(e),
            }
        }
    }

    fn get_direction(&self) -> (r: DataDirection) {
        DataDirection::ToDevice
    }

    fn get_command(&self) -> (r: Vec<u8>) {
        let mut cdb: Vec<u8> = Vec::new();
        cdb.push(0x1d);
        cdb.push(0x04);
        cdb.push(0);
        cdb.push(0);
        cdb.push(0);
        cdb.push(0);
        proof {
            assert(cdb@ =~= self.spec_command());
        }
        cdb
    }

    fn get_data(&self) -> (r: Vec<u8>) {
        let data: Vec<u8> = Vec::new();
        proof {
            assert(data@ =~= Seq::<u8>::empty());
        }
        data
    }

    fn get_sense_buffer(&self) -> (r: Vec<u8>) {
        let s = crate::sense::fixed_sense_buffer_value();
        s.bytes
    }

    fn get_data_size(&self) -> (r: u32) {
        0
    }

    fn process_result(&self, result: &ResultData) -> (r: Self::ReturnType) {
        if let Err(e) = result.check_ioctl_error() {
            return Err(e);
        }
        if crate::sense::sense_key_of(result.sense_buffer.as_slice()) == 0x04 {
            return Ok(TestResult::HardwareError);
        }
        if let Err(e) = result.check_common_error() {
            return Err(e);
        }
        Ok(TestResult::Passed)
    }
}

} // verus!
