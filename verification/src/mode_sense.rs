//! The Mode Sense(10) command (opcode 0x5A): reads one mode page, with
//! block descriptors disabled.
use vstd::prelude::*;
use crate::codec::{copy_bytes, push_be16, push_zeros, spec_be16, spec_zeros};
use crate::command::Command;
use crate::data_direction::DataDirection;
use crate::error::Error;
use crate::result_data::ResultData;

verus! {

pub const MODE_SENSE_OPERATION_CODE: u8 = 0x5a;

/// The 10-byte Mode Sense(10) command descriptor block: opcode, the
/// disable-block-descriptors bit, the page code (low 6 bits of byte 2,
/// current-values page control), no subpage, big-endian allocation length,
/// control byte.
pub open spec fn spec_mode_sense_cdb(page_code: u8, allocation_length: u16) -> Seq<u8> {
    seq![0x5au8, 0x08u8, (page_code % 0x40) as u8, 0u8, 0u8, 0u8, 0u8] + spec_be16(
        allocation_length,
    ) + seq![0u8]
}

/// A Mode Sense(10) command for one page.
pub struct ModeSense {
    pub page_code: u8,
    pub allocation_length: u16,
}

impl ModeSense {
    pub fn new(page_code: u8, allocation_length: u16) -> (r: ModeSense)
        ensures
            r.page_code == page_code,
            r.allocation_length == allocation_length,
    {
        ModeSense { page_code, allocation_length }
    }
}

impl Command for ModeSense {
    type ReturnType = crate::error::Result<Vec<u8>>;

    open spec fn spec_direction(&self) -> DataDirection {
        DataDirection::FromDevice
    }

    open spec fn spec_command(&self) -> Seq<u8> {
        spec_mode_sense_cdb(self.page_code, self.allocation_length)
    }

    open spec fn spec_data(&self) -> Seq<u8> {
        spec_zeros(self.allocation_length as nat)
    }

    open spec fn spec_data_size(&self) -> u32 {
        self.allocation_length as u32
    }

    open spec fn spec_sense_size(&self) -> nat {
        255
    }

    open spec fn result_spec(&self, result: &ResultData, r: Self::ReturnType) -> bool {
        if result.ioctl_result != 0 {
            r == Err::<Vec<u8>, Error>(Error::IO(result.os_error))
        } else {
            match r {
                Ok(d) => result.spec_nominal() && d@ == result.data@,
                Err(e) => result.spec_status_failure(e),
            }
        }
    }

    fn get_direction(&self) -> (r: DataDirection) {
        DataDirection::FromDevice
    }

    fn get_command(&self) -> (r: Vec<u8>) {
        let mut cdb: Vec<u8> = Vec::new();
        cdb.push(0x5a);
        cdb.push(0x08);
        cdb.push(self.page_code % 0x40);
        cdb.push(0);
        cdb.push(0);
        cdb.push(0);
        cdb.push(0);
        push_be16(&mut cdb, self.allocation_length);
        cdb.push(0);
        proof {
            assert(cdb@ =~= self.spec_command());
        }
        cdb
    }

    fn get_data(&self) -> (r: Vec<u8>) {
        let mut data: Vec<u8> = Vec::new();
        push_zeros(&mut data, self.allocation_length as usize);
        proof {
            assert(data@ =~= self.spec_data());
        }
        data
    }

    fn get_sense_buffer(&self) -> (r: Vec<u8>) {
        crate::sense::bytes_sense_buffer_value()
    }

    fn get_data_size(&self) -> (r: u32) {
        self.allocation_length as u32
    }

    fn process_result(&self, result: &ResultData) -> (r: Self::ReturnType) {
        if let Err(e) = result.check_ioctl_error() {
            return Err(e);
        }
        if let Err(e) = result.check_common_error() {
            return Err(e);
        }
        Ok(copy_bytes(result.data.as_slice()))
    }
}

} // verus!
