//! The vendor handy-store read command: fetches one 512-byte block of the
//! drive's persistent vendor storage.
use vstd::prelude::*;
use crate::codec::{copy_bytes, push_be16, push_be32, push_zeros, spec_be16, spec_be32, spec_zeros};
use crate::command::Command;
use crate::data_direction::DataDirection;
use crate::result::Error;
use crate::result_data::ResultData;

verus! {

pub const READ_HANDY_STORE_OPERATION_CODE: u8 = 0xd8;

/// The 10-byte handy-store read command descriptor block: opcode, a
/// reserved byte, the big-endian block address, a reserved byte, the
/// big-endian transfer length of one block, control byte.
pub open spec fn spec_read_handy_store_cdb(handy_store_block_address: u32) -> Seq<u8> {
    seq![0xd8u8, 0u8] + spec_be32(handy_store_block_address) + seq![0u8] + spec_be16(1) + seq![0u8]
}

/// The vendor handy-store read command for one block.
pub struct ReadHandyStore {
    pub handy_store_index: u32,
}

impl ReadHandyStore {
    pub fn new(handy_store_index: u32) -> (r: ReadHandyStore)
        ensures
            r.handy_store_index == handy_store_index,
    {
        ReadHandyStore { handy_store_index }
    }
}

impl Command for ReadHandyStore {
    type ReturnType = crate::result::Result<Vec<u8>>;

    open spec fn spec_direction(&self) -> DataDirection {
        DataDirection::FromDevice
    }

    open spec fn spec_command(&self) -> Seq<u8> {
        spec_read_handy_store_cdb(self.handy_store_index)
    }

    open spec fn spec_data(&self) -> Seq<u8> {
        spec_zeros(512)
    }

    open spec fn spec_data_size(&self) -> u32 {
        512
    }

    open spec fn spec_sense_size(&self) -> nat {
        255
    }

    open spec fn result_spec(&self, result: &ResultData, r: Self::ReturnType) -> bool {
        if result.ioctl_result != 0 {
            match r {
                Err(Error::ScsiError(crate::error::Error::IO(code))) => code == result.os_error,
                _ => false,
            }
        } else {
            match r {
                Ok(d) => result.spec_nominal() && d@ == result.data@,
                Err(Error::ScsiError(e)) => result.spec_status_failure(e),
                Err(_) => false,
            }
        }
    }

    fn get_direction(&self) -> (r: DataDirection) {
        DataDirection::FromDevice
    }

    fn get_command(&self) -> (r: Vec<u8>) {
        let mut cdb: Vec<u8> = Vec::new();
        cdb.push(0xd8);
        cdb.push(0);
        push_be32(&mut cdb, self.handy_store_index);
        cdb.push(0);
        push_be16(&mut cdb, 1);
        cdb.push(0);
        proof {
            assert(cdb@ =~= self.spec_command());
        }
        cdb
    }

    fn get_data(&self) -> (r: Vec<u8>) {
        let mut data: Vec<u8> = Vec::new();
        push_zeros(&mut data, 512);
        proof {
            assert(data@ =~= self.spec_data());
        }
        data
    }

    fn get_sense_buffer(&self) -> (r: Vec<u8>) {
        crate::sense::bytes_sense_buffer_value()
    }

    fn get_data_size(&self) -> (r: u32) {
        512
    }

    fn process_result(&self, result: &ResultData) -> (r: Self::ReturnType) {
        if let Err(e) = result.check_ioctl_error() {
            return Err(Error::ScsiError(e));
        }
        if let Err(e) = result.check_common_error() {
            return Err(Error::ScsiError(e));
        }
        Ok(copy_bytes(result.data.as_slice()))
    }
}

} // verus!
