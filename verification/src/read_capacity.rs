//! The Read Capacity(16) command (opcode 0x9E, service action 0x10) and
//! its 32-byte parameter data.
use vstd::prelude::*;
use crate::codec::{push_zeros, spec_read_be32, spec_read_be64, spec_zeros};
use crate::command::Command;
use crate::data_direction::DataDirection;
use crate::error::Error;
use crate::result_data::ResultData;

verus! {

pub const READ_CAPACITY_OPERATION_CODE: u8 = 0x9e;

pub const READ_CAPACITY_16_SERVICE_ACTION: u8 = 0x10;

/// The capacity a device reports: the count of logical blocks and the
/// length of one block in bytes.
#[derive(Clone, Copy, Debug, PartialEq, Eq, Structural)]
pub struct Capacity {
    pub logical_block_count: u64,
    pub logical_block_length_in_bytes: u32,
}

/// The 16-byte Read Capacity(16) command descriptor block: opcode,
/// service action in the low 5 bits of byte 1, an obsolete 64-bit logical
/// block address of zero, big-endian 32-bit allocation length of 32, and
/// two trailing zero bytes.
pub open spec fn spec_read_capacity16_cdb() -> Seq<u8> {
    seq![
        0x9eu8,
        0x10u8,
        0u8,
        0u8,
        0u8,
        0u8,
        0u8,
        0u8,
        0u8,
        0u8,
        0u8,
        0u8,
        0u8,
        0x20u8,
        0u8,
        0u8,
    ]
}

/// A Read Capacity(16) command.
pub struct ReadCapacity16 {
}

impl ReadCapacity16 {
    pub fn new() -> (r: ReadCapacity16) {
        ReadCapacity16 {  }
    }
}

impl Command for ReadCapacity16 {
    type ReturnType = crate::error::Result<Capacity>;

    open spec fn spec_direction(&self) -> DataDirection {
        DataDirection::FromDevice
    }

    open spec fn spec_command(&self) -> Seq<u8> {
        spec_read_capacity16_cdb()
    }

    open spec fn spec_data(&self) -> Seq<u8> {
        spec_zeros(32)
    }

    open spec fn spec_data_size(&self) -> u32 {
        32
    }

    open spec fn spec_sense_size(&self) -> nat {
        255
    }

    open spec fn result_spec(&self, result: &ResultData, r: Self::ReturnType) -> bool {
        if result.ioctl_result != 0 {
            r == Err::<Capacity, Error>(Error::IO(result.os_error))
        } else {
            match r {
                Ok(c) => {
                    &&& result.spec_nominal()
                    &&& result.data@.len() >= 12
                    &&& spec_read_be64(result.data@, 0) < u64::MAX
                    &&& c.logical_block_count == spec_read_be64(result.data@, 0) + 1
                    &&& c.logical_block_length_in_bytes == spec_read_be32(result.data@, 8)
                },
                Err(Error::Other(_)) => result.spec_nominal() && !(result.data@.len() >= 12
                    && spec_read_be64(result.data@, 0) < u64::MAX),
                Err(e) => result.spec_status_failure(e),
            }
        }
    }

    fn get_direction(&self) -> (r: DataDirection) {
        DataDirection::FromDevice
    }

    fn get_command(&self) -> (r: Vec<u8>) {
        let mut cdb: Vec<u8> = Vec::new();
        cdb.push(0x9e);
        cdb.push(0x10);
        push_zeros(&mut cdb, 11);
        cdb.push(0x20);
        cdb.push(0);
        cdb.push(0);
        proof {
            assert(cdb@ =~= self.spec_command());
        }
        cdb
    }

    fn get_data(&self) -> (r: Vec<u8>) {
        let mut data: Vec<u8> = Vec::new();
        push_zeros(&mut data, 32);
        proof {
            assert(data@ =~= self.spec_data());
        }
        data
    }

    fn get_sense_buffer(&self) -> (r: Vec<u8>) {
        crate::sense::bytes_sense_buffer_value()
    }

    fn get_data_size(&self) -> (r: u32) {
        32
    }

    fn process_result(&self, result: &ResultData) -> (r: Self::ReturnType) {
        if let Err(e) = result.check_ioctl_error() {
            return Err(e);
        }
        if let Err(e) = result.check_common_error() {
            return Err(e);
        }
        if result.data.len() < 12 {
            return Err(Error::Other(String::from_str("short read capacity data")));
        }
        let address = crate::codec::read_be64(result.data.as_slice(), 0);
        if address == u64::MAX {
            return Err(Error::Other(String::from_str("invalid read capacity data")));
        }
        let length = crate::codec::read_be32(result.data.as_slice(), 8);
        Ok(
            Capacity {
                logical_block_count: address + 1,
                logical_block_length_in_bytes: length,
            },
        )
    }
}

} // verus!
