//! The vendor handy-store capacity query and its 12-byte reply.
use vstd::prelude::*;
use crate::codec::{push_zeros, spec_read_be16, spec_read_be32, spec_zeros};
use crate::command::Command;
use crate::data_direction::DataDirection;
use crate::result::Error;
use crate::result_data::ResultData;

verus! {

pub const READ_HANDY_CAPACITY_OPERATION_CODE: u8 = 0xd5;

/// The handy store's extent: last block address, block length in bytes,
/// and the largest transfer the device takes in one command.
#[derive(Clone, Copy, Debug, PartialEq, Eq, Structural)]
pub struct HandyCapacity {
    pub last_handy_block_address: u32,
    pub block_length: u32,
    pub maximum_transfer_length: u16,
}

/// The 10-byte handy-capacity command descriptor block: opcode, eight
/// reserved bytes, control byte.
pub open spec fn spec_read_handy_capacity_cdb() -> Seq<u8> {
    seq![0xd5u8] + spec_zeros(9)
}

/// `h` is exactly what the reply bytes say: last block address big-endian
/// at 0, block length big-endian at 4, maximum transfer length big-endian
/// at 10.
pub open spec fn spec_handy_capacity_of(data: Seq<u8>, h: HandyCapacity) -> bool {
    &&& data.len() >= 12
    &&& h.last_handy_block_address == spec_read_be32(data, 0)
    &&& h.block_length == spec_read_be32(data, 4)
    &&& h.maximum_transfer_length == spec_read_be16(data, 10)
}

/// The vendor handy-store capacity query.
pub struct ReadHandyCapacity {
}

impl ReadHandyCapacity {
    pub fn new() -> (r: ReadHandyCapacity) {
        ReadHandyCapacity {  }
    }
}

impl Command for ReadHandyCapacity {
    type ReturnType = crate::result::Result<HandyCapacity>;

    open spec fn spec_direction(&self) -> DataDirection {
        DataDirection::FromDevice
    }

    open spec fn spec_command(&self) -> Seq<u8> {
        spec_read_handy_capacity_cdb()
    }

    open spec fn spec_data(&self) -> Seq<u8> {
        spec_zeros(12)
    }

    open spec fn spec_data_size(&self) -> u32 {
        12
    }

    open spec fn spec_sense_size(&self) -> nat {
        255
    }

    open spec fn result_spec(&self, result: &ResultData, r: Self::ReturnType) -> bool {
        if result.ioctl_result != 0 {
            match r {
                Err(Error::ScsiError(crate::error::Error::IO(code))) => code == result.os_error,
                _ => false,
            }
        } else {
            match r {
                Ok(h) => result.spec_nominal() && spec_handy_capacity_of(result.data@, h),
                Err(Error::Other(_)) => result.spec_nominal() && result.data@.len() < 12,
                Err(Error::ScsiError(e)) => result.spec_status_failure(e),
                Err(_) => false,
            }
        }
    }

    fn get_direction(&self) -> (r: DataDirection) {
        DataDirection::FromDevice
    }

    fn get_command(&self) -> (r: Vec<u8>) {
        let mut cdb: Vec<u8> = Vec::new();
        cdb.push(0xd5);
        push_zeros(&mut cdb, 9);
        proof {
            assert(cdb@ =~= self.spec_command());
        }
        cdb
    }

    fn get_data(&self) -> (r: Vec<u8>) {
        let mut data: Vec<u8> = Vec::new();
        push_zeros(&mut data, 12);
        proof {
            assert(data@ =~= self.spec_data());
        }
        data
    }

    fn get_sense_buffer(&self) -> (r: Vec<u8>) {
        crate::sense::bytes_sense_buffer_value()
    }

    fn get_data_size(&self) -> (r: u32) {
        12
    }

    fn process_result(&self, result: &ResultData) -> (r: Self::ReturnType) {
        if let Err(e) = result.check_ioctl_error() {
            return Err(Error::ScsiError(e));
        }
        if let Err(e) = result.check_common_error() {
            return Err(Error::ScsiError(e));
        }
        if result.data.len() < 12 {
            return Err(Error::Other("short handy capacity data".to_owned()));
        }
        let last_handy_block_address = crate::codec::read_be32(result.data.as_slice(), 0);
        let block_length = crate::codec::read_be32(result.data.as_slice(), 4);
        let maximum_transfer_length = crate::codec::read_be16(result.data.as_slice(), 10);
        Ok(HandyCapacity { last_handy_block_address, block_length, maximum_transfer_length })
    }
}

} // verus!
