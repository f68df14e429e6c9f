//! The vendor handy-store write command: persists one 512-byte block of
//! the drive's vendor storage.
use vstd::prelude::*;
use crate::codec::{copy_bytes, push_be16, push_be32, spec_be16, spec_be32};
use crate::command::Command;
use crate::data_direction::DataDirection;
use crate::result::Error;
use crate::result_data::ResultData;

verus! {

pub const WRITE_HANDY_STORE_OPERATION_CODE: u8 = 0xda;

/// The 10-byte handy-store write command descriptor block: opcode, a
/// reserved byte, the big-endian block address, a reserved byte, the
/// big-endian transfer length of one block, control byte.
pub open spec fn spec_write_handy_store_cdb(handy_store_block_address: u32) -> Seq<u8> {
    seq![0xdau8, 0u8] + spec_be32(handy_store_block_address) + seq![0u8] + spec_be16(1) + seq![0u8]
}

/// The vendor handy-store write command for one block.
pub struct WriteHandyStore {
    pub handy_store_index: u32,
    pub data: Vec<u8>,
}

impl WriteHandyStore {
    /// Wraps one block to write; anything but exactly one block's worth
    /// of bytes is rejected.
    pub fn new(handy_store_index: u32, data: Vec<u8>) -> (r: Option<WriteHandyStore>)
        ensures
            r is Some <==> data@.len() == 512,
            r is Some ==> r.unwrap().handy_store_index == handy_store_index
                && r.unwrap().data@ == data@,
    {
        if data.len() == 512 {
            Some(WriteHandyStore { handy_store_index, data })
        } else {
            Option::None
        }
    }
}

impl Command for WriteHandyStore {
    type ReturnType = crate::result::Result<()>;

    open spec fn spec_direction(&self) -> DataDirection {
        DataDirection::ToDevice
    }

    open spec fn spec_command(&self) -> Seq<u8> {
        spec_write_handy_store_cdb(self.handy_store_index)
    }

    open spec fn spec_data(&self) -> Seq<u8> {
        self.data@
    }

    open spec fn spec_data_size(&self) -> u32 {
        512
    }

    open spec fn spec_sense_size(&self) -> nat {
        255
    }

    open spec fn result_spec(&self, result: &ResultData, r: Self::ReturnType) -> bool {
        if result.ioctl_result != 0 {
            match r {
                Err(Error::ScsiError(crate::error::Error::IO(code))) => code == result.os_error,
                _ => false,
            }
        } else {
            match r {
                Ok(()) => result.spec_nominal(),
                Err(Error::ScsiError(e)) => result.spec_status_failure(e),
                Err(_) => false,
            }
        }
    }

    fn get_direction(&self) -> (r: DataDirection) {
        DataDirection::ToDevice
    }

    fn get_command(&self) -> (r: Vec<u8>) {
        let mut cdb: Vec<u8> = Vec::new();
        cdb.push(0xda);
        cdb.push(0);
        push_be32(&mut cdb, self.handy_store_index);
        cdb.push(0);
        push_be16(&mut cdb, 1);
        cdb.push(0);
        proof {
            assert(cdb@ =~= self.spec_command());
        }
        cdb
    }

    fn get_data(&self) -> (r: Vec<u8>) {
        copy_bytes(self.data.as_slice())
    }

    fn get_sense_buffer(&self) -> (r: Vec<u8>) {
        crate::sense::bytes_sense_buffer_value()
    }

    fn get_data_size(&self) -> (r: u32) {
        512
    }

    fn process_result(&self, result: &ResultData) -> (r: Self::ReturnType) {
        if let Err(e) = result.check_ioctl_error() {
            return Err(Error::ScsiError(e));
        }
        if let Err(e) = result.check_common_error() {
            return Err(Error::ScsiError(e));
        }
        Ok(())
    }
}

} // verus!
