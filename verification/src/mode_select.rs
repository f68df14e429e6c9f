//! The Mode Select(10) command (opcode 0x55): writes one mode page back,
//! with the page-format and saved-pages bits set.
use vstd::prelude::*;
use crate::codec::{copy_bytes, push_be16, spec_be16};
use crate::command::Command;
use crate::data_direction::DataDirection;
use crate::error::Error;
use crate::result_data::ResultData;

verus! {

pub const MODE_SELECT_OPERATION_CODE: u8 = 0x55;

/// The 10-byte Mode Select(10) command descriptor block: opcode, the
/// page-format and saved-pages bits, big-endian parameter list length,
/// control byte.
pub open spec fn spec_mode_select_cdb(parameter_list_length: u16) -> Seq<u8> {
    seq![0x55u8, 0x11u8, 0u8, 0u8, 0u8, 0u8, 0u8] + spec_be16(parameter_list_length) + seq![0u8]
}

/// A Mode Select(10) command carrying one page as its parameter list.
pub struct ModeSelect {
    pub data: Vec<u8>,
    pub parameter_list_length: u16,
}

impl ModeSelect {
    /// Wraps a parameter list; one longer than a 16-bit length can carry
    /// is rejected.
    pub fn new(data: Vec<u8>) -> (r: Option<ModeSelect>)
        ensures
            r is Some <==> data@.len() <= 0xFFFF,
            r is Some ==> r.unwrap().data@ == data@ && r.unwrap().parameter_list_length
                == data@.len(),
    {
        if data.len() <= 0xFFFF {
            let parameter_list_length = data.len() as u16;
            Some(ModeSelect { data, parameter_list_length })
        } else {
            Option::None
        }
    }
}

impl Command for ModeSelect {
    type ReturnType = crate::error::Result<()>;

    open spec fn spec_direction(&self) -> DataDirection {
        DataDirection::ToDevice
    }

    open spec fn spec_command(&self) -> Seq<u8> {
        spec_mode_select_cdb(self.parameter_list_length)
    }

    open spec fn spec_data(&self) -> Seq<u8> {
        self.data@
    }

    open spec fn spec_data_size(&self) -> u32 {
        self.parameter_list_length as u32
    }

    open spec fn spec_sense_size(&self) -> nat {
        255
    }

    open spec fn result_spec(&self, result: &ResultData, r: Self::ReturnType) -> bool {
        if result.ioctl_result != 0 {
            r == Err::<(), Error>(Error::IO(result.os_error))
        } else {
            match r {
                Ok(()) => result.spec_nominal(),
                Err(e) => result.spec_status_failure(e),
            }
        }
    }

    fn get_direction(&self) -> (r: DataDirection) {
        DataDirection::ToDevice
    }

    fn get_command(&self) -> (r: Vec<u8>) {
        let mut cdb: Vec<u8> = Vec::new();
        cdb.push(0x55);
        cdb.push(0x11);
        cdb.push(0);
        cdb.push(0);
        cdb.push(0);
        cdb.push(0);
        cdb.push(0);
        push_be16(&mut cdb, self.parameter_list_length);
        cdb.push(0);
        proof {
            assert(cdb@ =~= self.spec_command());
        }
        cdb
    }

    fn get_data(&self) -> (r: Vec<u8>) {
        copy_bytes(self.data.as_slice())
    }

    fn get_sense_buffer(&self) -> (r: Vec<u8>) {
        crate::sense::bytes_sense_buffer_value()
    }

    fn get_data_size(&self) -> (r: u32) {
        self.parameter_list_length as u32
    }

    fn process_result(&self, result: &ResultData) -> (r: Self::ReturnType) {
        if let Err(e) = result.check_ioctl_error() {
            return Err(e);
        }
        if let Err(e) = result.check_common_error() {
            return Err(e);
        }
        Ok(())
    }
}

} // verus!
