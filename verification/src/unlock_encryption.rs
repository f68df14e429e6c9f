//! The vendor unlock command: sends a password blob and intercepts the
//! sense combinations that name a precise cause before falling back to
//! the generic status classification.
use vstd::prelude::*;
use crate::codec::{push_be16, push_padded, push_zeros, spec_be16, spec_padded, spec_zeros};
use crate::command::Command;
use crate::data_direction::DataDirection;
use crate::result::Error;
use crate::result_data::ResultData;
use crate::sense::{
    spec_additional_sense_code, spec_additional_sense_code_qualifier, spec_sense_key,
};

verus! {

pub const UNLOCK_ENCRYPTION_OPERATION_CODE: u8 = 0xc1;

pub const UNLOCK_ENCRYPTION_OPERATION_SUBCODE: u8 = 0xe1;

/// Largest password blob the payload can carry.
pub const MAX_PASSWORD_LENGTH: usize = 32;

/// Payload bytes before the password area.
pub const DATA_SIZE_WITHOUT_PASSWORD: usize = 8;

/// The 10-byte unlock command descriptor block: opcode, subcode,
/// big-endian parameter list length, control byte.
pub open spec fn spec_unlock_cdb(parameter_list_length: u16) -> Seq<u8> {
    seq![0xc1u8, 0xe1u8, 0u8, 0u8, 0u8, 0u8, 0u8] + spec_be16(parameter_list_length) + seq![0u8]
}

/// The 40-byte unlock payload: protocol signature, five reserved bytes,
/// big-endian password length, then the password zero-padded to its
/// 32-byte area.
pub open spec fn spec_unlock_data(password: Seq<u8>, password_length: u16) -> Seq<u8> {
    seq![0x45u8] + spec_zeros(5) + spec_be16(password_length) + spec_padded(password, 32)
}

/// Whether a check condition on unlock names one of the precise causes
/// this command intercepts.
pub open spec fn spec_unlock_sense_intercepted(result: &ResultData) -> bool {
    let s = result.sense_buffer@;
    &&& result.masked_status == 0x01
    &&& spec_sense_key(s) == 0x05
    &&& {
        ||| (spec_additional_sense_code(s) == 0x74 && (spec_additional_sense_code_qualifier(s)
            == 0x81 || spec_additional_sense_code_qualifier(s) == 0x80
            || spec_additional_sense_code_qualifier(s) == 0x40))
        ||| ((spec_additional_sense_code(s) == 0x24 || spec_additional_sense_code(s) == 0x26)
            && spec_additional_sense_code_qualifier(s) == 0x00)
    }
}

/// The precise error an intercepted sense combination maps to: qualifier
/// 0x81 of code 0x74 means the device is already unlocked, 0x80 that the
/// unlock attempts are exhausted, 0x40 that the password is incorrect;
/// codes 0x24 and 0x26 with qualifier zero mean a wrong-size blob.
pub open spec fn spec_unlock_intercepted_error(result: &ResultData, e: &Error) -> bool {
    let s = result.sense_buffer@;
    match e {
        Error::NotLocked(m) => spec_additional_sense_code(s) == 0x74
            && spec_additional_sense_code_qualifier(s) == 0x81 && m@
            == "Device is unlocked already."@,
        Error::ExceedUnlockAttempts => spec_additional_sense_code(s) == 0x74
            && spec_additional_sense_code_qualifier(s) == 0x80,
        Error::PasswordIncorrect => spec_additional_sense_code(s) == 0x74
            && spec_additional_sense_code_qualifier(s) == 0x40,
        Error::PasswordBlobSizeIncorrect => (spec_additional_sense_code(s) == 0x24
            || spec_additional_sense_code(s) == 0x26) && spec_additional_sense_code_qualifier(s)
            == 0x00,
        _ => false,
    }
}

/// The vendor unlock command carrying one password blob.
pub struct UnlockEncryption {
    pub password: Vec<u8>,
    pub password_length: u16,
}

impl UnlockEncryption {
    /// Wraps a password blob; one longer than the payload's password area
    /// is rejected as a wrong-size blob.
    pub fn new(password: Vec<u8>) -> (r: crate::result::Result<UnlockEncryption>)
        ensures
            r is Ok <==> password@.len() <= 32,
            match r {
                Ok(c) => c.password@ == password@ && c.password_length == password@.len(),
                Err(e) => e is PasswordBlobSizeIncorrect,
            },
    {
        if password.len() > 32 {
            return Err(Error::PasswordBlobSizeIncorrect);
        }
        let password_length = password.len() as u16;
        Ok(UnlockEncryption { password, password_length })
    }
}

impl Command for UnlockEncryption {
    type ReturnType = crate::result::Result<()>;

    open spec fn spec_direction(&self) -> DataDirection {
        DataDirection::ToDevice
    }

    open spec fn spec_command(&self) -> Seq<u8> {
        spec_unlock_cdb(((8 + self.password_length) % 0x10000) as u16)
    }

    open spec fn spec_data(&self) -> Seq<u8> {
        spec_unlock_data(self.password@, self.password_length)
    }

    open spec fn spec_data_size(&self) -> u32 {
        (8 + self.password_length) as u32
    }

    open spec fn spec_sense_size(&self) -> nat {
        34
    }

    open spec fn result_spec(&self, result: &ResultData, r: Self::ReturnType) -> bool {
        if result.ioctl_result != 0 {
            match r {
                Err(Error::ScsiError(crate::error::Error::IO(code))) => code == result.os_error,
                _ => false,
            }
        } else if spec_unlock_sense_intercepted(result) {
            match r {
                Err(e) => spec_unlock_intercepted_error(result, &e),
                _ => false,
            }
        } else {
            match r {
                Ok(()) => result.spec_nominal(),
                Err(Error::ScsiError(e)) => result.spec_status_failure(e),
                Err(_) => false,
            }
        }
    }

    fn get_direction(&self) -> (r: DataDirection) {
        DataDirection::ToDevice
    }

    fn get_command(&self) -> (r: Vec<u8>) {
        let mut cdb: Vec<u8> = Vec::new();
        cdb.push(0xc1);
        cdb.push(0xe1);
        push_zeros(&mut cdb, 5);
        let parameter_list_length = ((8u32 + self.password_length as u32) % 0x10000) as u16;
        push_be16(&mut cdb, parameter_list_length);
        cdb.push(0);
        proof {
            assert(cdb@ =~= self.spec_command());
        }
        cdb
    }

    fn get_data(&self) -> (r: Vec<u8>) {
        let mut data: Vec<u8> = Vec::new();
        data.push(0x45);
        push_zeros(&mut data, 5);
        push_be16(&mut data, self.password_length);
        push_padded(&mut data, self.password.as_slice(), 32);
        proof {
            assert(data@ =~= self.spec_data());
        }
        data
    }

    fn get_sense_buffer(&self) -> (r: Vec<u8>) {
        let s = crate::sense::fixed_sense_buffer_value();
        s.bytes
    }

    fn get_data_size(&self) -> (r: u32) {
        8u32 + self.password_length as u32
    }

    fn process_result(&self, result: &ResultData) -> (r: Self::ReturnType) {
        if let Err(e) = result.check_ioctl_error() {
            return Err(Error::ScsiError(e));
        }
        if result.masked_status == 0x01 {
            let sense = result.sense_buffer.as_slice();
            let key = crate::sense::sense_key_of(sense);
            let code = crate::sense::additional_sense_code_of(sense);
            let qualifier = crate::sense::additional_sense_code_qualifier_of(sense);
            if key == 0x05 {
                if code == 0x74 {
                    if qualifier == 0x81 {
                        return Err(Error::NotLocked("Device is unlocked already.".to_owned()));
                    } else if qualifier == 0x80 {
                        return Err(Error::ExceedUnlockAttempts);
                    } else if qualifier == 0x40 {
                        return Err(Error::PasswordIncorrect);
                    }
                } else if (code == 0x24 || code == 0x26) && qualifier == 0x00 {
                    return Err(Error::PasswordBlobSizeIncorrect);
                }
            }
        }
        if let Err(e) = result.check_common_error() {
            return Err(Error::ScsiError(e));
        }
        Ok(())
    }
}

} // verus!
