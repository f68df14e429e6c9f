//! The vendor change-passphrase command: old and new password blobs (a
//! missing one means the vendor's default password), with the sense
//! combinations that name a precise cause intercepted.
use vstd::prelude::*;
use crate::cipher::Cipher;
use crate::codec::{push_be16, push_padded, push_zeros, spec_be16, spec_padded, spec_zeros};
use crate::command::Command;
use crate::data_direction::DataDirection;
use crate::result::Error;
use crate::result_data::ResultData;
use crate::sense::{
    spec_additional_sense_code, spec_additional_sense_code_qualifier, spec_sense_key,
};

verus! {

pub const CHANGE_ENCRYPTION_PASSPHRASE_OPERATION_CODE: u8 = 0xc1;

pub const CHANGE_ENCRYPTION_PASSPHRASE_OPERATION_SUBCODE: u8 = 0xe2;

/// Flag asking the device to use its vendor default as the old password.
pub const USE_VENDOR_OLD_PASSWORD: u8 = 0x01;

/// Flag asking the device to use its vendor default as the new password.
pub const USE_VENDOR_NEW_PASSWORD: u8 = 0x10;

/// The 10-byte change-passphrase command descriptor block.
pub open spec fn spec_change_passphrase_cdb(parameter_list_length: u16) -> Seq<u8> {
    seq![0xc1u8, 0xe2u8, 0u8, 0u8, 0u8, 0u8, 0u8] + spec_be16(parameter_list_length) + seq![0u8]
}

/// The vendor-password flags byte: a missing new password asks for the
/// vendor default new password, else a missing old password asks for the
/// vendor default old password.
pub open spec fn spec_use_vendor_password(
    new_password: &Option<Vec<u8>>,
    old_password: &Option<Vec<u8>>,
) -> u8 {
    if new_password is None {
        0x10u8
    } else if old_password is None {
        0x01u8
    } else {
        0u8
    }
}

/// The 72-byte change-passphrase payload: protocol signature, two
/// reserved bytes, the vendor-password flags, two reserved bytes,
/// big-endian password length, then the old and new passwords each
/// zero-padded to `password_length` in a 64-byte area.
pub open spec fn spec_change_passphrase_data(
    new_password: &Option<Vec<u8>>,
    old_password: &Option<Vec<u8>>,
    password_length: u16,
) -> Seq<u8> {
    let pl = password_length as nat;
    let old_area = match old_password {
        Some(p) => spec_padded(p@, pl),
        Option::None => spec_zeros(pl),
    };
    let new_area = match new_password {
        Some(p) => spec_padded(p@, pl),
        Option::None => spec_zeros(pl),
    };
    let tail = if 2 * pl <= 64 {
        spec_zeros((64 - 2 * pl) as nat)
    } else {
        Seq::empty()
    };
    seq![0x45u8] + spec_zeros(2) + seq![spec_use_vendor_password(new_password, old_password)]
        + spec_zeros(2) + spec_be16(password_length) + old_area + new_area + tail
}

/// Whether a check condition on change-passphrase names one of the
/// precise causes this command intercepts.
pub open spec fn spec_change_passphrase_sense_intercepted(result: &ResultData) -> bool {
    let s = result.sense_buffer@;
    &&& result.masked_status == 0x01
    &&& spec_sense_key(s) == 0x05
    &&& {
        ||| (spec_additional_sense_code(s) == 0x74 && spec_additional_sense_code_qualifier(s)
            == 0x40)
        ||| ((spec_additional_sense_code(s) == 0x24 || spec_additional_sense_code(s) == 0x26)
            && spec_additional_sense_code_qualifier(s) == 0x00)
    }
}

/// The precise error an intercepted sense combination maps to: code 0x74
/// with qualifier 0x40 means the password is incorrect; codes 0x24 and
/// 0x26 with qualifier zero mean a wrong-size blob.
pub open spec fn spec_change_passphrase_intercepted_error(result: &ResultData, e: &Error) -> bool {
    let s = result.sense_buffer@;
    match e {
        Error::PasswordIncorrect => spec_additional_sense_code(s) == 0x74
            && spec_additional_sense_code_qualifier(s) == 0x40,
        Error::PasswordBlobSizeIncorrect => (spec_additional_sense_code(s) == 0x24
            || spec_additional_sense_code(s) == 0x26) && spec_additional_sense_code_qualifier(s)
            == 0x00,
        _ => false,
    }
}

/// The vendor change-passphrase command.
pub struct ChangeEncryptionPassphrase {
    pub new_password: Option<Vec<u8>>,
    pub old_password: Option<Vec<u8>>,
    pub password_length: u16,
}

impl ChangeEncryptionPassphrase {
    /// Validates the blobs against the cipher's required size: a present
    /// blob of any other size is a wrong-size blob, a cipher without a
    /// blob size is unsupported, and at least one password must be given.
    pub fn new(cipher: Cipher, new_password: Option<Vec<u8>>, old_password: Option<Vec<u8>>) -> (r:
        crate::result::Result<ChangeEncryptionPassphrase>)
        ensures
            match r {
                Ok(c) => {
                    &&& cipher.spec_password_blob_size() == Some(c.password_length as usize)
                    &&& c.new_password == new_password
                    &&& c.old_password == old_password
                    &&& (new_password is Some ==> new_password.unwrap()@.len()
                        == c.password_length)
                    &&& (old_password is Some ==> old_password.unwrap()@.len()
                        == c.password_length)
                    &&& !(new_password is None && old_password is None)
                },
                Err(Error::UnsupportedCipher) => cipher.spec_password_blob_size() is None,
                Err(Error::PasswordBlobSizeIncorrect) => {
                    &&& cipher.spec_password_blob_size() is Some
                    &&& {
                        ||| (new_password is Some && new_password.unwrap()@.len()
                            != cipher.spec_password_blob_size().unwrap())
                        ||| (old_password is Some && old_password.unwrap()@.len()
                            != cipher.spec_password_blob_size().unwrap())
                    }
                },
                Err(Error::Other(_)) => cipher.spec_password_blob_size() is Some && new_password
                    is None && old_password is None,
                Err(_) => false,
            },
            r is Ok <==> cipher.spec_password_blob_size() is Some && !(new_password is None
                && old_password is None) && (new_password is Some ==> new_password.unwrap()@.len()
                == cipher.spec_password_blob_size().unwrap()) && (old_password is Some
                ==> old_password.unwrap()@.len() == cipher.spec_password_blob_size().unwrap()),
    {
        let password_length_usize = match cipher.get_password_blob_size() {
            Ok(n) => n,
            Err(e) => {
                return Err(e);
            },
        };
        if let Some(p) = &new_password {
            if p.len() != password_length_usize {
                return Err(Error::PasswordBlobSizeIncorrect);
            }
        }
        if let Some(p) = &old_password {
            if p.len() != password_length_usize {
                return Err(Error::PasswordBlobSizeIncorrect);
            }
        }
        if new_password.is_none() && old_password.is_none() {
            return Err(Error::Other("Both passwords are empty".to_owned()));
        }
        let password_length = password_length_usize as u16;
        Ok(ChangeEncryptionPassphrase { new_password, old_password, password_length })
    }
}

impl Command for ChangeEncryptionPassphrase {
    type ReturnType = crate::result::Result<()>;

    open spec fn spec_direction(&self) -> DataDirection {
        DataDirection::ToDevice
    }

    open spec fn spec_command(&self) -> Seq<u8> {
        spec_change_passphrase_cdb(((8 + 2 * self.password_length) % 0x10000) as u16)
    }

    open spec fn spec_data(&self) -> Seq<u8> {
        spec_change_passphrase_data(&self.new_password, &self.old_password, self.password_length)
    }

    open spec fn spec_data_size(&self) -> u32 {
        (8 + 2 * self.password_length) as u32
    }

    open spec fn spec_sense_size(&self) -> nat {
        34
    }

    open spec fn result_spec(&self, result: &ResultData, r: Self::ReturnType) -> bool {
        if result.ioctl_result != 0 {
            match r {
                Err(Error::ScsiError(crate::error::Error::IO(code))) => code == result.os_error,
                _ => false,
            }
        } else if spec_change_passphrase_sense_intercepted(result) {
            match r {
                Err(e) => spec_change_passphrase_intercepted_error(result, &e),
                _ => false,
            }
        } else {
            match r {
                Ok(()) => result.spec_nominal(),
                Err(Error::ScsiError(e)) => result.spec_status_failure(e),
                Err(_) => false,
            }
        }
    }

    fn get_direction(&self) -> (r: DataDirection) {
        DataDirection::ToDevice
    }

    fn get_command(&self) -> (r: Vec<u8>) {
        let mut cdb: Vec<u8> = Vec::new();
        cdb.push(0xc1);
        cdb.push(0xe2);
        push_zeros(&mut cdb, 5);
        let parameter_list_length = ((8u32 + 2 * (self.password_length as u32)) % 0x10000) as u16;
        push_be16(&mut cdb, parameter_list_length);
        cdb.push(0);
        proof {
            assert(cdb@ =~= self.spec_command());
        }
        cdb
    }

    fn get_data(&self) -> (r: Vec<u8>) {
        let pl = self.password_length as usize;
        let mut data: Vec<u8> = Vec::new();
        data.push(0x45);
        push_zeros(&mut data, 2);
        data.push(
            if self.new_password.is_none() {
                0x10
            } else if self.old_password.is_none() {
                0x01
            } else {
                0
            },
        );
        push_zeros(&mut data, 2);
        push_be16(&mut data, self.password_length);
        match &self.old_password {
            Some(p) => push_padded(&mut data, p.as_slice(), pl),
            Option::None => push_zeros(&mut data, pl),
        }
        match &self.new_password {
            Some(p) => push_padded(&mut data, p.as_slice(), pl),
            Option::None => push_zeros(&mut data, pl),
        }
        if 2 * pl <= 64 {
            push_zeros(&mut data, 64 - 2 * pl);
        }
        proof {
            assert(data@ =~= self.spec_data());
        }
        data
    }

    fn get_sense_buffer(&self) -> (r: Vec<u8>) {
        let s = crate::sense::fixed_sense_buffer_value();
        s.bytes
    }

    fn get_data_size(&self) -> (r: u32) {
        8 + 2 * (self.password_length as u32)
    }

    fn process_result(&self, result: &ResultData) -> (r: Self::ReturnType) {
        if let Err(e) = result.check_ioctl_error() {
            return Err(Error::ScsiError(e));
        }
        if result.masked_status == 0x01 {
            let sense = result.sense_buffer.as_slice();
            let key = crate::sense::sense_key_of(sense);
            let code = crate::sense::additional_sense_code_of(sense);
            let qualifier = crate::sense::additional_sense_code_qualifier_of(sense);
            if key == 0x05 {
                if code == 0x74 {
                    if qualifier == 0x40 {
                        return Err(Error::PasswordIncorrect);
                    }
                } else if (code == 0x24 || code == 0x26) && qualifier == 0x00 {
                    return Err(Error::PasswordBlobSizeIncorrect);
                }
            }
        }
        if let Err(e) = result.check_common_error() {
            return Err(Error::ScsiError(e));
        }
        Ok(())
    }
}

} // verus!
