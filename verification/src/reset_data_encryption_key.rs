//! The vendor key-reset command: authorizes with a key-reset enabler and
//! hands the device fresh random key material sized to the cipher.
use vstd::prelude::*;
use rand::Rng;
use crate::cipher::Cipher;
use crate::codec::{push_be16, push_be32, push_padded, push_zeros, spec_be16, spec_be32, spec_padded, spec_zeros};
use crate::command::Command;
use crate::data_direction::DataDirection;
use crate::result::Error;
use crate::result_data::ResultData;

verus! {

pub const RESET_DATA_ENCRYPTION_KEY_OPERATION_CODE: u8 = 0xc1;

pub const RESET_DATA_ENCRYPTION_KEY_OPERATION_SUBCODE: u8 = 0xe3;

/// Relies on `rand::Rng::fill` on a byte slice from `rand::thread_rng`:
/// fills the buffer with random data, so only the length is promised;
/// nothing holds of the values.
#[verifier::external_body]
fn fill_random(len: usize) -> (r: Vec<u8>)
    ensures
        r@.len() == len,
{
    let mut key = vec![0u8; len];
    rand::thread_rng().fill(&mut key[..]);
    key
}

/// Length of the key material for a cipher: full-disc encryption and
/// no-encryption take none, the rest take their password blob size.
pub open spec fn spec_reset_key_length(cipher: Cipher) -> Option<usize> {
    match cipher {
        Cipher::FullDiscEncryption => Some(0usize),
        Cipher::NoEncryption => Some(0usize),
        _ => cipher.spec_password_blob_size(),
    }
}

/// The 10-byte key-reset command descriptor block: opcode, subcode,
/// big-endian key-reset enabler, big-endian parameter list length,
/// control byte.
pub open spec fn spec_reset_key_cdb(key_reset_enabler: u32, parameter_list_length: u16) -> Seq<
    u8,
> {
    seq![0xc1u8, 0xe3u8] + spec_be32(key_reset_enabler) + seq![0u8] + spec_be16(
        parameter_list_length,
    ) + seq![0u8]
}

/// The 40-byte key-reset payload: protocol signature, two reserved bytes,
/// the combine flag (zero: the key is not XORed with the internal key),
/// the cipher code, a reserved byte, the big-endian key length in bits,
/// then the key zero-padded to its 32-byte area.
pub open spec fn spec_reset_key_data(cipher_id: u8, key: Seq<u8>, key_length: u16) -> Seq<u8> {
    seq![0x45u8] + spec_zeros(2) + seq![0u8, cipher_id, 0u8] + spec_be16(
        ((key_length * 8) % 0x10000) as u16,
    ) + spec_padded(key, 32)
}

/// The vendor key-reset command; built with fresh random key material.
pub struct ResetDataEncryptionKey {
    pub cipher_id: u8,
    pub key: Vec<u8>,
    pub key_length: u16,
    pub key_reset_enabler: u32,
}

impl ResetDataEncryptionKey {
    /// Draws fresh random key material sized to the cipher; a cipher
    /// without a key length is unsupported.
    pub fn new(cipher: Cipher, key_reset_enabler: u32) -> (r: crate::result::Result<
        ResetDataEncryptionKey,
    >)
        ensures
            r is Ok <==> spec_reset_key_length(cipher) is Some,
            match r {
                Ok(c) => {
                    &&& c.cipher_id == cipher.spec_code()
                    &&& c.key_reset_enabler == key_reset_enabler
                    &&& spec_reset_key_length(cipher) == Some(c.key_length as usize)
                    &&& c.key@.len() == c.key_length
                },
                Err(e) => e is UnsupportedCipher,
            },
    {
        let key_length_usize: usize = match cipher {
            Cipher::FullDiscEncryption => 0,
            Cipher::NoEncryption => 0,
            _ => match cipher.get_password_blob_size() {
                Ok(n) => n,
                Err(e) => {
                    return Err(e);
                },
            },
        };
        let key = fill_random(key_length_usize);
        let key_length = key_length_usize as u16;
        Ok(ResetDataEncryptionKey { cipher_id: cipher.code(), key, key_length, key_reset_enabler })
    }
}

impl Command for ResetDataEncryptionKey {
    type ReturnType = crate::result::Result<()>;

    open spec fn spec_direction(&self) -> DataDirection {
        DataDirection::ToDevice
    }

    open spec fn spec_command(&self) -> Seq<u8> {
        spec_reset_key_cdb(self.key_reset_enabler, ((8 + self.key_length) % 0x10000) as u16)
    }

    open spec fn spec_data(&self) -> Seq<u8> {
        spec_reset_key_data(self.cipher_id, self.key@, self.key_length)
    }

    open spec fn spec_data_size(&self) -> u32 {
        (8 + self.key_length) as u32
    }

    open spec fn spec_sense_size(&self) -> nat {
        255
    }

    open spec fn result_spec(&self, result: &ResultData, r: Self::ReturnType) -> bool {
        if result.ioctl_result != 0 {
            match r {
                Err(Error::ScsiError(crate::error::Error::IO(code))) => code == result.os_error,
                _ => false,
            }
        } else {
            match r {
                Ok(()) => result.spec_nominal(),
                Err(Error::ScsiError(e)) => result.spec_status_failure(e),
                Err(_) => false,
            }
        }
    }

    fn get_direction(&self) -> (r: DataDirection) {
        DataDirection::ToDevice
    }

    fn get_command(&self) -> (r: Vec<u8>) {
        let mut cdb: Vec<u8> = Vec::new();
        cdb.push(0xc1);
        cdb.push(0xe3);
        push_be32(&mut cdb, self.key_reset_enabler);
        cdb.push(0);
        let parameter_list_length = ((8u32 + self.key_length as u32) % 0x10000) as u16;
        push_be16(&mut cdb, parameter_list_length);
        cdb.push(0);
        proof {
            assert(cdb@ =~= self.spec_command());
        }
        cdb
    }

    fn get_data(&self) -> (r: Vec<u8>) {
        let mut data: Vec<u8> = Vec::new();
        data.push(0x45);
        push_zeros(&mut data, 2);
        data.push(0);
        data.push(self.cipher_id);
        data.push(0);
        let bits = ((self.key_length as u32 * 8) % 0x10000) as u16;
        push_be16(&mut data, bits);
        push_padded(&mut data, self.key.as_slice(), 32);
        proof {
            assert(data@ =~= self.spec_data());
        }
        data
    }

    fn get_sense_buffer(&self) -> (r: Vec<u8>) {
        crate::sense::bytes_sense_buffer_value()
    }

    fn get_data_size(&self) -> (r: u32) {
        8u32 + self.key_length as u32
    }

    fn process_result(&self, result: &ResultData) -> (r: Self::ReturnType) {
        if let Err(e) = result.check_ioctl_error() {
            return Err(Error::ScsiError(e));
        }
        if let Err(e) = result.check_common_error() {
            return Err(Error::ScsiError(e));
        }
        Ok(())
    }
}

} // verus!
