//! The vendor encryption-status query and its reply: security state,
//! current cipher, password blob length, key-reset enabler, and the list
//! of supported ciphers.
use vstd::prelude::*;
use crate::cipher::Cipher;
use crate::codec::{push_be16, push_zeros, spec_be16, spec_read_be16, spec_read_be32, spec_zeros};
use crate::command::Command;
use crate::data_direction::DataDirection;
use crate::result::Error;
use crate::result_data::ResultData;
use crate::security_status::SecurityStatus;

verus! {

pub const ENCRYPTION_STATUS_OPERATION_CODE: u8 = 0xc0;

pub const ENCRYPTION_STATUS_OPERATION_SUBCODE: u8 = 0x45;

/// Total size of the reply: a 16-byte fixed part, then the cipher list.
pub const ENCRYPTION_STATUS_DATA_SIZE: usize = 0x30;

/// Capacity of the cipher list in the reply.
pub const CIPHER_LIST_SIZE: usize = 32;

/// The device's encryption status; always freshly queried, never cached
/// across state-changing calls.
#[derive(Debug)]
pub struct EncryptionStatus {
    pub security_status: SecurityStatus,
    pub current_cipher: Cipher,
    pub blob_password_length: u16,
    pub key_reset_enabler: u32,
    pub supported_ciphers: Vec<Cipher>,
}

/// The 10-byte encryption-status command descriptor block: opcode,
/// subcode, big-endian allocation length, control byte.
pub open spec fn spec_encryption_status_cdb() -> Seq<u8> {
    seq![0xc0u8, 0x45u8, 0u8, 0u8, 0u8, 0u8, 0u8] + spec_be16(0x30) + seq![0u8]
}

/// How many ciphers of the reply are read: the advertised count, clamped
/// to the list's actual capacity (never read out of bounds).
pub open spec fn spec_cipher_count(data: Seq<u8>) -> int {
    if data[15] > 32 {
        32
    } else {
        data[15] as int
    }
}

/// The supported ciphers listed in the reply.
pub open spec fn spec_supported_ciphers(data: Seq<u8>) -> Seq<Cipher> {
    Seq::new(spec_cipher_count(data) as nat, |i: int| Cipher::spec_from_code(data[16 + i]))
}

/// The reply has the expected size, carries the protocol signature, and
/// names a known security status.
pub open spec fn spec_encryption_status_reply_ok(data: Seq<u8>) -> bool {
    &&& data.len() >= 48
    &&& data[0] == 0x45
    &&& SecurityStatus::spec_from_code(data[3]) is Some
}

/// `es` is exactly what the reply bytes say: status from byte 3, cipher
/// from byte 4, password blob length big-endian at 6, key-reset enabler
/// big-endian at 8, cipher count at 15 clamped to capacity, ciphers from
/// byte 16 on.
pub open spec fn spec_encryption_status_of(data: Seq<u8>, es: &EncryptionStatus) -> bool {
    &&& spec_encryption_status_reply_ok(data)
    &&& SecurityStatus::spec_from_code(data[3]) == Some(es.security_status)
    &&& es.current_cipher == Cipher::spec_from_code(data[4])
    &&& es.blob_password_length == spec_read_be16(data, 6)
    &&& es.key_reset_enabler == spec_read_be32(data, 8)
    &&& es.supported_ciphers@ == spec_supported_ciphers(data)
}

/// The vendor encryption-status query.
pub struct EncryptionStatusCommand {
}

impl EncryptionStatusCommand {
    pub fn new() -> (r: EncryptionStatusCommand) {
        EncryptionStatusCommand {  }
    }
}

impl Command for EncryptionStatusCommand {
    type ReturnType = crate::result::Result<EncryptionStatus>;

    open spec fn spec_direction(&self) -> DataDirection {
        DataDirection::FromDevice
    }

    open spec fn spec_command(&self) -> Seq<u8> {
        spec_encryption_status_cdb()
    }

    open spec fn spec_data(&self) -> Seq<u8> {
        spec_zeros(48)
    }

    open spec fn spec_data_size(&self) -> u32 {
        48
    }

    open spec fn spec_sense_size(&self) -> nat {
        255
    }

    open spec fn result_spec(&self, result: &ResultData, r: Self::ReturnType) -> bool {
        if result.ioctl_result != 0 {
            match r {
                Err(Error::ScsiError(crate::error::Error::IO(code))) => code == result.os_error,
                _ => false,
            }
        } else if !result.spec_nominal() {
            match r {
                Err(Error::ScsiError(e)) => result.spec_status_failure(e),
                _ => false,
            }
        } else {
            match r {
                Ok(es) => spec_encryption_status_of(result.data@, &es),
                Err(Error::UnsupportedDevice) => !spec_encryption_status_reply_ok(result.data@),
                Err(_) => false,
            }
        }
    }

    fn get_direction(&self) -> (r: DataDirection) {
        DataDirection::FromDevice
    }

    fn get_command(&self) -> (r: Vec<u8>) {
        let mut cdb: Vec<u8> = Vec::new();
        cdb.push(0xc0);
        cdb.push(0x45);
        push_zeros(&mut cdb, 5);
        push_be16(&mut cdb, 0x30);
        cdb.push(0);
        proof {
            assert(cdb@ =~= self.spec_command());
        }
        cdb
    }

    fn get_data(&self) -> (r: Vec<u8>) {
        let mut data: Vec<u8> = Vec::new();
        push_zeros(&mut data, 48);
        proof {
            assert(data@ =~= self.spec_data());
        }
        data
    }

    fn get_sense_buffer(&self) -> (r: Vec<u8>) {
        crate::sense::bytes_sense_buffer_value()
    }

    fn get_data_size(&self) -> (r: u32) {
        48
    }

    fn process_result(&self, result: &ResultData) -> (r: Self::ReturnType) {
        if let Err(e) = result.check_ioctl_error() {
            return Err(Error::ScsiError(e));
        }
        if let Err(e) = result.check_common_error() {
            return Err(Error::ScsiError(e));
        }
        let data = &result.data;
        if data.len() < 48 {
            return Err(Error::UnsupportedDevice);
        }
        if data[0] != 0x45 {
            return Err(Error::UnsupportedDevice);
        }
        let security_status = match SecurityStatus::from_code(data[3]) {
            Ok(s) => s,
            Err(_) => {
                return Err(Error::UnsupportedDevice);
            },
        };
        let current_cipher = Cipher::from_code(data[4]);
        let blob_password_length = crate::codec::read_be16(data.as_slice(), 6);
        let key_reset_enabler = crate::codec::read_be32(data.as_slice(), 8);
        let advertised = data[15];
        let number_of_ciphers: usize = if advertised > 32 {
            32
        } else {
            advertised as usize
        };
        let mut supported_ciphers: Vec<Cipher> = Vec::new();
        let mut i: usize = 0;
        while i < number_of_ciphers
            invariant
                0 <= i <= number_of_ciphers,
                number_of_ciphers <= 32,
                data@.len() >= 48,
                number_of_ciphers == spec_cipher_count(data@),
                supported_ciphers@ == spec_supported_ciphers(data@).take(i as int),
            decreases number_of_ciphers - i,
        {
            supported_ciphers.push(Cipher::from_code(data[16 + i]));
            proof {
                assert(spec_supported_ciphers(data@).take(i + 1) =~= spec_supported_ciphers(
                    data@,
                ).take(i as int).push(spec_supported_ciphers(data@)[i as int]));
            }
            i += 1;
        }
        proof {
            assert(spec_supported_ciphers(data@).take(number_of_ciphers as int)
                =~= spec_supported_ciphers(data@));
        }
        Ok(
            EncryptionStatus {
                security_status,
                current_cipher,
                blob_password_length,
                key_reset_enabler,
                supported_ciphers,
            },
        )
    }
}

} // verus!
