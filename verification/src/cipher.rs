//! The ciphers the vendor protocol knows, their one-byte device codes, and
//! the key length each one requires.
use vstd::prelude::*;
use crate::result::Error;

verus! {

/// A cipher, mapping to a one-byte device code and a required key length.
#[derive(Clone, Copy, Debug, PartialEq, Eq, Hash, PartialOrd, Ord, Structural)]
pub enum Cipher {
    NoEncryption,
    Aes128Ecb,
    Aes128Cbc,
    Aes128Xts,
    Aes256Ecb,
    Aes256Cbc,
    Aes256Xts,
    FullDiscEncryption,
    Unknown,
}

impl Cipher {
    pub open spec fn spec_from_code(code: u8) -> Cipher {
        match code {
            0x00 => Cipher::NoEncryption,
            0x10 => Cipher::Aes128Ecb,
            0x12 => Cipher::Aes128Cbc,
            0x18 => Cipher::Aes128Xts,
            0x20 => Cipher::Aes256Ecb,
            0x22 => Cipher::Aes256Cbc,
            0x28 => Cipher::Aes256Xts,
            0x30 => Cipher::FullDiscEncryption,
            _ => Cipher::Unknown,
        }
    }

    /// The cipher a device code names; unrecognized codes give `Unknown`.
    pub fn from_code(code: u8) -> (r: Cipher)
        ensures
            r == Cipher::spec_from_code(code),
    {
        match code {
            0x00 => Cipher::NoEncryption,
            0x10 => Cipher::Aes128Ecb,
            0x12 => Cipher::Aes128Cbc,
            0x18 => Cipher::Aes128Xts,
            0x20 => Cipher::Aes256Ecb,
            0x22 => Cipher::Aes256Cbc,
            0x28 => Cipher::Aes256Xts,
            0x30 => Cipher::FullDiscEncryption,
            _ => Cipher::Unknown,
        }
    }

    pub open spec fn spec_code(&self) -> u8 {
        match self {
            Cipher::NoEncryption => 0x00,
            Cipher::Aes128Ecb => 0x10,
            Cipher::Aes128Cbc => 0x12,
            Cipher::Aes128Xts => 0x18,
            Cipher::Aes256Ecb => 0x20,
            Cipher::Aes256Cbc => 0x22,
            Cipher::Aes256Xts => 0x28,
            Cipher::FullDiscEncryption => 0x30,
            Cipher::Unknown => 0xff,
        }
    }

    /// The one-byte device code of this cipher.
    pub fn code(&self) -> (r: u8)
        ensures
            r == self.spec_code(),
    {
        match self {
            Cipher::NoEncryption => 0x00,
            Cipher::Aes128Ecb => 0x10,
            Cipher::Aes128Cbc => 0x12,
            Cipher::Aes128Xts => 0x18,
            Cipher::Aes256Ecb => 0x20,
            Cipher::Aes256Cbc => 0x22,
            Cipher::Aes256Xts => 0x28,
            Cipher::FullDiscEncryption => 0x30,
            Cipher::Unknown => 0xff,
        }
    }

    /// The key length a password blob for this cipher must have, or none
    /// for the ciphers that take no password blob.
    pub open spec fn spec_password_blob_size(&self) -> Option<usize> {
        match self {
            Cipher::NoEncryption => Option::None,
            Cipher::Aes128Ecb => Some(16usize),
            Cipher::Aes128Cbc => Some(16usize),
            Cipher::Aes128Xts => Some(16usize),
            Cipher::Aes256Ecb => Some(32usize),
            Cipher::Aes256Cbc => Some(32usize),
            Cipher::Aes256Xts => Some(32usize),
            Cipher::FullDiscEncryption => Some(32usize),
            Cipher::Unknown => Option::None,
        }
    }

    /// The password blob size this cipher requires: 16 or 32 bytes, or
    /// `UnsupportedCipher` for the ciphers that take none.
    pub fn get_password_blob_size(&self) -> (r: crate::result::Result<usize>)
        ensures
            match r {
                Ok(n) => self.spec_password_blob_size() == Some(n),
                Err(e) => self.spec_password_blob_size() is None && e is UnsupportedCipher,
            },
            r is Ok <==> self.spec_password_blob_size() is Some,
    {
        match self {
            Cipher::NoEncryption => Err(Error::UnsupportedCipher),
            Cipher::Aes128Ecb => Ok(16),
            Cipher::Aes128Cbc => Ok(16),
            Cipher::Aes128Xts => Ok(16),
            Cipher::Aes256Ecb => Ok(32),
            Cipher::Aes256Cbc => Ok(32),
            Cipher::Aes256Xts => Ok(32),
            Cipher::FullDiscEncryption => Ok(32),
            Cipher::Unknown => Err(Error::UnsupportedCipher),
        }
    }
}

} // verus!
