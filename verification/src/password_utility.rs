//! Password derivation and the helpers around it: a password becomes a
//! key-sized blob by UTF-16LE-encoding it, prepending the salt, hashing
//! with SHA-256, re-hashing for the iteration count, and truncating to
//! the cipher's key length. The derivation is deterministic: it is the
//! shared secret between host and device firmware.
use vstd::prelude::*;
use sha2::{Digest, Sha256};
use crate::cipher::Cipher;
use crate::result::Error;
use crate::security_block::SecurityBlock;
use crate::security_status::SecurityStatus;
use crate::utf16::{spec_utf16_units, spec_utf16le_bytes, utf16_units, utf16le_bytes};

verus! {

/// The SHA-256 digest of a byte sequence; a function of its input alone.
pub uninterp spec fn sha256_of(data: Seq<u8>) -> Seq<u8>;

/// Relies on `sha2::Sha256` through `sha2::Digest::digest`: the digest is
/// a function of the input bytes alone, and is 32 bytes long.
#[verifier::external_body]
fn sha256(data: &Vec<u8>) -> (r: Vec<u8>)
    ensures
        r@ == sha256_of(data@),
        r@.len() == 32,
{
    Sha256::digest(data.as_slice()).to_vec()
}

/// `seed` re-hashed `n` times.
pub open spec fn spec_iterated_sha256(seed: Seq<u8>, n: nat) -> Seq<u8>
    decreases n,
{
    if n == 0 {
        seed
    } else {
        sha256_of(spec_iterated_sha256(seed, (n - 1) as nat))
    }
}

/// `s` cut down to at most `n` bytes.
pub open spec fn spec_truncated(s: Seq<u8>, n: nat) -> Seq<u8> {
    if s.len() <= n {
        s
    } else {
        s.take(n as int)
    }
}

/// The password blob for a key of `key_size` bytes: salt and UTF-16LE
/// password concatenated, hashed for the iteration count, truncated to
/// the key size.
pub open spec fn spec_password_blob(
    key_size: nat,
    salt: Seq<u8>,
    iteration_count: u32,
    password: Seq<char>,
) -> Seq<u8> {
    spec_truncated(
        spec_iterated_sha256(
            salt + spec_utf16le_bytes(spec_utf16_units(password)),
            iteration_count as nat,
        ),
        key_size,
    )
}

/// Derives the password blob for a cipher. Fails exactly when the cipher
/// takes no password blob; otherwise the result is the deterministic
/// function of cipher, salt, iteration count and password text alone.
pub fn create_password_blob(cipher: Cipher, salt: &[u8], iteration_count: u32, password: &str) -> (r:
    crate::result::Result<Vec<u8>>)
    ensures
        r is Ok <==> cipher.spec_password_blob_size() is Some,
        match r {
            Ok(b) => {
                &&& b@ == spec_password_blob(
                    cipher.spec_password_blob_size().unwrap() as nat,
                    salt@,
                    iteration_count,
                    password@,
                )
                &&& (iteration_count >= 1 ==> b@.len()
                    == cipher.spec_password_blob_size().unwrap())
            },
            Err(e) => e is UnsupportedCipher,
        },
{
    let password_length = match cipher.get_password_blob_size() {
        Ok(n) => n,
        Err(e) => {
            return Err(e);
        },
    };
    let units = utf16_units(password);
    let password_bytes = utf16le_bytes(units.as_slice());
    let mut blob: Vec<u8> = crate::codec::copy_bytes(salt);
    let mut pw = password_bytes;
    blob.append(&mut pw);
    let ghost seed = salt@ + spec_utf16le_bytes(spec_utf16_units(password@));
    proof {
        assert(blob@ =~= seed);
    }
    let mut i: u32 = 0;
    while i < iteration_count
        invariant
            0 <= i <= iteration_count,
            blob@ == spec_iterated_sha256(seed, i as nat),
            i >= 1 ==> blob@.len() == 32,
        decreases iteration_count - i,
    {
        blob = sha256(&blob);
        i += 1;
    }
    blob.truncate(password_length);
    proof {
        if spec_iterated_sha256(seed, iteration_count as nat).len() <= password_length {
            assert(blob@ == spec_iterated_sha256(seed, iteration_count as nat));
        }
    }
    Ok(blob)
}

/// Password derivation is deterministic: two blobs derived from the same
/// cipher key size, salt, iteration count and password are equal.
pub proof fn lemma_password_blob_deterministic(
    b1: Seq<u8>,
    b2: Seq<u8>,
    key_size: nat,
    salt: Seq<u8>,
    iteration_count: u32,
    password: Seq<char>,
)
    requires
        b1 == spec_password_blob(key_size, salt, iteration_count, password),
        b2 == spec_password_blob(key_size, salt, iteration_count, password),
    ensures
        b1 == b2,
{
}

/// Salt text becomes the fixed 8 salt bytes: UTF-16LE, zero-padded.
/// Fails exactly when the encoded text overflows the 8 bytes.
pub fn create_salt_blob(salt: Option<String>) -> (r: crate::result::Result<Option<[u8; 8]>>)
    ensures
        salt is None ==> r == Ok::<Option<[u8; 8]>, Error>(Option::None),
        salt is Some ==> {
            let encoded = spec_utf16le_bytes(spec_utf16_units(salt.unwrap()@));
            match r {
                Ok(Some(a)) => encoded.len() <= 8 && a@ == crate::codec::spec_padded(encoded, 8),
                Ok(Option::None) => false,
                Err(e) => encoded.len() > 8 && e is SaltTooLong,
            }
        },
{
    let s = match salt {
        Some(s) => s,
        Option::None => {
            return Ok(Option::None);
        },
    };
    let units = utf16_units(s.as_str());
    let bytes = utf16le_bytes(units.as_slice());
    if bytes.len() > 8 {
        return Err(Error::SaltTooLong);
    }
    let mut padded: Vec<u8> = Vec::new();
    crate::codec::push_padded(&mut padded, bytes.as_slice(), 8);
    let blob: [u8; 8] = [
        padded[0],
        padded[1],
        padded[2],
        padded[3],
        padded[4],
        padded[5],
        padded[6],
        padded[7],
    ];
    proof {
        assert(Seq::<u8>::empty() + crate::codec::spec_padded(bytes@, 8)
            =~= crate::codec::spec_padded(bytes@, 8));
        assert(blob@ =~= crate::codec::spec_padded(bytes@, 8));
    }
    Ok(Some(blob))
}

/// Resolves the salt and iteration count to use: an explicit override
/// wins, otherwise the security block's value (which is itself the
/// default when no valid block was read).
pub fn resolve_salt_and_iteration_count(
    salt: Option<[u8; 8]>,
    iteration_count: Option<u32>,
    block: &SecurityBlock,
) -> (r: ([u8; 8], u32))
    ensures
        r.0@ == if salt is Some {
            salt.unwrap()@
        } else {
            block.salt@
        },
        r.1 == if iteration_count is Some {
            iteration_count.unwrap()
        } else {
            block.iteration_count
        },
{
    let chosen_salt = match salt {
        Some(s) => s,
        Option::None => block.salt,
    };
    let chosen_count = match iteration_count {
        Some(c) => c,
        Option::None => block.iteration_count,
    };
    (chosen_salt, chosen_count)
}

/// Whether the device's security state lets the passphrase be changed:
/// a locked device must be unlocked first, and a device out of unlock
/// attempts cannot change it at all.
pub fn check_password_change_allowed(status: &SecurityStatus) -> (r: crate::result::Result<()>)
    ensures
        r is Ok <==> !(status is Locked || status is UnlockAttemptExceeded),
        match r {
            Ok(()) => true,
            Err(Error::NotUnlocked(m)) => status is Locked && m@
                == "In order to change password, the device has to be unlocked first."@,
            Err(Error::ExceedUnlockAttempts) => status is UnlockAttemptExceeded,
            Err(_) => false,
        },
{
    match status {
        SecurityStatus::Locked => Err(
            Error::NotUnlocked(
                "In order to change password, the device has to be unlocked first.".to_owned(),
            ),
        ),
        SecurityStatus::UnlockAttemptExceeded => Err(Error::ExceedUnlockAttempts),
        _ => Ok(()),
    }
}

} // verus!
