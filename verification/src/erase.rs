//! Decisions of the secure-erase sequence. The sequence itself alternates
//! device calls and these checks: re-query the encryption status for a
//! fresh key-reset enabler, reset the data encryption key with fresh
//! random material, then — unless data is to be preserved — probe Unmap
//! support and the maximum unmappable block count, read the capacity,
//! and issue chunked Unmap commands over the whole range.
use vstd::prelude::*;
use crate::cipher::Cipher;
use crate::result::Error;

verus! {

/// Whether the cipher chosen for the erase is acceptable: either none
/// was chosen (the current cipher is kept), or the device lists it as
/// supported.
pub fn check_erase_cipher(cipher: Option<Cipher>, supported_ciphers: &Vec<Cipher>) -> (r:
    crate::result::Result<()>)
    ensures
        r is Ok <==> (cipher is None || supported_ciphers@.contains(cipher.unwrap())),
        match r {
            Ok(()) => true,
            Err(e) => e is UnsupportedCipher,
        },
{
    let chosen = match cipher {
        Some(c) => c,
        Option::None => {
            return Ok(());
        },
    };
    let n = supported_ciphers.len();
    let mut i: usize = 0;
    while i < n
        invariant
            cipher == Some(chosen),
            0 <= i <= n,
            n == supported_ciphers@.len(),
            forall|j: int| 0 <= j < i ==> supported_ciphers@[j] != chosen,
        decreases n - i,
    {
        if supported_ciphers[i] == chosen {
            proof {
                assert(supported_ciphers@[i as int] == chosen);
            }
            return Ok(());
        }
        i += 1;
    }
    proof {
        assert(!supported_ciphers@.contains(chosen));
    }
    Err(Error::UnsupportedCipher)
}

/// Whether the erase goes on to unmap the whole range: only when the
/// device supports Unmap and advertises a nonzero maximum unmappable
/// block count.
pub fn should_issue_unmap(support_unmap: bool, max_unmap_block: u32) -> (r: bool)
    ensures
        r == (support_unmap && max_unmap_block > 0),
{
    support_unmap && max_unmap_block > 0
}

} // verus!
