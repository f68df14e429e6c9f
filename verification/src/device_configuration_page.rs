//! The vendor device-configuration mode page: the virtual-optical-drive
//! switch lives in it.
//!
//! Reading is a Mode Sense of the page; writing re-reads the page, zeroes
//! the mode parameter header, clears the parameter-savable bit, changes
//! the one target field and writes the page back.
use vstd::prelude::*;
use crate::codec::copy_bytes;

verus! {

pub const DEVICE_CONFIGURATION_PAGE_CODE: u8 = 0x20;

/// Size of the page including its 8-byte mode parameter header.
pub const DEVICE_CONFIGURATION_PAGE_SIZE: usize = 16;

/// Whether the virtual optical drive is on: the disable bit (bit 1 of
/// byte 12) is clear.
pub open spec fn spec_virtual_cd_on(page: Seq<u8>) -> bool {
    page[12] & 0x02 == 0
}

/// Reads the virtual-optical-drive switch from a page.
pub fn is_virtual_cd_on(page: &[u8]) -> (r: bool)
    requires
        page@.len() == 16,
    ensures
        r == spec_virtual_cd_on(page@),
{
    page[12] & 0x02 == 0
}

/// The page as written back: header zeroed, parameter-savable bit
/// cleared, the disable bit of byte 12 set to the opposite of
/// `enable_cd`, everything else kept.
pub open spec fn spec_apply_virtual_cd_status(page: Seq<u8>, enable_cd: bool) -> Seq<u8> {
    Seq::new(
        16,
        |i: int|
            if i < 8 {
                0u8
            } else if i == 8 {
                page[8] & 0x7f
            } else if i == 12 {
                (page[12] & 0xfd) | (
                if enable_cd {
                    0u8
                } else {
                    2u8
                })
            } else {
                page[i]
            },
    )
}

/// Builds the page to write back for the given switch position.
pub fn apply_virtual_cd_status(page: &[u8], enable_cd: bool) -> (r: Vec<u8>)
    requires
        page@.len() == 16,
    ensures
        r@ == spec_apply_virtual_cd_status(page@, enable_cd),
{
    let mut r = copy_bytes(page);
    let mut i: usize = 0;
    while i < 8
        invariant
            0 <= i <= 8,
            r@.len() == 16,
            forall|j: int| 0 <= j < i ==> r@[j] == 0,
            forall|j: int| i <= j < 16 ==> r@[j] == page@[j],
        decreases 8 - i,
    {
        r[i] = 0;
        i += 1;
    }
    r[8] = r[8] & 0x7f;
    r[12] = (r[12] & 0xfd) | (
    if enable_cd {
        0
    } else {
        2
    });
    proof {
        assert(r@ =~= spec_apply_virtual_cd_status(page@, enable_cd));
    }
    r
}

} // verus!
