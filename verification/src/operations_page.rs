//! The vendor operations mode page: the status LED brightness lives in it.
//!
//! Reading is a Mode Sense of the page; writing re-reads the page, zeroes
//! the mode parameter header, clears the parameter-savable bit, changes
//! the one target field and writes the page back.
use vstd::prelude::*;
use crate::codec::copy_bytes;

verus! {

pub const OPERATIONS_PAGE_CODE: u8 = 0x21;

/// Size of the page including its 8-byte mode parameter header.
pub const OPERATIONS_PAGE_SIZE: usize = 20;

/// The power LED brightness: byte 16.
pub open spec fn spec_led_brightness(page: Seq<u8>) -> u8 {
    page[16]
}

/// Reads the LED brightness from a page.
pub fn get_led_brightness_from_page(page: &[u8]) -> (r: u8)
    requires
        page@.len() == 20,
    ensures
        r == spec_led_brightness(page@),
{
    page[16]
}

/// The page as written back: header zeroed, parameter-savable bit
/// cleared, byte 16 set to the brightness, everything else kept.
pub open spec fn spec_apply_led_brightness(page: Seq<u8>, led_brightness: u8) -> Seq<u8> {
    Seq::new(
        20,
        |i: int|
            if i < 8 {
                0u8
            } else if i == 8 {
                page[8] & 0x7f
            } else if i == 16 {
                led_brightness
            } else {
                page[i]
            },
    )
}

/// Builds the page to write back for the given brightness.
pub fn apply_led_brightness(page: &[u8], led_brightness: u8) -> (r: Vec<u8>)
    requires
        page@.len() == 20,
    ensures
        r@ == spec_apply_led_brightness(page@, led_brightness),
{
    let mut r = copy_bytes(page);
    let mut i: usize = 0;
    while i < 8
        invariant
            0 <= i <= 8,
            r@.len() == 20,
            forall|j: int| 0 <= j < i ==> r@[j] == 0,
            forall|j: int| i <= j < 20 ==> r@[j] == page@[j],
        decreases 8 - i,
    {
        r[i] = 0;
        i += 1;
    }
    r[8] = r[8] & 0x7f;
    r[16] = led_brightness;
    proof {
        assert(r@ =~= spec_apply_led_brightness(page@, led_brightness));
    }
    r
}

} // verus!
