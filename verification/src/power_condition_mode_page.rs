//! The power-condition mode page: the sleep timer lives in it.
//!
//! The device stores the standby timer in 100 ms units. A requested value
//! of zero disables the timer; any other request is clamped to between
//! one minute and eight hours of seconds before it is stored.
use vstd::prelude::*;
use crate::codec::{copy_bytes, spec_be32, spec_read_be32};

verus! {

pub const POWER_CONDITION_MODE_PAGE_CODE: u8 = 0x1a;

/// Size of the page including its 8-byte mode parameter header.
pub const POWER_CONDITION_MODE_PAGE_SIZE: usize = 48;

/// Smallest nonzero sleep timer, in seconds.
pub const MIN_SLEEP_TIMER_SECONDS: u32 = 60;

/// Largest sleep timer, in seconds.
pub const MAX_SLEEP_TIMER_SECONDS: u32 = 28800;

/// The sleep timer a page holds, in seconds: the standby timer field
/// (big-endian at byte 16, in 100 ms units) divided by ten.
pub open spec fn spec_sleep_timer_of(page: Seq<u8>) -> u32 {
    (spec_read_be32(page, 16) / 10) as u32
}

/// Reads the sleep timer, in seconds, from a page.
pub fn sleep_timer_from_page(page: &[u8]) -> (r: u32)
    requires
        page@.len() == 48,
    ensures
        r == spec_sleep_timer_of(page@),
{
    crate::codec::read_be32(page, 16) / 10
}

/// What a requested sleep timer becomes: zero stays zero (disabled), any
/// other value is clamped to the supported range of seconds.
pub open spec fn spec_clamped_sleep_timer(seconds: u32) -> u32 {
    if seconds == 0 {
        0u32
    } else if seconds < 60 {
        60u32
    } else if seconds > 28800 {
        28800u32
    } else {
        seconds
    }
}

/// The page as written back: header zeroed, parameter-savable bit
/// cleared, the standby-timer enable bit (bit 0 of byte 11) set exactly
/// when the requested value is nonzero, the timer field set to the
/// clamped value in 100 ms units, everything else kept.
pub open spec fn spec_apply_sleep_timer(page: Seq<u8>, seconds: u32) -> Seq<u8> {
    let stored = (spec_clamped_sleep_timer(seconds) * 10) as u32;
    let enable: u8 = if seconds == 0 {
        0u8
    } else {
        1u8
    };
    Seq::new(
        48,
        |i: int|
            if i < 8 {
                0u8
            } else if i == 8 {
                page[8] & 0x7f
            } else if i == 11 {
                (page[11] & 0xfe) | enable
            } else if 16 <= i < 20 {
                spec_be32(stored)[i - 16]
            } else {
                page[i]
            },
    )
}

/// Builds the page to write back for the requested sleep timer.
pub fn apply_sleep_timer(page: &[u8], seconds: u32) -> (r: Vec<u8>)
    requires
        page@.len() == 48,
    ensures
        r@ == spec_apply_sleep_timer(page@, seconds),
{
    let clamped: u32 = if seconds == 0 {
        0
    } else if seconds < 60 {
        60
    } else if seconds > 28800 {
        28800
    } else {
        seconds
    };
    let stored: u32 = clamped * 10;
    let mut r = copy_bytes(page);
    let mut i: usize = 0;
    while i < 8
        invariant
            0 <= i <= 8,
            r@.len() == 48,
            forall|j: int| 0 <= j < i ==> r@[j] == 0,
            forall|j: int| i <= j < 48 ==> r@[j] == page@[j],
        decreases 8 - i,
    {
        r[i] = 0;
        i += 1;
    }
    r[8] = r[8] & 0x7f;
    r[11] = (r[11] & 0xfe) | (
    if seconds == 0 {
        0
    } else {
        1
    });
    r[16] = (stored / 0x1000000) as u8;
    r[17] = ((stored / 0x10000) % 0x100) as u8;
    r[18] = ((stored / 0x100) % 0x100) as u8;
    r[19] = (stored % 0x100) as u8;
    proof {
        assert(r@ =~= spec_apply_sleep_timer(page@, seconds));
    }
    r
}

/// Setting the sleep timer and reading it straight back gives the
/// clamped value: zero stays disabled, a request below one minute reads
/// back as sixty seconds, one above eight hours reads back as 28800
/// seconds, and anything between reads back unchanged.
pub proof fn lemma_sleep_timer_round_trip(page: Seq<u8>, seconds: u32)
    requires
        page.len() == 48,
    ensures
        spec_sleep_timer_of(spec_apply_sleep_timer(page, seconds)) == spec_clamped_sleep_timer(
            seconds,
        ),
{
    let stored = (spec_clamped_sleep_timer(seconds) * 10) as u32;
    let written = spec_apply_sleep_timer(page, seconds);
    assert(written.subrange(16, 20) =~= spec_be32(stored));
    crate::codec::lemma_be32_round_trip(stored);
    assert(spec_read_be32(written, 16) == spec_read_be32(spec_be32(stored), 0));
    assert(stored / 10 == spec_clamped_sleep_timer(seconds));
}

} // verus!
