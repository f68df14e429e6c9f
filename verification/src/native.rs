//! Constants shared across the vendor command set.
use vstd::prelude::*;

verus! {

/// Size in bytes of one handy store block.
pub const HANDY_STORE_BLOCK_SIZE: usize = 512;

/// First byte of every vendor command payload and reply.
pub const DATA_SIGNATURE: u8 = 0x45;

/// Size in bytes of the security block's salt.
pub const SALT_SIZE_FOR_U8: usize = 8;

/// Capacity of the security block's hint, in UTF-16 units, terminator
/// included.
pub const MAX_HINT_SIZE_FOR_U16: usize = 101;

/// Iteration count assumed when no security block is present.
pub const DEFAULT_ITERATION_COUNT: u32 = 1000;

/// Salt assumed when no security block is present.
pub fn default_salt() -> (r: [u8; 8])
    ensures
        r@ == spec_default_salt(),
{
    let r: [u8; 8] = [87, 0, 68, 0, 67, 0, 46, 0];
    proof {
        assert(r@ =~= spec_default_salt());
    }
    r
}

/// The default salt's bytes.
pub open spec fn spec_default_salt() -> Seq<u8> {
    seq![87u8, 0u8, 68u8, 0u8, 67u8, 0u8, 46u8, 0u8]
}

} // verus!
