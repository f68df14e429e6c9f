//! The security block: a fixed-layout record persisted in one handy-store
//! block, holding the password derivation's iteration count and salt and
//! a user hint.
//!
//! Layout of the 512 bytes: a 4-byte signature, 4 reserved bytes, the
//! little-endian iteration count, the 8-byte salt, 4 reserved bytes, the
//! hint as 101 little-endian UTF-16 units (NUL-terminated), 285 reserved
//! bytes, and a checksum byte chosen so that the whole block's byte sum
//! is zero modulo 256. A block whose signature or byte sum does not match
//! is invalid, and readers fall back to defaults.
use vstd::prelude::*;
use crate::codec::{
    push_bytes, push_le32, push_zeros, spec_byte_sum, spec_le32, spec_padded, spec_read_le16,
    spec_read_le32, spec_zeros, subrange_bytes,
};
use crate::native::{DEFAULT_ITERATION_COUNT, MAX_HINT_SIZE_FOR_U16};
use crate::result::Error;
use crate::utf16::{spec_utf16_units, spec_utf16le_bytes, utf16_units, utf16le_bytes};

verus! {

/// Handy-store index the security block is persisted at.
pub const SECURITY_BLOCK_INDEX: u32 = 1;

/// The security block: iteration count, salt and hint, as plain values.
/// The hint is kept as UTF-16 code units, exactly as the block stores it.
#[derive(Debug)]
pub struct SecurityBlock {
    pub iteration_count: u32,
    pub salt: [u8; 8],
    pub hint: Vec<u16>,
}

/// The block's 4-byte signature.
pub open spec fn spec_security_block_signature() -> Seq<u8> {
    seq![0u8, 1u8, 68u8, 87u8]
}

/// All bytes of the block except the final checksum byte.
pub open spec fn spec_security_block_head(
    iteration_count: u32,
    salt: Seq<u8>,
    hint_units: Seq<u16>,
) -> Seq<u8> {
    spec_security_block_signature() + spec_zeros(4) + spec_le32(iteration_count) + salt
        + spec_zeros(4) + spec_padded(spec_utf16le_bytes(hint_units), 202) + spec_zeros(285)
}

/// The checksum byte that makes a block's byte sum zero modulo 256.
pub open spec fn spec_checksum_byte(head: Seq<u8>) -> u8 {
    ((0x100 - spec_byte_sum(head) % 0x100) % 0x100) as u8
}

/// The full 512 bytes of a security block.
pub open spec fn spec_security_block_bytes(
    iteration_count: u32,
    salt: Seq<u8>,
    hint_units: Seq<u16>,
) -> Seq<u8> {
    let head = spec_security_block_head(iteration_count, salt, hint_units);
    head + seq![spec_checksum_byte(head)]
}

/// A block is structurally valid when it is exactly one handy-store
/// block, starts with the signature, and its byte sum is zero modulo
/// 256.
pub open spec fn spec_security_block_valid(block: Seq<u8>) -> bool {
    &&& block.len() == 512
    &&& block.take(4) == spec_security_block_signature()
    &&& spec_byte_sum(block) % 0x100 == 0
}

/// The iteration count a valid block stores: little-endian at offset 8.
pub open spec fn spec_block_iteration_count(block: Seq<u8>) -> u32 {
    spec_read_le32(block, 8)
}

/// The salt a valid block stores: offsets 12 through 19.
pub open spec fn spec_block_salt(block: Seq<u8>) -> Seq<u8> {
    block.subrange(12, 20)
}

/// The 101 hint units a block stores, little-endian from offset 24.
pub open spec fn spec_block_hint_units(block: Seq<u8>) -> Seq<u16> {
    Seq::new(101, |i: int| spec_read_le16(block, 24 + 2 * i))
}

/// The units before the first NUL.
pub open spec fn spec_nul_terminated(units: Seq<u16>) -> Seq<u16>
    decreases units.len(),
{
    if units.len() == 0 || units[0] == 0 {
        Seq::empty()
    } else {
        seq![units[0]] + spec_nul_terminated(units.drop_first())
    }
}

/// The whitespace units trimmed from a hint's ends.
pub open spec fn spec_is_space_unit(u: u16) -> bool {
    u == 0x20 || (0x09 <= u <= 0x0D)
}

pub open spec fn spec_trim_front(units: Seq<u16>) -> Seq<u16>
    decreases units.len(),
{
    if units.len() > 0 && spec_is_space_unit(units[0]) {
        spec_trim_front(units.drop_first())
    } else {
        units
    }
}

pub open spec fn spec_trim_back(units: Seq<u16>) -> Seq<u16>
    decreases units.len(),
{
    if units.len() > 0 && spec_is_space_unit(units.last()) {
        spec_trim_back(units.drop_last())
    } else {
        units
    }
}

/// The hint a valid block stores: its units up to the first NUL or the
/// area's capacity, trimmed of surrounding whitespace.
pub open spec fn spec_block_hint(block: Seq<u8>) -> Seq<u16> {
    spec_trim_back(spec_trim_front(spec_nul_terminated(spec_block_hint_units(block))))
}

/// Builds the 512 security block bytes for the given values. Fails
/// exactly when the hint, with its terminator, overflows the hint area.
pub fn build_security_block(iteration_count: u32, salt: &[u8; 8], hint: &str) -> (r:
    crate::result::Result<Vec<u8>>)
    ensures
        r is Ok <==> spec_utf16_units(hint@).len() + 1 <= 101,
        match r {
            Ok(b) => b@ == spec_security_block_bytes(
                iteration_count,
                salt@,
                spec_utf16_units(hint@),
            ),
            Err(e) => e is HintTooLong,
        },
{
    let units = utf16_units(hint);
    if units.len() >= MAX_HINT_SIZE_FOR_U16 {
        return Err(Error::HintTooLong);
    }
    let unit_bytes = utf16le_bytes(units.as_slice());
    proof {
        crate::utf16::lemma_utf16le_bytes_len(units@);
    }
    let mut head: Vec<u8> = Vec::new();
    head.push(0);
    head.push(1);
    head.push(68);
    head.push(87);
    push_zeros(&mut head, 4);
    push_le32(&mut head, iteration_count);
    push_bytes(&mut head, salt.as_slice());
    push_zeros(&mut head, 4);
    push_bytes(&mut head, unit_bytes.as_slice());
    push_zeros(&mut head, 202 - unit_bytes.len());
    push_zeros(&mut head, 285);
    proof {
        assert(spec_padded(spec_utf16le_bytes(units@), 202) =~= spec_utf16le_bytes(units@)
            + spec_zeros((202 - spec_utf16le_bytes(units@).len()) as nat));
        assert(head@ =~= spec_security_block_head(iteration_count, salt@, units@));
    }
    let sum = crate::codec::byte_sum_mod(head.as_slice());
    let checksum = ((0x100u16 - sum as u16) % 0x100) as u8;
    let mut block = head;
    block.push(checksum);
    proof {
        let h = spec_security_block_head(iteration_count, salt@, units@);
        assert(checksum == spec_checksum_byte(h));
        assert(block@ =~= spec_security_block_bytes(iteration_count, salt@, units@));
    }
    Ok(block)
}

/// Every block the builder produces sums to zero modulo 256, and is
/// exactly one handy-store block with the signature in place: it parses
/// as valid.
pub proof fn lemma_security_block_checksum(
    iteration_count: u32,
    salt: Seq<u8>,
    hint_units: Seq<u16>,
)
    requires
        salt.len() == 8,
    ensures
        spec_security_block_bytes(iteration_count, salt, hint_units).len() == 512,
        spec_security_block_valid(spec_security_block_bytes(iteration_count, salt, hint_units)),
{
    let head = spec_security_block_head(iteration_count, salt, hint_units);
    let block = spec_security_block_bytes(iteration_count, salt, hint_units);
    crate::utf16::lemma_utf16le_bytes_len(hint_units);
    assert(head.len() == 511);
    assert(block.len() == 512);
    assert(block.take(4) =~= spec_security_block_signature());
    crate::codec::lemma_byte_sum_append(head, seq![spec_checksum_byte(head)]);
    crate::codec::lemma_byte_sum_nonneg(head);
    let tail = seq![spec_checksum_byte(head)];
    assert(tail.len() == 1);
    assert(tail.drop_last() =~= Seq::<u8>::empty());
    assert(tail.last() == spec_checksum_byte(head));
    assert(spec_byte_sum(Seq::<u8>::empty()) == 0);
    assert(spec_byte_sum(tail) == spec_byte_sum(tail.drop_last()) + tail.last());
    assert(spec_byte_sum(tail) == spec_checksum_byte(head));
    assert(block =~= head + tail);
    assert(spec_byte_sum(block) % 0x100 == 0);
}

/// Writing a security block and reading it straight back returns the
/// same iteration count, salt and hint: a built block is valid, its
/// iteration count and salt fields decode to what was written, and its
/// hint area decodes to the written hint units, provided the hint has no
/// embedded NULs, fits the area, and carries no surrounding whitespace
/// to be trimmed away.
pub proof fn lemma_security_block_round_trip(
    iteration_count: u32,
    salt: Seq<u8>,
    hint_units: Seq<u16>,
)
    requires
        salt.len() == 8,
        hint_units.len() <= 100,
        forall|i: int| 0 <= i < hint_units.len() ==> hint_units[i] != 0,
        spec_trim_front(hint_units) == hint_units,
        spec_trim_back(hint_units) == hint_units,
    ensures
        ({
            let block = spec_security_block_bytes(iteration_count, salt, hint_units);
            &&& spec_security_block_valid(block)
            &&& spec_block_iteration_count(block) == iteration_count
            &&& spec_block_salt(block) == salt
            &&& spec_block_hint(block) == hint_units
        }),
{
    let head = spec_security_block_head(iteration_count, salt, hint_units);
    let block = spec_security_block_bytes(iteration_count, salt, hint_units);
    let unit_bytes = spec_utf16le_bytes(hint_units);
    let area = crate::codec::spec_padded(unit_bytes, 202);
    lemma_security_block_checksum(iteration_count, salt, hint_units);
    crate::utf16::lemma_utf16le_bytes_len(hint_units);
    // the iteration count decodes to what was written
    assert(block.subrange(8, 12) =~= spec_le32(iteration_count));
    crate::codec::lemma_le32_round_trip(iteration_count);
    assert(spec_block_iteration_count(block) == iteration_count);
    // the salt decodes to what was written
    assert(spec_block_salt(block) =~= salt);
    // every hint unit decodes from its two little-endian bytes
    assert forall|i: int| 0 <= i < 101 implies #[trigger] spec_block_hint_units(block)[i] == (
    if i < hint_units.len() {
        hint_units[i]
    } else {
        0u16
    }) by {
        assert(block[24 + 2 * i] == area[2 * i]);
        assert(block[24 + 2 * i + 1] == area[2 * i + 1]);
        if i < hint_units.len() {
            crate::utf16::lemma_utf16le_bytes_index(hint_units, i);
            assert(area[2 * i] == unit_bytes[2 * i]);
            assert(area[2 * i + 1] == unit_bytes[2 * i + 1]);
            assert((hint_units[i] / 0x100) * 0x100 + hint_units[i] % 0x100 == hint_units[i]);
        } else {
            assert(area[2 * i] == 0);
            assert(area[2 * i + 1] == 0);
        }
    }
    // the units up to the first NUL are exactly the written hint
    lemma_nul_terminated_take(spec_block_hint_units(block), hint_units.len() as int);
    assert(spec_block_hint_units(block).take(hint_units.len() as int) =~= hint_units);
    assert(spec_block_hint(block) == hint_units);
}

/// Reads a block back into its values. Fails with `InvalidSecurityBlock`
/// exactly when the block is not structurally valid.
pub fn parse_security_block(block: &Vec<u8>) -> (r: crate::result::Result<SecurityBlock>)
    ensures
        r is Ok <==> spec_security_block_valid(block@),
        match r {
            Ok(b) => {
                &&& b.iteration_count == spec_block_iteration_count(block@)
                &&& b.salt@ == spec_block_salt(block@)
                &&& b.hint@ == spec_block_hint(block@)
            },
            Err(e) => e is InvalidSecurityBlock,
        },
{
    if block.len() != 512 {
        return Err(Error::InvalidSecurityBlock);
    }
    if !(block[0] == 0 && block[1] == 1 && block[2] == 68 && block[3] == 87) {
        proof {
            assert(block@.take(4) == spec_security_block_signature() ==> block@[0] == 0
                && block@[1] == 1 && block@[2] == 68 && block@[3] == 87);
        }
        return Err(Error::InvalidSecurityBlock);
    }
    proof {
        assert(block@.take(4) =~= spec_security_block_signature());
    }
    let sum = crate::codec::byte_sum_mod(block.as_slice());
    if sum != 0 {
        return Err(Error::InvalidSecurityBlock);
    }
    let iteration_count = crate::codec::read_le32(block.as_slice(), 8);
    let salt_vec = subrange_bytes(block.as_slice(), 12, 20);
    let salt: [u8; 8] = [
        salt_vec[0],
        salt_vec[1],
        salt_vec[2],
        salt_vec[3],
        salt_vec[4],
        salt_vec[5],
        salt_vec[6],
        salt_vec[7],
    ];
    proof {
        assert(salt@ =~= spec_block_salt(block@));
    }
    let hint = read_hint(block);
    Ok(SecurityBlock { iteration_count, salt, hint })
}

/// The terminated prefix of a unit sequence is its first `k` units when
/// those hold no NUL and the sequence ends or holds a NUL at `k`.
proof fn lemma_nul_terminated_take(units: Seq<u16>, k: int)
    requires
        0 <= k <= units.len(),
        forall|j: int| 0 <= j < k ==> units[j] != 0,
        k == units.len() || units[k] == 0,
    ensures
        spec_nul_terminated(units) == units.take(k),
    decreases k,
{
    if k == 0 {
        assert(units.take(0) =~= Seq::<u16>::empty());
    } else {
        assert(units[0] != 0);
        lemma_nul_terminated_take(units.drop_first(), k - 1);
        assert(units.drop_first().take(k - 1) =~= units.take(k).drop_first());
        assert(units.take(k)[0] == units[0]);
        assert(seq![units[0]] + units.take(k).drop_first() =~= units.take(k));
    }
}

/// Reads the hint out of a 512-byte block: units up to the first NUL or
/// the capacity, then trimmed of surrounding whitespace.
fn read_hint(block: &Vec<u8>) -> (r: Vec<u16>)
    requires
        block@.len() == 512,
    ensures
        r@ == spec_block_hint(block@),
{
    let mut units: Vec<u16> = Vec::new();
    let mut i: usize = 0;
    let ghost all = spec_block_hint_units(block@);
    while i < 101
        invariant
            0 <= i <= 101,
            block@.len() == 512,
            all == spec_block_hint_units(block@),
            units@ == all.take(i as int),
            forall|j: int| 0 <= j < i ==> all[j] != 0,
        ensures
            0 <= i <= 101,
            units@ == all.take(i as int),
            forall|j: int| 0 <= j < i ==> all[j] != 0,
            i == 101 || all[i as int] == 0,
        decreases 101 - i,
    {
        let u = crate::codec::read_le16(block.as_slice(), 24 + 2 * i);
        if u == 0 {
            proof {
                assert(all[i as int] == u);
            }
            break ;
        }
        units.push(u);
        proof {
            assert(all.take(i + 1) =~= all.take(i as int).push(all[i as int]));
        }
        i += 1;
    }
    proof {
        lemma_nul_terminated_take(all, i as int);
    }
    trim_units(units)
}

fn is_space_unit(u: u16) -> (r: bool)
    ensures
        r == spec_is_space_unit(u),
{
    u == 0x20 || (0x09 <= u && u <= 0x0D)
}

/// The front-trim of a unit sequence is its tail from the first
/// non-space position.
proof fn lemma_trim_front_subrange(units: Seq<u16>, a: int)
    requires
        0 <= a <= units.len(),
        forall|j: int| 0 <= j < a ==> spec_is_space_unit(units[j]),
        a == units.len() || !spec_is_space_unit(units[a]),
    ensures
        spec_trim_front(units) == units.subrange(a, units.len() as int),
    decreases a,
{
    if a == 0 {
        assert(units.subrange(0, units.len() as int) =~= units);
    } else {
        lemma_trim_front_subrange(units.drop_first(), a - 1);
        assert(units.drop_first().subrange(a - 1, units.drop_first().len() as int)
            =~= units.subrange(a, units.len() as int));
    }
}

/// The back-trim of a unit sequence is its prefix up to the last
/// non-space position.
proof fn lemma_trim_back_subrange(units: Seq<u16>, b: int)
    requires
        0 <= b <= units.len(),
        forall|j: int| b <= j < units.len() ==> spec_is_space_unit(units[j]),
        b == 0 || !spec_is_space_unit(units[b - 1]),
    ensures
        spec_trim_back(units) == units.take(b),
    decreases units.len() - b,
{
    if b == units.len() {
        assert(units.take(b) =~= units);
    } else {
        lemma_trim_back_subrange(units.drop_last(), b);
        assert(units.drop_last().take(b) =~= units.take(b));
    }
}

/// Trims surrounding whitespace units.
fn trim_units(units: Vec<u16>) -> (r: Vec<u16>)
    ensures
        r@ == spec_trim_back(spec_trim_front(units@)),
{
    let n = units.len();
    let mut a: usize = 0;
    while a < n && is_space_unit(units[a])
        invariant
            0 <= a <= n,
            n == units@.len(),
            forall|j: int| 0 <= j < a ==> spec_is_space_unit(units@[j]),
        decreases n - a,
    {
        a += 1;
    }
    let mut b: usize = n;
    while b > a && is_space_unit(units[b - 1])
        invariant
            a <= b <= n,
            n == units@.len(),
            forall|j: int| b <= j < n ==> spec_is_space_unit(units@[j]),
        decreases b,
    {
        b -= 1;
    }
    let mut r: Vec<u16> = Vec::new();
    let mut i: usize = a;
    while i < b
        invariant
            a <= i <= b <= n,
            n == units@.len(),
            r@ == units@.subrange(a as int, i as int),
        decreases b - i,
    {
        r.push(units[i]);
        proof {
            assert(units@.subrange(a as int, i + 1) =~= units@.subrange(a as int, i as int).push(
                units@[i as int],
            ));
        }
        i += 1;
    }
    proof {
        let front = spec_trim_front(units@);
        lemma_trim_front_subrange(units@, a as int);
        if b == a {
            lemma_trim_back_subrange(front, 0);
        } else {
            assert(front[b - a - 1] == units@[b - 1]);
            assert(forall|j: int|
                b - a <= j < front.len() ==> front[j] == units@[#[trigger] (j + a)]);
            lemma_trim_back_subrange(front, b - a);
        }
        assert(front.take(b - a) =~= units@.subrange(a as int, b as int));
    }
    r
}

/// Reads a block, falling back to the defaults when it is invalid: the
/// default iteration count, the default salt, an empty hint. The flag
/// says whether the block itself was used.
pub fn parse_security_block_or_default(block: &Vec<u8>) -> (r: (SecurityBlock, bool))
    ensures
        r.1 <==> spec_security_block_valid(block@),
        r.1 ==> {
            &&& r.0.iteration_count == spec_block_iteration_count(block@)
            &&& r.0.salt@ == spec_block_salt(block@)
            &&& r.0.hint@ == spec_block_hint(block@)
        },
        !r.1 ==> {
            &&& r.0.iteration_count == DEFAULT_ITERATION_COUNT
            &&& r.0.salt@ == crate::native::spec_default_salt()
            &&& r.0.hint@ == Seq::<u16>::empty()
        },
{
    match parse_security_block(block) {
        Ok(b) => (b, true),
        Err(_) => (
            SecurityBlock {
                iteration_count: DEFAULT_ITERATION_COUNT,
                salt: crate::native::default_salt(),
                hint: Vec::new(),
            },
            false,
        ),
    }
}

} // verus!
