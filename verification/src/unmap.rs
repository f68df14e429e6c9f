//! The Unmap command (opcode 0x42), its parameter list, and the chunk
//! planner that splits a block range into chunks no larger than the
//! device-advertised maximum.
use vstd::prelude::*;
use crate::codec::{push_be16, push_be32, push_be64, push_zeros, spec_be16, spec_be32, spec_be64, spec_zeros};
use crate::command::Command;
use crate::data_direction::DataDirection;
use crate::error::Error;
use crate::result_data::ResultData;

verus! {

pub const UNMAP_OPERATION_CODE: u8 = 0x42;

/// One unmap block descriptor: big-endian logical block address, big-endian
/// block count, four reserved bytes.
pub open spec fn spec_unmap_descriptor(d: (u64, u32)) -> Seq<u8> {
    spec_be64(d.0) + spec_be32(d.1) + spec_zeros(4)
}

/// The concatenated descriptors of a parameter list.
pub open spec fn spec_unmap_descriptors(s: Seq<(u64, u32)>) -> Seq<u8>
    decreases s.len(),
{
    if s.len() == 0 {
        Seq::empty()
    } else {
        spec_unmap_descriptors(s.drop_last()) + spec_unmap_descriptor(s.last())
    }
}

/// The unmap parameter list: big-endian data length (everything after that
/// field), big-endian descriptor data length, four reserved bytes, then the
/// 16-byte descriptors.
pub open spec fn spec_unmap_parameter_list(s: Seq<(u64, u32)>) -> Seq<u8> {
    spec_be16((6 + 16 * s.len()) as u16) + spec_be16((16 * s.len()) as u16) + spec_zeros(4)
        + spec_unmap_descriptors(s)
}

pub proof fn lemma_unmap_descriptors_len(s: Seq<(u64, u32)>)
    ensures
        spec_unmap_descriptors(s).len() == 16 * s.len(),
    decreases s.len(),
{
    if s.len() > 0 {
        lemma_unmap_descriptors_len(s.drop_last());
    }
}

/// Builds the parameter list for the given descriptors.
pub fn build_unmap_parameter_list(descriptors: &Vec<(u64, u32)>) -> (r: Vec<u8>)
    requires
        6 + 16 * descriptors@.len() <= 0xFFFF,
    ensures
        r@ == spec_unmap_parameter_list(descriptors@),
        r@.len() == 8 + 16 * descriptors@.len(),
{
    let n = descriptors.len();
    let mut r: Vec<u8> = Vec::new();
    push_be16(&mut r, (6 + 16 * n) as u16);
    push_be16(&mut r, (16 * n) as u16);
    push_zeros(&mut r, 4);
    let ghost header = r@;
    let mut i: usize = 0;
    while i < n
        invariant
            0 <= i <= n,
            n == descriptors@.len(),
            r@ == header + spec_unmap_descriptors(descriptors@.take(i as int)),
        decreases n - i,
    {
        let d = descriptors[i];
        push_be64(&mut r, d.0);
        push_be32(&mut r, d.1);
        push_zeros(&mut r, 4);
        proof {
            let t = descriptors@.take(i + 1);
            assert(t.drop_last() =~= descriptors@.take(i as int));
            assert(t.last() == descriptors@[i as int]);
            assert(r@ =~= header + (spec_unmap_descriptors(descriptors@.take(i as int))
                + spec_unmap_descriptor(descriptors@[i as int])));
        }
        i += 1;
    }
    proof {
        assert(descriptors@.take(n as int) =~= descriptors@);
        lemma_unmap_descriptors_len(descriptors@);
        assert(r@ =~= spec_unmap_parameter_list(descriptors@));
    }
    r
}

/// The 10-byte Unmap command descriptor block: opcode, no anchor, group
/// number zero, big-endian parameter list length, control byte.
pub open spec fn spec_unmap_cdb(parameter_list_length: u16) -> Seq<u8> {
    seq![0x42u8, 0u8, 0u8, 0u8, 0u8, 0u8, 0u8] + spec_be16(parameter_list_length) + seq![0u8]
}

/// An Unmap command for one contiguous block range.
pub struct Unmap {
    pub unmap_logical_block_address: u64,
    pub number_of_logical_blocks: u32,
}

impl Unmap {
    pub fn new(unmap_logical_block_address: u64, number_of_logical_blocks: u32) -> (r: Unmap)
        ensures
            r.unmap_logical_block_address == unmap_logical_block_address,
            r.number_of_logical_blocks == number_of_logical_blocks,
    {
        Unmap { unmap_logical_block_address, number_of_logical_blocks }
    }

    /// The one descriptor this command carries.
    pub open spec fn spec_descriptors(&self) -> Seq<(u64, u32)> {
        seq![(self.unmap_logical_block_address, self.number_of_logical_blocks)]
    }
}

impl Command for Unmap {
    type ReturnType = crate::error::Result<()>;

    open spec fn spec_direction(&self) -> DataDirection {
        DataDirection::ToDevice
    }

    open spec fn spec_command(&self) -> Seq<u8> {
        spec_unmap_cdb(24)
    }

    open spec fn spec_data(&self) -> Seq<u8> {
        spec_unmap_parameter_list(self.spec_descriptors())
    }

    open spec fn spec_data_size(&self) -> u32 {
        24
    }

    open spec fn spec_sense_size(&self) -> nat {
        255
    }

    open spec fn result_spec(&self, result: &ResultData, r: Self::ReturnType) -> bool {
        if result.ioctl_result != 0 {
            r == Err::<(), Error>(Error::IO(result.os_error))
        } else {
            match r {
                Ok(()) => result.spec_nominal(),
                Err(e) => result.spec_status_failure(e),
            }
        }
    }

    fn get_direction(&self) -> (r: DataDirection) {
        DataDirection::ToDevice
    }

    fn get_command(&self) -> (r: Vec<u8>) {
        let mut cdb: Vec<u8> = Vec::new();
        cdb.push(0x42);
        push_zeros(&mut cdb, 6);
        push_be16(&mut cdb, 24);
        cdb.push(0);
        proof {
            assert(cdb@ =~= self.spec_command());
        }
        cdb
    }

    fn get_data(&self) -> (r: Vec<u8>) {
        let mut descriptors: Vec<(u64, u32)> = Vec::new();
        descriptors.push((self.unmap_logical_block_address, self.number_of_logical_blocks));
        let r = build_unmap_parameter_list(&descriptors);
        proof {
            assert(descriptors@ =~= self.spec_descriptors());
        }
        r
    }

    fn get_sense_buffer(&self) -> (r: Vec<u8>) {
        crate::sense::bytes_sense_buffer_value()
    }

    fn get_data_size(&self) -> (r: u32) {
        24
    }

    fn process_result(&self, result: &ResultData) -> (r: Self::ReturnType) {
        if let Err(e) = result.check_ioctl_error() {
            return Err(e);
        }
        if let Err(e) = result.check_common_error() {
            return Err(e);
        }
        Ok(())
    }
}

/// How many chunks the planner issues for a range of `count` blocks with
/// chunk limit `max`.
pub open spec fn spec_chunk_count(count: u64, max: u32) -> int {
    if count == 0 {
        0
    } else {
        (count - 1) / (max as int) + 1
    }
}

/// Splits the block range `[lba_offset, lba_offset + lba_count)` into
/// chunks issued in ascending order: every chunk but the last holds
/// exactly `max_unmap_lba` blocks, and the last holds the remainder, so
/// the chunks cover the range exactly, without overlap, and none exceeds
/// the device-advertised maximum.
pub fn plan_unmap_chunks(lba_offset: u64, lba_count: u64, max_unmap_lba: u32) -> (r: Vec<
    (u64, u32),
>)
    requires
        max_unmap_lba > 0,
        lba_offset + lba_count <= u64::MAX,
    ensures
        r@.len() == spec_chunk_count(lba_count, max_unmap_lba),
        forall|i: int|
            0 <= i < r@.len() ==> (#[trigger] r@[i]).0 == lba_offset + i * (max_unmap_lba as int),
        forall|i: int|
            0 <= i < r@.len() ==> (#[trigger] r@[i]).1 == if lba_count - i * (max_unmap_lba as int)
                < max_unmap_lba as int {
                lba_count - i * (max_unmap_lba as int)
            } else {
                max_unmap_lba as int
            },
{
    let mut r: Vec<(u64, u32)> = Vec::new();
    if lba_count == 0 {
        return r;
    }
    let m = max_unmap_lba as u64;
    let n = (lba_count - 1) / m + 1;
    proof {
        assert((lba_count - 1) / (m as int) * (m as int) <= lba_count - 1) by (nonlinear_arith)
            requires
                m > 0,
                lba_count > 0,
        ;
    }
    let mut i: u64 = 0;
    while i < n
        invariant
            m == max_unmap_lba as u64,
            0 < m <= u32::MAX,
            lba_count > 0,
            lba_offset + lba_count <= u64::MAX,
            n == (lba_count - 1) / (m as int) + 1,
            (n - 1) * (m as int) <= lba_count - 1,
            0 <= i <= n,
            r@.len() == i,
            forall|j: int|
                0 <= j < r@.len() ==> (#[trigger] r@[j]).0 == lba_offset + j * (m as int),
            forall|j: int|
                0 <= j < r@.len() ==> (#[trigger] r@[j]).1 == if lba_count - j * (m as int) < m
                    as int {
                    lba_count - j * (m as int)
                } else {
                    m as int
                },
        decreases n - i,
    {
        proof {
            assert((i as int) * (m as int) <= (n - 1) * (m as int)) by (nonlinear_arith)
                requires
                    0 <= i <= n - 1,
                    m > 0,
            ;
        }
        let used = i * m;
        let start = lba_offset + used;
        let remaining = lba_count - used;
        let size: u32 = if remaining < m {
            remaining as u32
        } else {
            max_unmap_lba
        };
        r.push((start, size));
        i += 1;
    }
    r
}

/// Sum of the block counts of a chunk sequence.
pub open spec fn spec_chunk_total(chunks: Seq<(u64, u32)>) -> int
    decreases chunks.len(),
{
    if chunks.len() == 0 {
        0
    } else {
        spec_chunk_total(chunks.drop_last()) + chunks.last().1
    }
}

proof fn lemma_full_chunk_prefix_total(chunks: Seq<(u64, u32)>, m: int, k: int)
    requires
        0 <= k <= chunks.len(),
        forall|j: int| 0 <= j < k ==> (#[trigger] chunks[j]).1 == m,
    ensures
        spec_chunk_total(chunks.take(k)) == k * m,
    decreases k,
{
    if k == 0 {
        assert(chunks.take(0) =~= Seq::<(u64, u32)>::empty());
    } else {
        lemma_full_chunk_prefix_total(chunks, m, k - 1);
        assert(chunks.take(k).drop_last() =~= chunks.take(k - 1));
        assert(chunks.take(k).last() == chunks[k - 1]);
        assert((k - 1) * m + m == k * m) by (nonlinear_arith);
    }
}

/// The chunks the planner returns exactly cover the requested range: they
/// start at the range's offset, each chunk begins where the previous one
/// ended, none is empty or exceeds the maximum, and the block counts sum
/// to the range's count.
pub proof fn lemma_unmap_chunks_cover(
    lba_offset: u64,
    lba_count: u64,
    max_unmap_lba: u32,
    chunks: Seq<(u64, u32)>,
)
    requires
        max_unmap_lba > 0,
        lba_offset + lba_count <= u64::MAX,
        chunks.len() == spec_chunk_count(lba_count, max_unmap_lba),
        forall|i: int|
            0 <= i < chunks.len() ==> (#[trigger] chunks[i]).0 == lba_offset + i * (max_unmap_lba
                as int),
        forall|i: int|
            0 <= i < chunks.len() ==> (#[trigger] chunks[i]).1 == if lba_count - i * (max_unmap_lba
                as int) < max_unmap_lba as int {
                lba_count - i * (max_unmap_lba as int)
            } else {
                max_unmap_lba as int
            },
    ensures
        spec_chunk_total(chunks) == lba_count,
        forall|i: int|
            0 <= i < chunks.len() ==> 0 < (#[trigger] chunks[i]).1 <= max_unmap_lba,
        forall|i: int|
            0 <= i < chunks.len() - 1 ==> (#[trigger] chunks[i]).0 + chunks[i].1 == chunks[i
                + 1].0,
        chunks.len() > 0 ==> chunks[0].0 == lba_offset,
        chunks.len() > 0 ==> chunks.last().0 + chunks.last().1 == lba_offset + lba_count,
{
    let m = max_unmap_lba as int;
    let n = chunks.len() as int;
    if lba_count == 0 {
        assert(chunks =~= Seq::<(u64, u32)>::empty());
    } else {
        assert(n == (lba_count - 1) / m + 1);
        assert((n - 1) * m <= lba_count - 1) by (nonlinear_arith)
            requires
                m > 0,
                lba_count > 0,
                n == (lba_count - 1) / m + 1,
        ;
        assert(lba_count - 1 < n * m) by (nonlinear_arith)
            requires
                m > 0,
                lba_count > 0,
                n == (lba_count - 1) / m + 1,
        ;
        // every chunk is non-empty and within the limit
        assert forall|i: int| 0 <= i < n implies 0 < (#[trigger] chunks[i]).1 <= max_unmap_lba by {
            assert(i * m <= (n - 1) * m) by (nonlinear_arith)
                requires
                    0 <= i <= n - 1,
                    m > 0,
            ;
        }
        // every chunk but the last is full
        assert forall|i: int| 0 <= i < n - 1 implies (#[trigger] chunks[i]).1 == m by {
            assert((i + 1) * m <= (n - 1) * m) by (nonlinear_arith)
                requires
                    0 <= i + 1 <= n - 1,
                    m > 0,
            ;
            assert(i * m + m == (i + 1) * m) by (nonlinear_arith);
        }
        // adjacency
        assert forall|i: int| 0 <= i < n - 1 implies (#[trigger] chunks[i]).0 + chunks[i].1
            == chunks[i + 1].0 by {
            assert(i * m + m == (i + 1) * m) by (nonlinear_arith);
        }
        // the total telescopes: all full chunks, then the remainder
        lemma_full_chunk_prefix_total(chunks, m, n - 1);
        assert(chunks.take(n - 1) =~= chunks.drop_last());
        assert(chunks.last() == chunks[n - 1]);
        assert(spec_chunk_total(chunks) == (n - 1) * m + chunks[n - 1].1);
        // the last chunk ends exactly at the end of the range
        let last_rem = lba_count - (n - 1) * m;
        assert(n * m == (n - 1) * m + m) by (nonlinear_arith);
        assert(last_rem <= m);
        assert(chunks[n - 1].1 == if last_rem < m {
            last_rem
        } else {
            m
        });
        assert(chunks[n - 1].1 == lba_count - (n - 1) * m);
        assert(chunks.last().0 + chunks.last().1 == lba_offset + lba_count);
    }
}

} // verus!
