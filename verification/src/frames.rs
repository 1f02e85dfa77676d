//! Builders for the three fixed-layout request frames of the protocol:
//! erase (5 bytes), write-chunk (132 bytes) and read-chunk (4 bytes). Every
//! frame ends in the wrapping 8-bit checksum of its preceding bytes.

use vstd::prelude::*;
use crate::checksum::{byte_sum, checksum, checksum_valid, lemma_checksum_round_trip};

verus! {

/// Opcode of the whole-device erase command.
pub const OPCODE_ERASE: u8 = 0x39;

/// Opcode of the write-chunk command.
pub const OPCODE_WRITE: u8 = 0x57;

/// Opcode of the read-chunk command.
pub const OPCODE_READ: u8 = 0x52;

/// Fixed parameter byte carried by the erase frame.
pub const ERASE_PARAMETER: u8 = 0x55;

/// Each write or read exchange moves at most this many payload bytes.
pub const CHUNK_CAPACITY: usize = 128;

/// The one erase frame the protocol ever sends: opcode, two zero bytes, the
/// fixed parameter byte, and the checksum of those four.
pub open spec fn erase_frame() -> Seq<u8> {
    seq![0x39u8, 0x00u8, 0x00u8, 0x55u8, 0x8eu8]
}

/// How many payload bytes a write chunk at `offset` carries: everything that
/// remains of the firmware image, capped at the frame's 128-byte capacity.
pub open spec fn chunk_length(offset: int, firmware_len: int) -> int {
    if firmware_len - offset > 128 {
        128
    } else {
        firmware_len - offset
    }
}

/// A buffer of `len` zero bytes, ready to be filled in as a frame.
fn zero_frame(len: usize) -> (r: Vec<u8>)
    ensures
        r@.len() == len,
        forall|i: int| 0 <= i < len ==> r@[i] == 0u8,
{
    let mut buffer: Vec<u8> = Vec::new();
    let mut k: usize = 0;
    while k < len
        invariant
            k <= len,
            buffer@.len() == k,
            forall|i: int| 0 <= i < k ==> buffer@[i] == 0u8,
        decreases len - k,
    {
        buffer.push(0u8);
        k += 1;
    }
    buffer
}

/// Builds the 5-byte whole-device erase frame.
pub fn build_erase() -> (r: Vec<u8>)
    ensures
        r@ == erase_frame(),
        checksum_valid(r@),
{
    let mut command = zero_frame(5);
    command.set(0, OPCODE_ERASE);
    command.set(3, ERASE_PARAMETER);
    let ghost pre = command@;
    checksum(&mut command);
    proof {
        lemma_checksum_round_trip(pre);
        assert(pre.take(4) =~= seq![0x39u8, 0x00u8, 0x00u8, 0x55u8]);
        assert(byte_sum(seq![0x39u8, 0x00u8, 0x00u8, 0x55u8]) == 0x8e) by {
            reveal_with_fuel(byte_sum, 5);
            assert(seq![0x39u8, 0x00u8, 0x00u8, 0x55u8].drop_last() =~= seq![0x39u8, 0x00u8, 0x00u8]);
            assert(seq![0x39u8, 0x00u8, 0x00u8].drop_last() =~= seq![0x39u8, 0x00u8]);
            assert(seq![0x39u8, 0x00u8].drop_last() =~= seq![0x39u8]);
            assert(seq![0x39u8].drop_last() =~= Seq::<u8>::empty());
        }
        assert(command@ =~= erase_frame());
    }
    command
}

/// Builds the 132-byte write-chunk frame: opcode, big-endian offset, the next
/// chunk of the firmware image (zero-padded up to the 128-byte capacity), and
/// the checksum. The caller keeps `offset` inside the image and inside the
/// 16-bit address space of the device.
pub fn build_write_chunk(offset: usize, firmware: &[u8]) -> (r: Vec<u8>)
    requires
        offset <= firmware@.len(),
        offset <= 0xFFFF,
    ensures
        r@.len() == 132,
        r@[0] == OPCODE_WRITE,
        r@[1] == offset as int / 256,
        r@[2] == offset as int % 256,
        forall|i: int|
            3 <= i < 3 + chunk_length(offset as int, firmware@.len() as int) ==> #[trigger] r@[i]
                == firmware@[offset + i - 3],
        forall|i: int|
            3 + chunk_length(offset as int, firmware@.len() as int) <= i < 131 ==> #[trigger] r@[i]
                == 0u8,
        checksum_valid(r@),
{
    let mut command = zero_frame(132);
    command.set(0, OPCODE_WRITE);
    assert((offset >> 8) & 0xFF == offset / 256 && offset & 0xFF == offset % 256) by (bit_vector)
        requires
            offset <= 0xFFFF,
    ;
    command.set(1, ((offset >> 8) & 0xFF) as u8);
    command.set(2, (offset & 0xFF) as u8);
    let mut chunk_len: usize = firmware.len() - offset;
    if chunk_len > CHUNK_CAPACITY {
        chunk_len = CHUNK_CAPACITY;
    }
    let mut i: usize = 0;
    while i < chunk_len
        invariant
            offset <= 0xFFFF,
            offset + chunk_len <= firmware@.len(),
            chunk_len == chunk_length(offset as int, firmware@.len() as int),
            chunk_len <= 128,
            i <= chunk_len,
            command@.len() == 132,
            command@[0] == OPCODE_WRITE,
            command@[1] == offset as int / 256,
            command@[2] == offset as int % 256,
            forall|j: int| 3 <= j < 3 + i ==> #[trigger] command@[j] == firmware@[offset + j - 3],
            forall|j: int| 3 + i <= j < 131 ==> #[trigger] command@[j] == 0u8,
        decreases chunk_len - i,
    {
        let b = firmware[offset + i];
        command.set(3 + i, b);
        i += 1;
    }
    let ghost pre = command@;
    checksum(&mut command);
    proof {
        lemma_checksum_round_trip(pre);
    }
    command
}

/// Builds the 4-byte read-chunk frame: opcode, big-endian offset, checksum.
pub fn build_read_chunk(offset: u16) -> (r: Vec<u8>)
    ensures
        r@.len() == 4,
        r@[0] == OPCODE_READ,
        r@[1] == offset as int / 256,
        r@[2] == offset as int % 256,
        checksum_valid(r@),
{
    let mut command = zero_frame(4);
    command.set(0, OPCODE_READ);
    assert((offset >> 8) & 0xFF == offset / 256 && offset & 0xFF == offset % 256) by (bit_vector);
    command.set(1, ((offset >> 8) & 0xFF) as u8);
    command.set(2, (offset & 0xFF) as u8);
    let ghost pre = command@;
    checksum(&mut command);
    proof {
        lemma_checksum_round_trip(pre);
    }
    command
}

} // verus!
