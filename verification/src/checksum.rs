//! Trailing-checksum computation and verification for command frames.
//!
//! Every frame of the protocol ends in one checksum byte: the 8-bit wrapping
//! sum of all preceding bytes. The wraparound is deliberate; the device
//! firmware computes the same truncated sum on its side.

use vstd::prelude::*;

verus! {

/// Plain (unbounded) sum of the bytes of `s`.
pub open spec fn byte_sum(s: Seq<u8>) -> int
    decreases s.len(),
{
    if s.len() == 0 {
        0
    } else {
        byte_sum(s.drop_last()) + s.last()
    }
}

/// The checksum a frame ought to carry: the wrapping 8-bit sum of every byte
/// except the trailing checksum byte itself.
pub open spec fn checksum_of(frame: Seq<u8>) -> u8
    recommends
        frame.len() >= 1,
{
    (byte_sum(frame.take(frame.len() - 1)) % 256) as u8
}

/// A frame is well-checksummed iff its last byte equals the wrapping sum of
/// all the bytes before it.
pub open spec fn checksum_valid(frame: Seq<u8>) -> bool {
    &&& frame.len() >= 1
    &&& frame.last() == checksum_of(frame)
}

proof fn lemma_byte_sum_take_step(s: Seq<u8>, i: int)
    requires
        0 <= i < s.len(),
    ensures
        byte_sum(s.take(i + 1)) == byte_sum(s.take(i)) + s[i],
{
    assert(s.take(i + 1).drop_last() =~= s.take(i));
    assert(s.take(i + 1).last() == s[i]);
}

/// Overwrites the last byte of `command` with the wrapping 8-bit sum of all
/// preceding bytes, leaving those bytes untouched.
pub fn checksum(command: &mut Vec<u8>)
    requires
        old(command).len() >= 1,
    ensures
        final(command)@ == old(command)@.update(old(command)@.len() - 1, checksum_of(old(command)@)),
{
    let last_idx = command.len() - 1;
    let mut sum: u8 = 0;
    let mut i: usize = 0;
    while i < last_idx
        invariant
            command@ == old(command)@,
            command@.len() >= 1,
            last_idx == command@.len() - 1,
            i <= last_idx,
            sum == byte_sum(command@.take(i as int)) % 256,
        decreases last_idx - i,
    {
        let b = command[i];
        proof {
            lemma_byte_sum_take_step(command@, i as int);
            vstd::arithmetic::div_mod::lemma_add_mod_noop(
                byte_sum(command@.take(i as int)),
                b as int,
                256,
            );
        }
        sum = sum.wrapping_add(b);
        i += 1;
    }
    command.set(last_idx, sum);
}

/// Recomputes the wrapping 8-bit sum of every byte of `command` but the last,
/// and reports whether it matches the last byte.
pub fn verify(command: &[u8]) -> (r: bool)
    requires
        command@.len() >= 1,
    ensures
        r == checksum_valid(command@),
{
    let last_idx = command.len() - 1;
    let mut calculated_sum: u8 = 0;
    let mut i: usize = 0;
    while i < last_idx
        invariant
            command@.len() >= 1,
            last_idx == command@.len() - 1,
            i <= last_idx,
            calculated_sum == byte_sum(command@.take(i as int)) % 256,
        decreases last_idx - i,
    {
        let b = command[i];
        proof {
            lemma_byte_sum_take_step(command@, i as int);
            vstd::arithmetic::div_mod::lemma_add_mod_noop(
                byte_sum(command@.take(i as int)),
                b as int,
                256,
            );
        }
        calculated_sum = calculated_sum.wrapping_add(b);
        i += 1;
    }
    command[last_idx] == calculated_sum
}

/// Law: stamping the computed checksum into the last byte of any frame of
/// length at least one yields a frame that `verify` accepts.
pub proof fn lemma_checksum_round_trip(frame: Seq<u8>)
    requires
        frame.len() >= 1,
    ensures
        checksum_valid(frame.update(frame.len() - 1, checksum_of(frame))),
{
    let stamped = frame.update(frame.len() - 1, checksum_of(frame));
    assert(stamped.take(stamped.len() - 1) =~= frame.take(frame.len() - 1));
}

/// Law: replacing the checksum byte of a well-checksummed frame with any
/// different value yields a frame that `verify` rejects.
pub proof fn lemma_corrupted_checksum_rejected(frame: Seq<u8>, corrupted: u8)
    requires
        checksum_valid(frame),
        corrupted != frame.last(),
    ensures
        !checksum_valid(frame.update(frame.len() - 1, corrupted)),
{
    let bad = frame.update(frame.len() - 1, corrupted);
    assert(bad.take(bad.len() - 1) =~= frame.take(frame.len() - 1));
}

} // verus!
