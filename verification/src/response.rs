//! Interpretation of what the device sends back: a one-byte acknowledgement
//! for erase and write commands, and a 132-byte data block for read commands.

use vstd::prelude::*;
use crate::checksum::checksum_valid;
use crate::checksum::verify;

verus! {

/// The single byte with which the device acknowledges a command.
pub const ACK: u8 = 0x06;

/// The value of byte 1 of a read-data block that marks the end of the data.
pub const END_OF_DATA: u8 = 0xFF;

/// A read-data block yields its payload only when it is not the end-of-data
/// sentinel and its checksum holds.
pub open spec fn read_block_has_data(block: Seq<u8>) -> bool {
    &&& block[1] != 0xFF
    &&& checksum_valid(block)
}

/// Maps the device's one-byte reply to success or failure: only the
/// acknowledgement byte means success.
pub fn interpret_ack(response: u8) -> (r: bool)
    ensures
        r == (response == 0x06),
{
    response == ACK
}

/// Decodes a 132-byte read-data block. The end-of-data sentinel and a failed
/// checksum both yield no data; otherwise the 128-byte payload between the
/// header and the checksum byte is returned.
pub fn interpret_read_block(block: &[u8]) -> (r: Option<Vec<u8>>)
    requires
        block@.len() == 132,
    ensures
        r is Some <==> read_block_has_data(block@),
        r matches Some(data) ==> data@ == block@.subrange(3, 131),
{
    if block[1] == END_OF_DATA {
        // No more data
        return None;
    }
    if verify(block) {
        let data = vstd::slice::slice_to_vec(vstd::slice::slice_subrange(block, 3, 131));
        return Some(data);
    }
    None
}

} // verus!
