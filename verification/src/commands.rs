//! The three commands of the flashing protocol. Each call builds its frame,
//! opens its own serial session, performs one write-then-read exchange, and
//! interprets the raw response. What the device answers depends on the device
//! alone, so the exact meaning of each response byte is pinned down in the
//! interpreters; here the contracts state what holds of every outcome.

use vstd::prelude::*;
use crate::frames::{build_erase, build_read_chunk, build_write_chunk};
use crate::response::{interpret_ack, interpret_read_block};
use crate::transport::{open_port, read_response, write_frame, TransportError, BAUD_RATE, READ_TIMEOUT_SECS};

verus! {

/// Sends the whole-device erase frame and reports whether the device
/// acknowledged it. An error is a transport failure, never a negative
/// acknowledgement; panics only if the named port cannot be opened.
pub fn command_eraseflash(port: &String) -> (r: Result<bool, TransportError>) {
    let command = build_erase();

    let mut serial = open_port(port, BAUD_RATE, READ_TIMEOUT_SECS);
    match write_frame(&mut serial, &command) {
        Ok(()) => {},
        Err(e) => {
            return Err(e);
        },
    }

    match read_response(&mut serial, 1) {
        Ok(buffer) => Ok(interpret_ack(buffer[0])),
        Err(e) => Err(e),
    }
}

/// Sends one write-chunk frame carrying the firmware bytes at `offset` and
/// reports whether the device acknowledged it. The caller keeps `offset`
/// inside the image and the 16-bit address space; chunking past the end of
/// the image is a caller error, not a protocol outcome.
pub fn command_writeflash(port: &String, offset: usize, firmware: &[u8]) -> (r: Result<
    bool,
    TransportError,
>)
    requires
        offset <= firmware@.len(),
        offset <= 0xFFFF,
{
    let command = build_write_chunk(offset, firmware);

    let mut serial = open_port(port, BAUD_RATE, READ_TIMEOUT_SECS);
    match write_frame(&mut serial, &command) {
        Ok(()) => {},
        Err(e) => {
            return Err(e);
        },
    }

    match read_response(&mut serial, 1) {
        Ok(buffer) => Ok(interpret_ack(buffer[0])),
        Err(e) => Err(e),
    }
}

/// Sends one read-chunk frame for `offset` and decodes the 132-byte answer:
/// the 128-byte payload when the block carries data and its checksum holds,
/// and no data on the end-of-data sentinel or a corrupt block.
pub fn command_readflash(port: &String, offset: u16) -> (r: Result<Option<Vec<u8>>, TransportError>)
    ensures
        r matches Ok(Some(data)) ==> data@.len() == 128,
{
    let command = build_read_chunk(offset);

    let mut serial = open_port(port, BAUD_RATE, READ_TIMEOUT_SECS);
    match write_frame(&mut serial, &command) {
        Ok(()) => {},
        Err(e) => {
            return Err(e);
        },
    }

    match read_response(&mut serial, 132) {
        Ok(block) => Ok(interpret_read_block(block.as_slice())),
        Err(e) => Err(e),
    }
}

} // verus!
