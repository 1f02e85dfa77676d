//! The serial transport: one write-then-read exchange per command, over a
//! port opened at the protocol's fixed baud rate with a bounded read timeout.
//!
//! The port itself belongs to the serialport5 crate; the few calls into it
//! stand behind trusted wrappers whose contracts state no more than that
//! crate's documented behaviour.

use vstd::prelude::*;

verus! {

/// Symbol rate of the serial link, fixed by the device firmware.
pub const BAUD_RATE: u32 = 115200;

/// How many seconds one read may wait before the exchange counts as failed.
pub const READ_TIMEOUT_SECS: u64 = 1;

/// The serial exchange itself failed: the frame could not be written in
/// full, or the expected response bytes did not arrive within the read
/// timeout. Distinct from a negative acknowledgement, which is a complete,
/// well-formed response.
#[derive(Debug, Clone, Copy, PartialEq, Eq, Structural)]
pub struct TransportError;

#[verifier::external_type_specification]
#[verifier::external_body]
pub struct ExSerialPort(serialport5::SerialPort);

/// Relies on serialport5::SerialPortBuilder (baud_rate, read_timeout, open):
/// opens the named port at the given baud rate with the given read timeout
/// and the port defaults elsewhere. An unopenable port is an unrecoverable
/// environment fault, so this call panics on it rather than returning.
#[verifier::external_body]
pub(crate) fn open_port(port: &String, baud_rate: u32, read_timeout_secs: u64) -> serialport5::SerialPort {
    serialport5::SerialPort::builder()
        .baud_rate(baud_rate)
        .read_timeout(Some(std::time::Duration::from_secs(read_timeout_secs)))
        .open(port)
        .expect("Failed to open port")
}

/// Relies on std::io::Write::write_all for serialport5::SerialPort: it
/// returns Ok only once the whole buffer has been written, and any write
/// error surfaces here as a transport error.
#[verifier::external_body]
pub(crate) fn write_frame(port: &mut serialport5::SerialPort, frame: &Vec<u8>) -> (r: Result<
    (),
    TransportError,
>) {
    match std::io::Write::write_all(port, frame.as_slice()) {
        Ok(()) => Ok(()),
        Err(_) => Err(TransportError),
    }
}

/// Relies on std::io::Read::read_exact for serialport5::SerialPort: on Ok it
/// has filled the whole buffer, so the returned response holds exactly `len`
/// bytes; a short read, a timeout included, surfaces as a transport error.
#[verifier::external_body]
pub(crate) fn read_response(port: &mut serialport5::SerialPort, len: usize) -> (r: Result<
    Vec<u8>,
    TransportError,
>)
    ensures
        r matches Ok(response) ==> response@.len() == len,
{
    let mut response = vec![0u8; len];
    match std::io::Read::read_exact(port, response.as_mut_slice()) {
        Ok(()) => Ok(response),
        Err(_) => Err(TransportError),
    }
}

} // verus!
