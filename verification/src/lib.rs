//! Device-side UART flashing protocol: checksummed fixed-length command
//! frames for erasing, writing and reading microcontroller flash, plus the
//! one-request/one-response serial exchange that carries them.

pub mod checksum;
pub mod commands;
pub mod frames;
pub mod response;
pub mod transport;

pub use checksum::verify;
pub use commands::command_eraseflash;
pub use commands::command_readflash;
pub use commands::command_writeflash;
pub use frames::build_erase;
pub use frames::build_read_chunk;
pub use frames::build_write_chunk;
pub use response::interpret_ack;
pub use response::interpret_read_block;
pub use transport::TransportError;
