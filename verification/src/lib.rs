//! URAP: a compact binary request/response protocol for reading and writing a
//! bank of fixed-width registers over an arbitrary duplex byte stream.
//!
//! This crate holds the verified protocol engine: the CRC-8 checksum, the wire
//! codec for requests and responses, and the Secondary's decode/validate and
//! apply/respond steps, all as pure transforms over bytes. Carrying those
//! bytes over a concrete transport (a socket, a serial line) is left to the
//! embedding program.
use vstd::prelude::*;

mod cast;
pub mod crc8;
pub mod error;
pub mod laws;
pub mod nak;
pub mod packet;
pub mod primary;
pub mod secondary;
pub mod stdio;
pub mod wire;

pub use crc8::crc;
pub use crc8::spec_crc;
pub use error::Error;
pub use nak::NakCode;
pub use packet::UrapRecievedPacket;
pub use secondary::UrapSecondary;
pub use stdio::StdIo;

verus! {

/// Number of bytes in a register
pub const URAP_DATA_WIDTH: usize = 4;

/// Number of bytes in a CRC
pub const URAP_CRC_WIDTH: usize = 1;

/// Number of bytes when addressing a register via URAP
pub const URAP_REG_WIDTH: usize = 2;

/// Number of bytes in a count
pub const URAP_COUNT_WIDTH: usize = 1;

/// Number of bytes in a head byte
pub const URAP_HEAD_WIDTH: usize = URAP_COUNT_WIDTH;

/// Number of bytes in an ACK
pub const URAP_ACK_WIDTH: usize = 1;

/// Most significant bit signifying a write in URAP
pub const URAP_WRITE_OR: u8 = 0x80;

/// Maximum register count that can be accessed in a single packet
pub const URAP_COUNT_MAX: usize = 128;

/// Maximum amount of data in a packet
pub const URAP_MAX_DATA_SIZE: usize = URAP_DATA_WIDTH * URAP_COUNT_MAX;

/// Maximum size of a single packet
pub const URAP_MAX_PACKET_SIZE: usize = URAP_HEAD_WIDTH + URAP_REG_WIDTH + URAP_DATA_WIDTH
    * URAP_COUNT_MAX + URAP_CRC_WIDTH;

/// ACK byte, set to 0xAA due to its resilience to most natural interference
pub const ACK: u8 = 0xAA;

} // verus!
