//! Serial protocol engine for a hardware music sequencer.
//!
//! The library owns the wire-level logic of the link: validation of the
//! input file format, CRC-16/CCITT block checksums, the handshake frames,
//! the chunked block-by-block file transfer, and the decoder that turns
//! raw telemetry frames into structured playback events.  All serial I/O
//! is performed by the surrounding application; the functions here map
//! plain bytes to plain bytes and carry contracts for every step.

use vstd::prelude::*;

pub mod block;
pub mod crc;
pub mod front;
pub mod handshake;
pub mod telemetry;
pub mod transfer;

verus! {

/// First four bytes every acceptable input file must carry.
pub const MAGIC_0: u8 = 0x4D;
pub const MAGIC_1: u8 = 0x54;
pub const MAGIC_2: u8 = 0x68;
pub const MAGIC_3: u8 = 0x64;

/// A byte buffer is an acceptable input file exactly when it is at least
/// four bytes long and opens with the magic sequence.
pub open spec fn valid_format(s: Seq<u8>) -> bool {
    s.len() >= 4 && s[0] == MAGIC_0 && s[1] == MAGIC_1 && s[2] == MAGIC_2 && s[3] == MAGIC_3
}

/// Why a session ended without success.  Every I/O or protocol fault
/// aborts the session at once: there is no retry, resumption or local
/// recovery anywhere in the engine.
#[derive(Clone, Copy, PartialEq, Eq, Structural, Debug)]
pub enum TransferError {
    /// The input buffer failed format validation.
    FormatError,
    /// The device rejected the handshake.
    NotReady,
    /// A read produced no byte within its configured bound.
    Timeout,
    /// The device reported a failed transfer after the last block.
    IncompleteTransfer,
    /// The transport itself failed, or the device broke protocol.
    IoError,
}

/// Gate for every transfer: true iff the buffer starts with the magic
/// sequence and is long enough to hold it.
pub fn validate(bytes: &Vec<u8>) -> (r: bool)
    ensures
        r == valid_format(bytes@),
{
    bytes.len() >= 4
        && bytes[0] == MAGIC_0
        && bytes[1] == MAGIC_1
        && bytes[2] == MAGIC_2
        && bytes[3] == MAGIC_3
}

} // verus!
