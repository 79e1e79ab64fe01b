//! Handshake frames around the file transfer.
//!
//! Before any blocks move, the host announces the file size in a
//! four-byte control frame and waits for one response byte from the
//! device.  After the last block, the device reports completion in one
//! byte and the host acknowledges it.  Only the byte-level coding lives
//! here; the reads and writes themselves belong to the caller.

use vstd::prelude::*;

verus! {

/// Control byte opening the size-announcement frame.
pub const HANDSHAKE_CONTROL: u8 = 0x2F;

/// Reply sent when the device reports a completed transfer.
pub const ACK_OK: u8 = 0xB0;

/// Reply sent when the device reports a failed transfer.
pub const ACK_ERROR: u8 = 0xA0;

/// Sentinel sent to the device when a local read fails during a
/// handshake exchange.
pub const INCOMPLETE_SENTINEL: u8 = 0xC0;

/// The size-announcement frame: the control byte, then the file size as
/// a 24-bit little-endian unsigned integer.
pub open spec fn open_frame_bytes(size: nat) -> Seq<u8> {
    seq![
        HANDSHAKE_CONTROL,
        (size % 256) as u8,
        ((size / 256) % 256) as u8,
        ((size / 65536) % 256) as u8,
    ]
}

/// Whether a readiness response byte lets the transfer proceed: high
/// nibble 0x0 and low nibble 0xE.
pub open spec fn ready_accepts(b: u8) -> bool {
    b >> 4 == 0x0 && b & 0x0F == 0x0E
}

/// What the device's one-byte completion report means.
#[derive(Clone, Copy, PartialEq, Eq, Structural, Debug)]
pub enum CompletionStatus {
    /// High nibble 0xD, low nibble 0x0: the device accepted the whole file.
    Completed,
    /// Low nibble 0xC: the device reports an incomplete transfer.
    DeviceError,
    /// Any other byte.  The engine treats it as a failed transfer.
    Unexpected,
}

/// Meaning of a completion byte.
pub open spec fn completion_of(b: u8) -> CompletionStatus {
    if b >> 4 == 0xD && b & 0x0F == 0x0 {
        CompletionStatus::Completed
    } else if b & 0x0F == 0xC {
        CompletionStatus::DeviceError
    } else {
        CompletionStatus::Unexpected
    }
}

/// Builds the size-announcement frame for a file of `size` bytes.
/// Sizes must fit in 24 bits; larger files are out of contract.
pub fn make_open_frame(size: u32) -> (r: Vec<u8>)
    requires
        size < 0x1000000,
    ensures
        r@ == open_frame_bytes(size as nat),
        r@.len() == 4,
{
    let mut out: Vec<u8> = Vec::new();
    out.push(HANDSHAKE_CONTROL);
    out.push((size % 256) as u8);
    out.push(((size / 256) % 256) as u8);
    out.push(((size / 65536) % 256) as u8);
    proof {
        assert(out@ =~= open_frame_bytes(size as nat));
    }
    out
}

/// Interprets the device's readiness response: only a byte with high
/// nibble 0x0 and low nibble 0xE lets the transfer proceed.
pub fn parse_ready_response(b: u8) -> (r: bool)
    ensures
        r == ready_accepts(b),
        r == (b == 0x0E),
{
    proof {
        assert(ready_accepts(b) == (b == 0x0E)) by (bit_vector);
    }
    b == 0x0E
}

/// Interprets the device's post-transfer completion byte.
pub fn parse_completion(b: u8) -> (r: CompletionStatus)
    ensures
        r == completion_of(b),
{
    if b >> 4 == 0xD && b & 0x0F == 0x0 {
        CompletionStatus::Completed
    } else if b & 0x0F == 0xC {
        CompletionStatus::DeviceError
    } else {
        CompletionStatus::Unexpected
    }
}

/// The host's one-byte reply to a completion report: `ACK_OK` only for
/// a completed transfer, `ACK_ERROR` otherwise.
pub fn completion_reply(status: CompletionStatus) -> (r: u8)
    ensures
        (status == CompletionStatus::Completed) == (r == ACK_OK),
        (status != CompletionStatus::Completed) == (r == ACK_ERROR),
{
    match status {
        CompletionStatus::Completed => ACK_OK,
        CompletionStatus::DeviceError => ACK_ERROR,
        CompletionStatus::Unexpected => ACK_ERROR,
    }
}

} // verus!
