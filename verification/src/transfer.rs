//! The file-transfer engine.
//!
//! The engine is a state machine over single received bytes.  The
//! surrounding application owns the serial port and drives the machine:
//! it writes the bytes each step hands back, then performs one
//! timeout-bounded read and feeds the byte (or the read failure) to the
//! next step.  Every decision of the protocol stands here, verified;
//! no I/O happens in this module.
//!
//! By default a session never retries: one unexpected byte, one
//! missing acknowledgment or one read failure aborts the whole
//! transfer.  A session may instead carry a retry budget; each block
//! wait then retransmits its block that many times before the session
//! fails.  The handshake exchanges are never retried: a rejection or a
//! failed completion report is the device's answer, not a lost byte.

use vstd::prelude::*;
use crate::TransferError;
use crate::valid_format;
use crate::block::{
    data_block_count, dec_digits, data_block_bytes, header_block_bytes, terminator_block_bytes,
    make_data_block, make_header_block, make_terminator_block, lemma_chunk_start_in_file,
};
use crate::handshake::{
    open_frame_bytes, ready_accepts, completion_of, CompletionStatus, make_open_frame, ACK_OK,
    ACK_ERROR, INCOMPLETE_SENTINEL,
};

verus! {

/// Byte the device sends when it is ready to receive blocks.
pub const READY_SENTINEL: u8 = 0x43;

/// Acknowledgment byte the device sends after each accepted block.
pub const ACK: u8 = 0x06;

/// Negative acknowledgment.  Defined by the link; the engine treats it
/// like any other unexpected byte: a retransmission while the retry
/// budget lasts, a failed transfer once it is spent.
pub const NAK: u8 = 0x15;

/// End-of-transmission byte sent after the last data block.
pub const EOT: u8 = 0x04;

/// One file transfer: the validated source buffer and the file name
/// that the header block announces.
pub struct TransferSession {
    /// Bytes of the file being sent.
    pub data: Vec<u8>,
    /// File name placed nul-terminated at the start of the header block.
    pub name: Vec<u8>,
    /// How many times a block may be retransmitted after a missing or
    /// unexpected acknowledgment.  Zero: any such byte fails the
    /// session at once.
    pub retry_limit: u8,
}

/// Where the machine stands: which byte from the device it is waiting
/// for, or how the session ended.
#[derive(Clone, Copy, PartialEq, Eq, Structural, Debug)]
pub enum Phase {
    /// The size announcement is out; one response byte decides.
    AwaitOpenResponse,
    /// Waiting for the ready sentinel; other bytes are skipped.
    AwaitReadySentinel,
    /// The header block is out; waiting for its acknowledgment.
    /// `attempts` counts the retransmissions already spent on it.
    AwaitHeaderAck { attempts: u8 },
    /// Data block `index` is out; waiting for its acknowledgment.
    AwaitDataAck { index: usize, attempts: u8 },
    /// The end-of-transmission byte is out.
    AwaitEotAck { attempts: u8 },
    /// The terminator block is out.
    AwaitFinalAck { attempts: u8 },
    /// Waiting for the device's one-byte completion report.
    AwaitCompletion,
    /// The device confirmed the whole file.
    Done,
    /// The session aborted; nothing is retried or resumed.
    Failed { error: TransferError },
}

/// One step of the machine: the phase it moved to, and the bytes the
/// application must write before the next read.
pub struct EngineStep {
    /// Phase after this step.
    pub phase: Phase,
    /// Bytes to put on the wire now; possibly none.
    pub send: Vec<u8>,
}

impl TransferSession {
    /// A session the engine accepts: a validated buffer whose size fits
    /// the 24-bit announcement, and a name that leaves room in the
    /// 128-byte header payload and contains no nul byte.
    pub open spec fn wf(&self) -> bool {
        &&& valid_format(self.data@)
        &&& self.data@.len() < 0x1000000
        &&& self.name@.len() + dec_digits(self.data@.len()).len() + 2 <= 128
        &&& forall|k: int| 0 <= k < self.name@.len() ==> self.name@[k] != 0
    }

    /// Number of data blocks this session sends.
    pub open spec fn count(&self) -> nat {
        data_block_count(self.data@.len())
    }

    /// Builds a session that never retransmits, rejecting with
    /// `FormatError` any buffer that fails validation or cannot be
    /// announced, and any name that does not fit the header payload
    /// beside the longest possible size field, or contains a nul byte.
    pub fn new(name: Vec<u8>, data: Vec<u8>) -> (r: Result<TransferSession, TransferError>)
        ensures
            (r is Ok) == (valid_format(data@) && data@.len() < 0x1000000 && name@.len() <= 118
                && (forall|k: int| 0 <= k < name@.len() ==> name@[k] != 0)),
            r matches Ok(s) ==> s.wf() && s.data@ == data@ && s.name@ == name@ && s.retry_limit
                == 0,
            r matches Err(e) ==> e == TransferError::FormatError,
    {
        if !crate::validate(&data) {
            return Err(TransferError::FormatError);
        }
        if data.len() >= 0x1000000 {
            return Err(TransferError::FormatError);
        }
        if name.len() > 118 {
            return Err(TransferError::FormatError);
        }
        let mut k: usize = 0;
        while k < name.len()
            invariant
                k <= name@.len(),
                forall|j: int| 0 <= j < k ==> name@[j] != 0,
            decreases name@.len() - k,
        {
            if name[k] == 0 {
                return Err(TransferError::FormatError);
            }
            k = k + 1;
        }
        proof {
            crate::block::lemma_dec_digits_len_24bit(data@.len());
        }
        Ok(TransferSession { data, name, retry_limit: 0 })
    }

    /// The same session with a retransmission budget: each block may be
    /// resent `retry_limit` times before the session fails.
    pub fn with_retry_limit(self, retry_limit: u8) -> (r: TransferSession)
        ensures
            r.data@ == self.data@,
            r.name@ == self.name@,
            r.retry_limit == retry_limit,
            r.wf() == self.wf(),
    {
        TransferSession { retry_limit, ..self }
    }

    /// Number of data blocks, as the engine computes it.
    pub fn block_count(&self) -> (r: usize)
        requires
            self.data@.len() < 0x1000000,
        ensures
            r as nat == self.count(),
    {
        (self.data.len() + 127) / 128
    }
}

/// Whether a phase ends the session.
pub open spec fn phase_terminal(p: Phase) -> bool {
    p is Done || p is Failed
}

/// A phase the machine can actually stand in for session `s`: a data
/// acknowledgment is only awaited for a block that exists.
pub open spec fn phase_wf(s: &TransferSession, p: Phase) -> bool {
    p matches Phase::AwaitDataAck { index, .. } ==> (index as nat) < s.count()
}

/// The phase the machine moves to when byte `b` arrives in phase `p`.
pub open spec fn next_phase(s: &TransferSession, p: Phase, b: u8) -> Phase {
    match p {
        Phase::AwaitOpenResponse => if ready_accepts(b) {
            Phase::AwaitReadySentinel
        } else {
            Phase::Failed { error: TransferError::NotReady }
        },
        Phase::AwaitReadySentinel => if b == READY_SENTINEL {
            Phase::AwaitHeaderAck { attempts: 0 }
        } else {
            Phase::AwaitReadySentinel
        },
        Phase::AwaitHeaderAck { attempts } => if b == ACK {
            Phase::AwaitDataAck { index: 0, attempts: 0 }
        } else if attempts < s.retry_limit {
            Phase::AwaitHeaderAck { attempts: (attempts + 1) as u8 }
        } else {
            Phase::Failed { error: TransferError::IoError }
        },
        Phase::AwaitDataAck { index, attempts } => if b == ACK {
            if (index as nat) + 1 < s.count() {
                Phase::AwaitDataAck { index: (index + 1) as usize, attempts: 0 }
            } else {
                Phase::AwaitEotAck { attempts: 0 }
            }
        } else if attempts < s.retry_limit {
            Phase::AwaitDataAck { index, attempts: (attempts + 1) as u8 }
        } else {
            Phase::Failed { error: TransferError::IoError }
        },
        Phase::AwaitEotAck { attempts } => if b == ACK {
            Phase::AwaitFinalAck { attempts: 0 }
        } else if attempts < s.retry_limit {
            Phase::AwaitEotAck { attempts: (attempts + 1) as u8 }
        } else {
            Phase::Failed { error: TransferError::IoError }
        },
        Phase::AwaitFinalAck { attempts } => if b == ACK {
            Phase::AwaitCompletion
        } else if attempts < s.retry_limit {
            Phase::AwaitFinalAck { attempts: (attempts + 1) as u8 }
        } else {
            Phase::Failed { error: TransferError::IoError }
        },
        Phase::AwaitCompletion => if completion_of(b) == CompletionStatus::Completed {
            Phase::Done
        } else {
            Phase::Failed { error: TransferError::IncompleteTransfer }
        },
        Phase::Done => Phase::Done,
        Phase::Failed { error } => Phase::Failed { error },
    }
}

/// The bytes the machine puts on the wire when byte `b` arrives in
/// phase `p`.
pub open spec fn sent_on_byte(s: &TransferSession, p: Phase, b: u8) -> Seq<u8> {
    match p {
        Phase::AwaitOpenResponse => Seq::empty(),
        Phase::AwaitReadySentinel => if b == READY_SENTINEL {
            header_block_bytes(s.name@, s.data@.len())
        } else {
            Seq::empty()
        },
        Phase::AwaitHeaderAck { attempts } => if b == ACK {
            data_block_bytes(s.data@, 0)
        } else if attempts < s.retry_limit {
            header_block_bytes(s.name@, s.data@.len())
        } else {
            Seq::empty()
        },
        Phase::AwaitDataAck { index, attempts } => if b == ACK {
            if (index as nat) + 1 < s.count() {
                data_block_bytes(s.data@, index + 1)
            } else {
                seq![EOT]
            }
        } else if attempts < s.retry_limit {
            data_block_bytes(s.data@, index as int)
        } else {
            Seq::empty()
        },
        Phase::AwaitEotAck { attempts } => if b == ACK {
            terminator_block_bytes()
        } else if attempts < s.retry_limit {
            seq![EOT]
        } else {
            Seq::empty()
        },
        Phase::AwaitFinalAck { attempts } => if b == ACK {
            Seq::empty()
        } else if attempts < s.retry_limit {
            terminator_block_bytes()
        } else {
            Seq::empty()
        },
        Phase::AwaitCompletion => if completion_of(b) == CompletionStatus::Completed {
            seq![ACK_OK]
        } else {
            seq![ACK_ERROR]
        },
        Phase::Done => Seq::empty(),
        Phase::Failed { .. } => Seq::empty(),
    }
}

/// The phase the machine moves to when a read fails in phase `p`: a
/// block wait with retries left retransmits and keeps waiting; every
/// other wait fails with a timeout.
pub open spec fn next_phase_on_read_failure(s: &TransferSession, p: Phase) -> Phase {
    match p {
        Phase::AwaitHeaderAck { attempts } => if attempts < s.retry_limit {
            Phase::AwaitHeaderAck { attempts: (attempts + 1) as u8 }
        } else {
            Phase::Failed { error: TransferError::Timeout }
        },
        Phase::AwaitDataAck { index, attempts } => if attempts < s.retry_limit {
            Phase::AwaitDataAck { index, attempts: (attempts + 1) as u8 }
        } else {
            Phase::Failed { error: TransferError::Timeout }
        },
        Phase::AwaitEotAck { attempts } => if attempts < s.retry_limit {
            Phase::AwaitEotAck { attempts: (attempts + 1) as u8 }
        } else {
            Phase::Failed { error: TransferError::Timeout }
        },
        Phase::AwaitFinalAck { attempts } => if attempts < s.retry_limit {
            Phase::AwaitFinalAck { attempts: (attempts + 1) as u8 }
        } else {
            Phase::Failed { error: TransferError::Timeout }
        },
        _ => Phase::Failed { error: TransferError::Timeout },
    }
}

/// The bytes written when a read fails: the incomplete sentinel at the
/// two handshake exchanges, the retransmitted block at a block wait
/// with retries left, nothing elsewhere.
pub open spec fn sent_on_read_failure(s: &TransferSession, p: Phase) -> Seq<u8> {
    match p {
        Phase::AwaitOpenResponse => seq![INCOMPLETE_SENTINEL],
        Phase::AwaitCompletion => seq![INCOMPLETE_SENTINEL],
        Phase::AwaitHeaderAck { attempts } => if attempts < s.retry_limit {
            header_block_bytes(s.name@, s.data@.len())
        } else {
            Seq::empty()
        },
        Phase::AwaitDataAck { index, attempts } => if attempts < s.retry_limit {
            data_block_bytes(s.data@, index as int)
        } else {
            Seq::empty()
        },
        Phase::AwaitEotAck { attempts } => if attempts < s.retry_limit {
            seq![EOT]
        } else {
            Seq::empty()
        },
        Phase::AwaitFinalAck { attempts } => if attempts < s.retry_limit {
            terminator_block_bytes()
        } else {
            Seq::empty()
        },
        _ => Seq::empty(),
    }
}

/// The byte that keeps a session moving in phase `p`: the accepting
/// handshake response, the ready sentinel, the block acknowledgment, or
/// the successful completion report.
pub open spec fn accepting_byte(p: Phase) -> u8 {
    match p {
        Phase::AwaitOpenResponse => 0x0E,
        Phase::AwaitReadySentinel => READY_SENTINEL,
        Phase::AwaitCompletion => 0xD0,
        _ => ACK,
    }
}

/// Upper bound on the steps left before a run that is accepted at every
/// phase terminates; it shrinks at every accepted transition.
pub open spec fn run_measure(s: &TransferSession, p: Phase) -> nat {
    match p {
        Phase::AwaitOpenResponse => s.count() + 7,
        Phase::AwaitReadySentinel => s.count() + 6,
        Phase::AwaitHeaderAck { .. } => s.count() + 5,
        Phase::AwaitDataAck { index, .. } => 4 + (if (index as nat) < s.count() {
            (s.count() - (index as nat)) as nat
        } else {
            0
        }),
        Phase::AwaitEotAck { .. } => 3,
        Phase::AwaitFinalAck { .. } => 2,
        Phase::AwaitCompletion => 1,
        Phase::Done => 0,
        Phase::Failed { .. } => 0,
    }
}

/// The phase a session reaches from `p` when the device accepts every
/// remaining step.
pub open spec fn accepted_phase_from(s: &TransferSession, p: Phase) -> Phase
    decreases run_measure(s, p)
        when s.data@.len() < 0x1000000
{
    if phase_terminal(p) {
        p
    } else {
        accepted_phase_from(s, next_phase(s, p, accepting_byte(p)))
    }
}

/// Every byte a session writes from `p` on when the device accepts
/// every remaining step.
pub open spec fn accepted_wire_from(s: &TransferSession, p: Phase) -> Seq<u8>
    decreases run_measure(s, p)
        when s.data@.len() < 0x1000000
{
    if phase_terminal(p) {
        Seq::empty()
    } else {
        sent_on_byte(s, p, accepting_byte(p)) + accepted_wire_from(
            s,
            next_phase(s, p, accepting_byte(p)),
        )
    }
}

/// Concatenated wire bytes of data blocks `i` to the last one.
pub open spec fn data_blocks_wire(data: Seq<u8>, i: int) -> Seq<u8>
    decreases data_block_count(data.len()) - i,
{
    if i < 0 || i >= data_block_count(data.len()) {
        Seq::empty()
    } else {
        data_block_bytes(data, i) + data_blocks_wire(data, i + 1)
    }
}

/// Everything a fully acknowledged session writes after the size
/// announcement: the header block, every data block in order, the
/// end-of-transmission byte, the terminator block, and the ack-ok
/// reply to the completion report.
pub open spec fn accepted_session_wire(s: &TransferSession) -> Seq<u8> {
    header_block_bytes(s.name@, s.data@.len()) + data_blocks_wire(s.data@, 0) + seq![EOT]
        + terminator_block_bytes() + seq![ACK_OK]
}

/// The data segment of the wire holds exactly one 133-byte block per
/// data block: from block `i` on, its length is 133 times the number
/// of blocks left.
pub proof fn lemma_data_blocks_wire_len(data: Seq<u8>, i: int)
    requires
        0 <= i <= data_block_count(data.len()),
    ensures
        data_blocks_wire(data, i).len() == 133 * (data_block_count(data.len()) - i),
    decreases data_block_count(data.len()) - i,
{
    if i < data_block_count(data.len()) {
        lemma_data_blocks_wire_len(data, i + 1);
        assert(data_block_bytes(data, i).len() == 133);
    }
}

/// A validated session sends at least one data block.
pub proof fn lemma_count_at_least_one(s: &TransferSession)
    requires
        s.wf(),
    ensures
        s.count() >= 1,
{
    assert(s.data@.len() >= 4);
    assert((s.data@.len() + 127) / 128 >= 1) by (nonlinear_arith)
        requires
            s.data@.len() >= 4,
    ;
}

/// From the wait on data block `i`'s acknowledgment, a run accepted at
/// every step sends the remaining data blocks in order, then the
/// end-of-transmission byte, one terminator block, and the ack-ok
/// reply, and ends in `Done`.
pub proof fn lemma_accepted_run_from_data(s: &TransferSession, i: usize, a: u8)
    requires
        s.wf(),
        (i as nat) < s.count(),
    ensures
        accepted_phase_from(s, Phase::AwaitDataAck { index: i, attempts: a }) == Phase::Done,
        accepted_wire_from(s, Phase::AwaitDataAck { index: i, attempts: a }) == data_blocks_wire(
            s.data@,
            i + 1,
        ) + seq![EOT] + terminator_block_bytes() + seq![ACK_OK],
    decreases s.count() - i,
{
    let p = Phase::AwaitDataAck { index: i, attempts: a };
    assert(completion_of(0xD0) == CompletionStatus::Completed) by {
        assert(0xD0u8 >> 4 == 0xD && 0xD0u8 & 0x0F == 0x0) by (bit_vector);
    }
    if (i as nat) + 1 < s.count() {
        let j = (i + 1) as usize;
        lemma_accepted_run_from_data(s, j, 0);
        assert(next_phase(s, p, ACK) == Phase::AwaitDataAck { index: j, attempts: 0 });
        assert(accepted_wire_from(s, p) == data_block_bytes(s.data@, j as int)
            + accepted_wire_from(s, Phase::AwaitDataAck { index: j, attempts: 0 }));
        assert(data_blocks_wire(s.data@, i + 1) == data_block_bytes(s.data@, j as int)
            + data_blocks_wire(s.data@, j + 1));
        assert(accepted_wire_from(s, p) =~= data_blocks_wire(s.data@, i + 1) + seq![EOT]
            + terminator_block_bytes() + seq![ACK_OK]);
    } else {
        assert(next_phase(s, p, ACK) == Phase::AwaitEotAck { attempts: 0 });
        assert(sent_on_byte(s, p, ACK) == seq![EOT]);
        assert(next_phase(s, Phase::AwaitCompletion, 0xD0) == Phase::Done);
        assert(accepted_phase_from(s, Phase::Done) == Phase::Done);
        assert(accepted_phase_from(s, Phase::AwaitCompletion) == Phase::Done);
        assert(accepted_phase_from(s, Phase::AwaitFinalAck { attempts: 0 }) == Phase::Done);
        assert(accepted_phase_from(s, Phase::AwaitEotAck { attempts: 0 }) == Phase::Done);
        assert(accepted_wire_from(s, Phase::Done) =~= Seq::<u8>::empty());
        assert(accepted_wire_from(s, Phase::AwaitCompletion) =~= seq![ACK_OK]);
        assert(accepted_wire_from(s, Phase::AwaitFinalAck { attempts: 0 }) =~= seq![ACK_OK]);
        assert(accepted_wire_from(s, Phase::AwaitEotAck { attempts: 0 })
            =~= terminator_block_bytes() + seq![ACK_OK]);
        assert(data_blocks_wire(s.data@, i + 1) == Seq::<u8>::empty());
        assert(accepted_wire_from(s, p) =~= data_blocks_wire(s.data@, i + 1) + seq![EOT]
            + terminator_block_bytes() + seq![ACK_OK]);
    }
}

/// A fully acknowledged session, taken from the moment its size
/// announcement is out, writes exactly the header block, `count` data
/// blocks in order, the end-of-transmission byte, one terminator block
/// and the ack-ok reply, and ends in `Done`.
pub proof fn lemma_accepted_session(s: &TransferSession)
    requires
        s.wf(),
    ensures
        accepted_phase_from(s, Phase::AwaitOpenResponse) == Phase::Done,
        accepted_wire_from(s, Phase::AwaitOpenResponse) == accepted_session_wire(s),
{
    assert(ready_accepts(0x0E)) by (bit_vector);
    lemma_count_at_least_one(s);
    lemma_accepted_run_from_data(s, 0, 0);
    assert(next_phase(s, Phase::AwaitOpenResponse, 0x0E) == Phase::AwaitReadySentinel);
    assert(next_phase(s, Phase::AwaitReadySentinel, READY_SENTINEL) == Phase::AwaitHeaderAck {
        attempts: 0,
    });
    assert(next_phase(s, Phase::AwaitHeaderAck { attempts: 0 }, ACK) == Phase::AwaitDataAck {
        index: 0,
        attempts: 0,
    });
    assert(accepted_phase_from(s, Phase::AwaitHeaderAck { attempts: 0 }) == Phase::Done);
    assert(accepted_phase_from(s, Phase::AwaitReadySentinel) == Phase::Done);
    assert(accepted_phase_from(s, Phase::AwaitOpenResponse) == Phase::Done);
    assert(data_blocks_wire(s.data@, 0) == data_block_bytes(s.data@, 0) + data_blocks_wire(
        s.data@,
        1,
    ));
    assert(accepted_wire_from(s, Phase::AwaitHeaderAck { attempts: 0 }) == data_block_bytes(
        s.data@,
        0,
    ) + accepted_wire_from(s, Phase::AwaitDataAck { index: 0, attempts: 0 }));
    assert(accepted_wire_from(s, Phase::AwaitReadySentinel) == header_block_bytes(
        s.name@,
        s.data@.len(),
    ) + accepted_wire_from(s, Phase::AwaitHeaderAck { attempts: 0 }));
    assert(accepted_wire_from(s, Phase::AwaitOpenResponse) =~= accepted_wire_from(
        s,
        Phase::AwaitReadySentinel,
    ));
    assert(accepted_wire_from(s, Phase::AwaitOpenResponse) =~= accepted_session_wire(s));
}

/// Whether `p` waits for a block (or end-of-transmission)
/// acknowledgment.
pub open spec fn is_block_wait(p: Phase) -> bool {
    ||| p matches Phase::AwaitHeaderAck { .. }
    ||| p matches Phase::AwaitDataAck { .. }
    ||| p matches Phase::AwaitEotAck { .. }
    ||| p matches Phase::AwaitFinalAck { .. }
}

/// Retransmissions already spent in a block wait.
pub open spec fn attempts_of(p: Phase) -> u8 {
    match p {
        Phase::AwaitHeaderAck { attempts } => attempts,
        Phase::AwaitDataAck { attempts, .. } => attempts,
        Phase::AwaitEotAck { attempts } => attempts,
        Phase::AwaitFinalAck { attempts } => attempts,
        _ => 0,
    }
}

/// The bytes whose acknowledgment a block wait is waiting for.
pub open spec fn awaited_bytes(s: &TransferSession, p: Phase) -> Seq<u8> {
    match p {
        Phase::AwaitHeaderAck { .. } => header_block_bytes(s.name@, s.data@.len()),
        Phase::AwaitDataAck { index, .. } => data_block_bytes(s.data@, index as int),
        Phase::AwaitEotAck { .. } => seq![EOT],
        Phase::AwaitFinalAck { .. } => terminator_block_bytes(),
        _ => Seq::empty(),
    }
}

/// Success is never reached around the protocol: the machine lands in
/// `Done` only from the completion wait on a successful report, and a
/// block wait whose retry budget is spent fails the session on
/// anything but the ACK byte.
pub proof fn lemma_done_needs_acceptance(s: &TransferSession, p: Phase, b: u8)
    requires
        !phase_terminal(p),
    ensures
        next_phase(s, p, b) == Phase::Done ==> p == Phase::AwaitCompletion && completion_of(b)
            == CompletionStatus::Completed,
        is_block_wait(p) && b != ACK && attempts_of(p) >= s.retry_limit ==> next_phase(s, p, b)
            == (Phase::Failed { error: TransferError::IoError }),
{
}

/// With the default zero retry budget, a single unexpected byte at any
/// block wait fails the whole transfer: nothing is retransmitted.
pub proof fn lemma_no_retransmission_by_default(s: &TransferSession, p: Phase, b: u8)
    requires
        s.retry_limit == 0,
        is_block_wait(p),
        b != ACK,
    ensures
        next_phase(s, p, b) == (Phase::Failed { error: TransferError::IoError }),
        sent_on_byte(s, p, b) == Seq::<u8>::empty(),
{
}

/// A block wait with retries left answers an unexpected byte by
/// putting exactly the awaited bytes on the wire again and staying on
/// the same block, with one more attempt recorded.
pub proof fn lemma_retry_resends_awaited_bytes(s: &TransferSession, p: Phase, b: u8)
    requires
        is_block_wait(p),
        b != ACK,
        attempts_of(p) < s.retry_limit,
    ensures
        sent_on_byte(s, p, b) == awaited_bytes(s, p),
        is_block_wait(next_phase(s, p, b)),
        attempts_of(next_phase(s, p, b)) == attempts_of(p) + 1,
        awaited_bytes(s, next_phase(s, p, b)) == awaited_bytes(s, p),
{
}

/// Opens a session: announces the file size and waits for the device's
/// response.
pub fn start(s: &TransferSession) -> (r: EngineStep)
    requires
        s.wf(),
    ensures
        r.phase == Phase::AwaitOpenResponse,
        r.send@ == open_frame_bytes(s.data@.len()),
        phase_wf(s, r.phase),
{
    let size: u32 = s.data.len() as u32;
    EngineStep { phase: Phase::AwaitOpenResponse, send: make_open_frame(size) }
}

/// Feeds one received byte to the machine.
pub fn on_byte(s: &TransferSession, p: Phase, b: u8) -> (r: EngineStep)
    requires
        s.wf(),
        phase_wf(s, p),
        !phase_terminal(p),
    ensures
        r.phase == next_phase(s, p, b),
        r.send@ == sent_on_byte(s, p, b),
        phase_wf(s, r.phase),
{
    match p {
        Phase::AwaitOpenResponse => {
            if b == 0x0E {
                proof {
                    assert(ready_accepts(b)) by (bit_vector)
                        requires
                            b == 0x0E,
                    ;
                }
                EngineStep { phase: Phase::AwaitReadySentinel, send: Vec::new() }
            } else {
                proof {
                    assert(!ready_accepts(b)) by (bit_vector)
                        requires
                            b != 0x0E,
                    ;
                }
                EngineStep {
                    phase: Phase::Failed { error: TransferError::NotReady },
                    send: Vec::new(),
                }
            }
        },
        Phase::AwaitReadySentinel => {
            if b == READY_SENTINEL {
                let header = make_header_block(&s.name, s.data.len() as u32);
                EngineStep { phase: Phase::AwaitHeaderAck { attempts: 0 }, send: header }
            } else {
                EngineStep { phase: Phase::AwaitReadySentinel, send: Vec::new() }
            }
        },
        Phase::AwaitHeaderAck { attempts } => {
            if b == ACK {
                proof {
                    lemma_chunk_start_in_file(s.data@.len(), 0);
                }
                let block = make_data_block(&s.data, 0);
                EngineStep { phase: Phase::AwaitDataAck { index: 0, attempts: 0 }, send: block }
            } else if attempts < s.retry_limit {
                let header = make_header_block(&s.name, s.data.len() as u32);
                EngineStep { phase: Phase::AwaitHeaderAck { attempts: attempts + 1 }, send: header }
            } else {
                EngineStep {
                    phase: Phase::Failed { error: TransferError::IoError },
                    send: Vec::new(),
                }
            }
        },
        Phase::AwaitDataAck { index, attempts } => {
            if b == ACK {
                let count = s.block_count();
                if index + 1 < count {
                    proof {
                        lemma_chunk_start_in_file(s.data@.len(), index + 1);
                    }
                    let block = make_data_block(&s.data, index + 1);
                    EngineStep {
                        phase: Phase::AwaitDataAck { index: index + 1, attempts: 0 },
                        send: block,
                    }
                } else {
                    let mut send: Vec<u8> = Vec::new();
                    send.push(EOT);
                    proof {
                        assert(send@ =~= seq![EOT]);
                    }
                    EngineStep { phase: Phase::AwaitEotAck { attempts: 0 }, send }
                }
            } else if attempts < s.retry_limit {
                proof {
                    lemma_chunk_start_in_file(s.data@.len(), index as int);
                }
                let block = make_data_block(&s.data, index);
                EngineStep {
                    phase: Phase::AwaitDataAck { index, attempts: attempts + 1 },
                    send: block,
                }
            } else {
                EngineStep {
                    phase: Phase::Failed { error: TransferError::IoError },
                    send: Vec::new(),
                }
            }
        },
        Phase::AwaitEotAck { attempts } => {
            if b == ACK {
                let terminator = make_terminator_block();
                EngineStep { phase: Phase::AwaitFinalAck { attempts: 0 }, send: terminator }
            } else if attempts < s.retry_limit {
                let mut send: Vec<u8> = Vec::new();
                send.push(EOT);
                proof {
                    assert(send@ =~= seq![EOT]);
                }
                EngineStep { phase: Phase::AwaitEotAck { attempts: attempts + 1 }, send }
            } else {
                EngineStep {
                    phase: Phase::Failed { error: TransferError::IoError },
                    send: Vec::new(),
                }
            }
        },
        Phase::AwaitFinalAck { attempts } => {
            if b == ACK {
                EngineStep { phase: Phase::AwaitCompletion, send: Vec::new() }
            } else if attempts < s.retry_limit {
                let terminator = make_terminator_block();
                EngineStep {
                    phase: Phase::AwaitFinalAck { attempts: attempts + 1 },
                    send: terminator,
                }
            } else {
                EngineStep {
                    phase: Phase::Failed { error: TransferError::IoError },
                    send: Vec::new(),
                }
            }
        },
        Phase::AwaitCompletion => {
            let status = crate::handshake::parse_completion(b);
            let reply = crate::handshake::completion_reply(status);
            let mut send: Vec<u8> = Vec::new();
            send.push(reply);
            if matches!(status, CompletionStatus::Completed) {
                proof {
                    assert(send@ =~= seq![ACK_OK]);
                }
                EngineStep { phase: Phase::Done, send }
            } else {
                proof {
                    assert(send@ =~= seq![ACK_ERROR]);
                }
                EngineStep {
                    phase: Phase::Failed { error: TransferError::IncompleteTransfer },
                    send,
                }
            }
        },
        Phase::Done => EngineStep { phase: Phase::Done, send: Vec::new() },
        Phase::Failed { error } => EngineStep { phase: Phase::Failed { error }, send: Vec::new() },
    }
}

/// Tells the machine that a read produced no byte.  A block wait with
/// retries left retransmits its block and keeps waiting; every other
/// wait fails with a timeout, and during a handshake exchange the
/// incomplete sentinel goes out first.
pub fn on_read_failure(s: &TransferSession, p: Phase) -> (r: EngineStep)
    requires
        s.wf(),
        phase_wf(s, p),
        !phase_terminal(p),
    ensures
        r.phase == next_phase_on_read_failure(s, p),
        r.send@ == sent_on_read_failure(s, p),
        phase_wf(s, r.phase),
{
    match p {
        Phase::AwaitHeaderAck { attempts } if attempts < s.retry_limit => {
            let header = make_header_block(&s.name, s.data.len() as u32);
            EngineStep { phase: Phase::AwaitHeaderAck { attempts: attempts + 1 }, send: header }
        },
        Phase::AwaitDataAck { index, attempts } if attempts < s.retry_limit => {
            proof {
                lemma_chunk_start_in_file(s.data@.len(), index as int);
            }
            let block = make_data_block(&s.data, index);
            EngineStep { phase: Phase::AwaitDataAck { index, attempts: attempts + 1 }, send: block }
        },
        Phase::AwaitEotAck { attempts } if attempts < s.retry_limit => {
            let mut send: Vec<u8> = Vec::new();
            send.push(EOT);
            proof {
                assert(send@ =~= seq![EOT]);
            }
            EngineStep { phase: Phase::AwaitEotAck { attempts: attempts + 1 }, send }
        },
        Phase::AwaitFinalAck { attempts } if attempts < s.retry_limit => {
            let terminator = make_terminator_block();
            EngineStep { phase: Phase::AwaitFinalAck { attempts: attempts + 1 }, send: terminator }
        },
        _ => {
            let sentinel = matches!(p, Phase::AwaitOpenResponse | Phase::AwaitCompletion);
            let mut send: Vec<u8> = Vec::new();
            if sentinel {
                send.push(INCOMPLETE_SENTINEL);
                proof {
                    assert(send@ =~= seq![INCOMPLETE_SENTINEL]);
                }
            }
            EngineStep { phase: Phase::Failed { error: TransferError::Timeout }, send }
        },
    }
}

} // verus!
