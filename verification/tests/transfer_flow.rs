use seqlink::crc::compute_crc16;
use seqlink::transfer::{
    on_byte, on_read_failure, start, Phase, TransferSession, ACK, EOT, NAK, READY_SENTINEL,
};
use seqlink::TransferError;

fn midi_payload(len: usize) -> Vec<u8> {
    let mut data = vec![0x4D, 0x54, 0x68, 0x64];
    while data.len() < len {
        data.push((data.len() % 251) as u8);
    }
    data
}

/// Drives a session to a terminal phase, answering every wait with the
/// byte the device sends on the happy path, and collects every
/// non-empty write.
fn run_accepted(name: &str, data: Vec<u8>) -> (Vec<Vec<u8>>, Phase) {
    let session = TransferSession::new(name.as_bytes().to_vec(), data).unwrap();
    let mut writes: Vec<Vec<u8>> = Vec::new();
    let mut step = start(&session);
    loop {
        if !step.send.is_empty() {
            writes.push(step.send.clone());
        }
        let phase = step.phase;
        step = match phase {
            Phase::Done | Phase::Failed { .. } => return (writes, phase),
            Phase::AwaitOpenResponse => on_byte(&session, phase, 0x0E),
            Phase::AwaitReadySentinel => on_byte(&session, phase, READY_SENTINEL),
            Phase::AwaitCompletion => on_byte(&session, phase, 0xD0),
            _ => on_byte(&session, phase, ACK),
        };
    }
}

fn check_block_shape(block: &[u8], seqno: u8) {
    assert_eq!(block.len(), 133);
    assert_eq!(block[0], 0x01);
    assert_eq!(block[1], seqno);
    assert_eq!(block[2], !seqno);
    let crc = compute_crc16(&block[3..131].to_vec());
    assert_eq!(block[131], (crc >> 8) as u8);
    assert_eq!(block[132], (crc & 0xFF) as u8);
}

#[test]
fn accepted_300_byte_transfer_sends_expected_wire() {
    let data = midi_payload(300);
    let (writes, phase) = run_accepted("song.mid", data.clone());
    assert_eq!(phase, Phase::Done);
    // size announcement, header, three data blocks, EOT, terminator, reply
    assert_eq!(writes.len(), 8);

    assert_eq!(writes[0], vec![0x2F, 0x2C, 0x01, 0x00]);

    let header = &writes[1];
    check_block_shape(header, 0);
    let mut expected = b"song.mid\0300\0".to_vec();
    expected.resize(128, 0);
    assert_eq!(&header[3..131], &expected[..]);

    for i in 0..3usize {
        let block = &writes[2 + i];
        check_block_shape(block, (i + 1) as u8);
    }
    assert_eq!(&writes[2][3..131], &data[0..128]);
    assert_eq!(&writes[3][3..131], &data[128..256]);
    // the final data block carries the remaining 44 bytes, zero-padded
    assert_eq!(&writes[4][3..47], &data[256..300]);
    assert!(writes[4][47..131].iter().all(|&b| b == 0));

    assert_eq!(writes[5], vec![EOT]);

    let terminator = &writes[6];
    check_block_shape(terminator, 0);
    assert!(terminator[3..131].iter().all(|&b| b == 0));

    assert_eq!(writes[7], vec![0xB0]);
}

#[test]
fn exact_multiple_of_block_size_has_no_padding() {
    let data = midi_payload(256);
    let (writes, phase) = run_accepted("a", data.clone());
    assert_eq!(phase, Phase::Done);
    // announcement, header, two data blocks, EOT, terminator, reply
    assert_eq!(writes.len(), 7);
    assert_eq!(&writes[3][3..131], &data[128..256]);
}

#[test]
fn block_count_is_ceiling_of_size_over_128() {
    let s = TransferSession::new(b"a".to_vec(), midi_payload(300)).unwrap();
    assert_eq!(s.block_count(), 3);
    let s = TransferSession::new(b"a".to_vec(), midi_payload(256)).unwrap();
    assert_eq!(s.block_count(), 2);
    let s = TransferSession::new(b"a".to_vec(), midi_payload(4)).unwrap();
    assert_eq!(s.block_count(), 1);
    let s = TransferSession::new(b"a".to_vec(), midi_payload(129)).unwrap();
    assert_eq!(s.block_count(), 2);
}

#[test]
fn sequence_numbers_wrap_modulo_256() {
    // 256 data blocks: the last one carries sequence number 0
    let data = midi_payload(255 * 128 + 1);
    let (writes, phase) = run_accepted("w", data);
    assert_eq!(phase, Phase::Done);
    assert_eq!(writes.len(), 1 + 1 + 256 + 1 + 1 + 1);
    for i in 0..256usize {
        let block = &writes[2 + i];
        let seqno = ((i + 1) % 256) as u8;
        assert_eq!(block[1], seqno);
        assert_eq!(block[2], !seqno);
    }
}

#[test]
fn session_rejects_invalid_input() {
    assert!(matches!(
        TransferSession::new(b"a".to_vec(), vec![1, 2, 3, 4, 5]),
        Err(TransferError::FormatError)
    ));
    assert!(matches!(
        TransferSession::new(b"a".to_vec(), vec![0x4D, 0x54]),
        Err(TransferError::FormatError)
    ));
    let long_name = vec![b'x'; 119];
    assert!(matches!(
        TransferSession::new(long_name, midi_payload(8)),
        Err(TransferError::FormatError)
    ));
    let nul_name = b"a\0b".to_vec();
    assert!(matches!(
        TransferSession::new(nul_name, midi_payload(8)),
        Err(TransferError::FormatError)
    ));
}

#[test]
fn rejected_handshake_fails_with_not_ready() {
    let s = TransferSession::new(b"a".to_vec(), midi_payload(8)).unwrap();
    let step = start(&s);
    let step = on_byte(&s, step.phase, 0x05);
    assert_eq!(step.phase, Phase::Failed { error: TransferError::NotReady });
    assert!(step.send.is_empty());
}

#[test]
fn ready_wait_skips_other_bytes() {
    let s = TransferSession::new(b"a".to_vec(), midi_payload(8)).unwrap();
    let step = start(&s);
    let step = on_byte(&s, step.phase, 0x0E);
    let step = on_byte(&s, step.phase, 0x00);
    assert_eq!(step.phase, Phase::AwaitReadySentinel);
    assert!(step.send.is_empty());
    let step = on_byte(&s, step.phase, READY_SENTINEL);
    assert_eq!(step.phase, Phase::AwaitHeaderAck { attempts: 0 });
    assert_eq!(step.send.len(), 133);
}

#[test]
fn nak_on_a_block_fails_the_whole_transfer() {
    let s = TransferSession::new(b"a".to_vec(), midi_payload(8)).unwrap();
    let step = start(&s);
    let step = on_byte(&s, step.phase, 0x0E);
    let step = on_byte(&s, step.phase, READY_SENTINEL);
    assert_eq!(step.phase, Phase::AwaitHeaderAck { attempts: 0 });
    let step = on_byte(&s, step.phase, NAK);
    assert_eq!(step.phase, Phase::Failed { error: TransferError::IoError });
    assert!(step.send.is_empty());
}

#[test]
fn retry_budget_resends_the_same_block() {
    let s = TransferSession::new(b"a".to_vec(), midi_payload(8))
        .unwrap()
        .with_retry_limit(1);
    let step = start(&s);
    let step = on_byte(&s, step.phase, 0x0E);
    let step = on_byte(&s, step.phase, READY_SENTINEL);
    let header = step.send.clone();
    assert_eq!(step.phase, Phase::AwaitHeaderAck { attempts: 0 });
    // one NAK: the header goes out again and the wait continues
    let step = on_byte(&s, step.phase, NAK);
    assert_eq!(step.phase, Phase::AwaitHeaderAck { attempts: 1 });
    assert_eq!(step.send, header);
    // the budget is spent: a second NAK fails the session
    let step = on_byte(&s, step.phase, NAK);
    assert_eq!(step.phase, Phase::Failed { error: TransferError::IoError });
    assert!(step.send.is_empty());
}

#[test]
fn retry_budget_covers_timeouts_on_block_waits() {
    let s = TransferSession::new(b"a".to_vec(), midi_payload(8))
        .unwrap()
        .with_retry_limit(2);
    let step = start(&s);
    let step = on_byte(&s, step.phase, 0x0E);
    let step = on_byte(&s, step.phase, READY_SENTINEL);
    let step = on_byte(&s, step.phase, ACK); // header acknowledged, block 1 out
    let block = step.send.clone();
    assert_eq!(step.phase, Phase::AwaitDataAck { index: 0, attempts: 0 });
    let step = on_read_failure(&s, step.phase);
    assert_eq!(step.phase, Phase::AwaitDataAck { index: 0, attempts: 1 });
    assert_eq!(step.send, block);
    // an ACK after the retransmission moves the transfer on
    let step = on_byte(&s, step.phase, ACK);
    assert_eq!(step.send, vec![EOT]);
}

#[test]
fn retried_transfer_still_completes() {
    let s = TransferSession::new(b"a".to_vec(), midi_payload(200))
        .unwrap()
        .with_retry_limit(1);
    let step = start(&s);
    let step = on_byte(&s, step.phase, 0x0E);
    let step = on_byte(&s, step.phase, READY_SENTINEL);
    let step = on_byte(&s, step.phase, ACK); // block 1 out
    let step = on_byte(&s, step.phase, NAK); // block 1 resent
    let step = on_byte(&s, step.phase, ACK); // block 2 out
    let step = on_byte(&s, step.phase, ACK); // EOT out
    let step = on_byte(&s, step.phase, ACK); // terminator out
    let step = on_byte(&s, step.phase, ACK);
    assert_eq!(step.phase, Phase::AwaitCompletion);
    let step = on_byte(&s, step.phase, 0xD0);
    assert_eq!(step.phase, Phase::Done);
    assert_eq!(step.send, vec![0xB0]);
}

#[test]
fn read_failure_sends_sentinel_only_in_handshakes() {
    let s = TransferSession::new(b"a".to_vec(), midi_payload(8)).unwrap();
    let step = on_read_failure(&s, Phase::AwaitOpenResponse);
    assert_eq!(step.phase, Phase::Failed { error: TransferError::Timeout });
    assert_eq!(step.send, vec![0xC0]);
    let step = on_read_failure(&s, Phase::AwaitCompletion);
    assert_eq!(step.send, vec![0xC0]);
    let step = on_read_failure(&s, Phase::AwaitHeaderAck { attempts: 0 });
    assert_eq!(step.phase, Phase::Failed { error: TransferError::Timeout });
    assert!(step.send.is_empty());
    let step = on_read_failure(&s, Phase::AwaitDataAck { index: 0, attempts: 0 });
    assert!(step.send.is_empty());
}

#[test]
fn failed_completion_report_replies_ack_error() {
    let s = TransferSession::new(b"a".to_vec(), midi_payload(8)).unwrap();
    let step = start(&s);
    let step = on_byte(&s, step.phase, 0x0E);
    let step = on_byte(&s, step.phase, READY_SENTINEL);
    let step = on_byte(&s, step.phase, ACK); // header acknowledged, block 1 out
    let step = on_byte(&s, step.phase, ACK); // block 1 acknowledged, EOT out
    assert_eq!(step.send, vec![EOT]);
    let step = on_byte(&s, step.phase, ACK); // EOT acknowledged, terminator out
    assert_eq!(step.send.len(), 133);
    let step = on_byte(&s, step.phase, ACK); // terminator acknowledged
    assert_eq!(step.phase, Phase::AwaitCompletion);
    let step = on_byte(&s, step.phase, 0xDC);
    assert_eq!(step.phase, Phase::Failed { error: TransferError::IncompleteTransfer });
    assert_eq!(step.send, vec![0xA0]);
}
