use seqlink::telemetry::{
    decode_next, is_note_off, tempo_bpm, PlaybackEvent, TelemetrySession,
};

fn frame(b1: u8, b2: u8, b3: u8, b4: u8) -> Vec<u8> {
    vec![0x00, b1, b2, b3, b4]
}

#[test]
fn tempo_frame_decodes_to_500000_microseconds() {
    let f = frame(0x13, 0x07, 0xA1, 0x20);
    let e = decode_next(&f);
    assert_eq!(e, PlaybackEvent::TempoEvent { microseconds_per_beat: 500000 });
    assert_eq!(tempo_bpm(500000), Some(2));
}

#[test]
fn tempo_of_zero_is_rejected_not_divided() {
    assert_eq!(tempo_bpm(0), None);
    assert_eq!(tempo_bpm(1000000), Some(1));
}

#[test]
fn key_frame_velocity_zero_is_note_off() {
    let f = frame(0x03, 0x00, 60, 0);
    let e = decode_next(&f);
    assert_eq!(e, PlaybackEvent::KeyEvent { channel: 3, key: 60, velocity: 0 });
    assert!(is_note_off(&e));
}

#[test]
fn key_frame_velocity_127_is_note_on() {
    let f = frame(0x03, 0x00, 60, 127);
    let e = decode_next(&f);
    assert_eq!(e, PlaybackEvent::KeyEvent { channel: 3, key: 60, velocity: 127 });
    assert!(!is_note_off(&e));
}

#[test]
fn end_frame_decodes_to_end_event() {
    let f = frame(0x20, 0, 0, 0);
    assert_eq!(decode_next(&f), PlaybackEvent::EndEvent);
}

#[test]
fn nop_frame_decodes_to_nop_event() {
    let f = frame(0x35, 1, 2, 3);
    assert_eq!(decode_next(&f), PlaybackEvent::NopEvent);
}

#[test]
fn param_frame_decodes_sub_id_and_slot() {
    let f = frame(0x42, 0x53, 99, 0);
    assert_eq!(
        decode_next(&f),
        PlaybackEvent::ParamEvent { slot: 3, param_id: 5, value: 99 }
    );
}

#[test]
fn param_frame_with_large_sub_id_is_unknown() {
    let f = frame(0x42, 0x93, 99, 0);
    assert_eq!(decode_next(&f), PlaybackEvent::UnknownEvent { flag: 4 });
}

#[test]
fn skip_track_frame_decodes() {
    let f = frame(0x50, 0, 0, 0);
    assert_eq!(decode_next(&f), PlaybackEvent::SkipTrackEvent);
}

#[test]
fn unknown_flag_is_passed_through() {
    let f = frame(0x60, 0, 0, 0);
    assert_eq!(decode_next(&f), PlaybackEvent::UnknownEvent { flag: 6 });
    let f = frame(0xF1, 0, 0, 0);
    assert_eq!(decode_next(&f), PlaybackEvent::UnknownEvent { flag: 15 });
}

#[test]
fn session_stops_at_end_event() {
    let mut session = TelemetrySession::new();
    let key = frame(0x03, 0x00, 64, 80);
    assert_eq!(
        session.feed(&key),
        Some(PlaybackEvent::KeyEvent { channel: 3, key: 64, velocity: 80 })
    );
    assert!(!session.ended);
    assert_eq!(session.feed(&frame(0x20, 0, 0, 0)), Some(PlaybackEvent::EndEvent));
    assert!(session.ended);
    assert_eq!(session.feed(&key), None);
    assert!(session.ended);
    assert_eq!(session.feed(&frame(0x13, 0x07, 0xA1, 0x20)), None);
}

#[test]
fn session_swallows_nop_frames() {
    let mut session = TelemetrySession::new();
    assert_eq!(session.feed(&frame(0x30, 0, 0, 0)), None);
    assert!(!session.ended);
    assert_eq!(
        session.feed(&frame(0x50, 0, 0, 0)),
        Some(PlaybackEvent::SkipTrackEvent)
    );
}
