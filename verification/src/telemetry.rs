//! Decoder of the real-time telemetry stream.
//!
//! After a successful transfer the device emits fixed five-byte frames
//! describing playback.  Byte 0 is a reserved width marker and never
//! branches the decode; byte 1 packs the event flag in its high nibble
//! and a channel or slot identifier in its low nibble; bytes 2 to 4 are
//! payload whose meaning depends on the flag.
//!
//! On a failed frame read the session is over: the engine is fail-fast
//! and the surrounding application terminates the decode loop rather
//! than retrying.

use vstd::prelude::*;

verus! {

/// Number of raw bytes in one telemetry frame; partial frames are never
/// decoded.
pub const FRAME_LEN: usize = 5;

/// One structured playback event, decoded from a single frame.
#[derive(Clone, Copy, PartialEq, Eq, Structural, Debug)]
pub enum PlaybackEvent {
    /// Flag 0: a key press or release.  Velocity zero means note-off.
    KeyEvent { channel: u8, key: u8, velocity: u8 },
    /// Flag 1: a tempo change, in microseconds per quarter note, read
    /// big-endian from the three payload bytes.
    TempoEvent { microseconds_per_beat: u32 },
    /// Flag 2: end of the sequence; the decode loop stops here.
    EndEvent,
    /// Flag 3: no operation; nothing is forwarded.
    NopEvent,
    /// Flag 4: a synthesizer parameter change.  `param_id` names the
    /// parameter (0 to 7), `slot` its target, both from byte 2.
    ParamEvent { slot: u8, param_id: u8, value: u8 },
    /// Flag 5: skip to the next track.
    SkipTrackEvent,
    /// Any other flag: passed through raw.
    UnknownEvent { flag: u8 },
}

/// Event flag of a frame: high nibble of byte 1.
pub open spec fn frame_flag(f: Seq<u8>) -> u8 {
    f[1] >> 4
}

/// Channel or slot identifier of a frame: low nibble of byte 1.
pub open spec fn frame_channel(f: Seq<u8>) -> u8 {
    f[1] & 0x0F
}

/// 24-bit big-endian tempo value carried in bytes 2 to 4.
pub open spec fn frame_tempo_value(f: Seq<u8>) -> u32 {
    ((f[2] as u32) << 16) | ((f[3] as u32) << 8) | (f[4] as u32)
}

/// The event a five-byte frame decodes to.
pub open spec fn decoded_event(f: Seq<u8>) -> PlaybackEvent {
    let flag = frame_flag(f);
    if flag == 0 {
        PlaybackEvent::KeyEvent { channel: frame_channel(f), key: f[3], velocity: f[4] }
    } else if flag == 1 {
        PlaybackEvent::TempoEvent { microseconds_per_beat: frame_tempo_value(f) }
    } else if flag == 2 {
        PlaybackEvent::EndEvent
    } else if flag == 3 {
        PlaybackEvent::NopEvent
    } else if flag == 4 {
        if f[2] >> 4 <= 7 {
            PlaybackEvent::ParamEvent { slot: f[2] & 0x0F, param_id: f[2] >> 4, value: f[3] }
        } else {
            PlaybackEvent::UnknownEvent { flag: 4 }
        }
    } else if flag == 5 {
        PlaybackEvent::SkipTrackEvent
    } else {
        PlaybackEvent::UnknownEvent { flag: flag }
    }
}

/// Decodes one five-byte telemetry frame into its playback event.
pub fn decode_next(frame: &Vec<u8>) -> (r: PlaybackEvent)
    requires
        frame@.len() == 5,
    ensures
        r == decoded_event(frame@),
{
    let flag: u8 = frame[1] >> 4;
    let channel: u8 = frame[1] & 0x0F;
    if flag == 0 {
        PlaybackEvent::KeyEvent { channel, key: frame[3], velocity: frame[4] }
    } else if flag == 1 {
        let value: u32 = ((frame[2] as u32) << 16) | ((frame[3] as u32) << 8) | (frame[4] as u32);
        PlaybackEvent::TempoEvent { microseconds_per_beat: value }
    } else if flag == 2 {
        PlaybackEvent::EndEvent
    } else if flag == 3 {
        PlaybackEvent::NopEvent
    } else if flag == 4 {
        let sub_id: u8 = frame[2] >> 4;
        if sub_id <= 7 {
            PlaybackEvent::ParamEvent { slot: frame[2] & 0x0F, param_id: sub_id, value: frame[3] }
        } else {
            PlaybackEvent::UnknownEvent { flag: 4 }
        }
    } else if flag == 5 {
        PlaybackEvent::SkipTrackEvent
    } else {
        PlaybackEvent::UnknownEvent { flag }
    }
}

/// Beats per minute derived from a tempo event.  A zero tempo value is
/// rejected explicitly rather than divided by.
pub fn tempo_bpm(microseconds_per_beat: u32) -> (r: Option<u32>)
    ensures
        microseconds_per_beat == 0 ==> r is None,
        microseconds_per_beat > 0 ==> r == Some(1000000u32 / microseconds_per_beat),
{
    if microseconds_per_beat == 0 {
        None
    } else {
        Some(1000000 / microseconds_per_beat)
    }
}

/// Whether a key event is a note-off: velocity zero releases the key,
/// anything else strikes it.
pub fn is_note_off(event: &PlaybackEvent) -> (r: bool)
    ensures
        r == (event matches PlaybackEvent::KeyEvent { velocity, .. } && velocity == 0),
{
    match event {
        PlaybackEvent::KeyEvent { velocity, .. } => *velocity == 0,
        _ => false,
    }
}

/// One telemetry session: decodes frames until an end event arrives,
/// then ignores everything that follows.
pub struct TelemetrySession {
    /// Whether an end-of-sequence event has been decoded.
    pub ended: bool,
}

impl TelemetrySession {
    /// Opens a session that has seen no frames yet.
    pub fn new() -> (r: TelemetrySession)
        ensures
            !r.ended,
    {
        TelemetrySession { ended: false }
    }

    /// Feeds one frame to the session.  Returns the event to forward,
    /// or `None` when nothing is forwarded: after the end of the
    /// sequence, and for no-operation frames.  Once an end event has
    /// been decoded the session stays ended and emits nothing more.
    pub fn feed(&mut self, frame: &Vec<u8>) -> (r: Option<PlaybackEvent>)
        requires
            frame@.len() == 5,
        ensures
            old(self).ended ==> final(self).ended && r is None,
            !old(self).ended ==> final(self).ended == (decoded_event(frame@)
                == PlaybackEvent::EndEvent),
            !old(self).ended && decoded_event(frame@) == PlaybackEvent::NopEvent ==> r is None,
            !old(self).ended && decoded_event(frame@) != PlaybackEvent::NopEvent ==> r
                == Some(decoded_event(frame@)),
    {
        if self.ended {
            return None;
        }
        let event = decode_next(frame);
        match event {
            PlaybackEvent::EndEvent => {
                self.ended = true;
                Some(event)
            },
            PlaybackEvent::NopEvent => None,
            _ => Some(event),
        }
    }
}

} // verus!
