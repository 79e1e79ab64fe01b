//! Notifications for the user-facing shell.
//!
//! The engine reports link state changes through small messages: a
//! text, and an optional numeric identifier for the notifications the
//! shell keys on.

use vstd::prelude::*;

verus! {

/// One message to the user-facing shell.
pub struct ToFrontMsg {
    /// Human-readable text of the notification.
    pub msg: String,
    /// Identifier of well-known notifications; `None` for free text.
    pub id: Option<u16>,
}

impl ToFrontMsg {
    /// Notification that the serial port opened.
    pub fn port_opened() -> (r: ToFrontMsg)
        ensures
            r.msg@ == "serial port opened"@,
            r.id == Some(1u16),
    {
        ToFrontMsg { msg: String::from_str("serial port opened"), id: Some(1) }
    }

    /// Notification that the serial port closed.
    pub fn port_closed() -> (r: ToFrontMsg)
        ensures
            r.msg@ == "serial port closed"@,
            r.id == Some(2u16),
    {
        ToFrontMsg { msg: String::from_str("serial port closed"), id: Some(2) }
    }
}

impl From<&str> for ToFrontMsg {
    /// A free-text message carries no identifier.
    fn from(msg: &str) -> (r: Self)
        ensures
            r.msg@ == msg@,
            r.id is None,
    {
        ToFrontMsg { msg: String::from_str(msg), id: None }
    }
}

impl vstd::std_specs::convert::FromSpecImpl<&str> for ToFrontMsg {
    open spec fn obeys_from_spec() -> bool {
        false
    }

    open spec fn from_spec(v: &str) -> ToFrontMsg {
        arbitrary()
    }
}

} // verus!
