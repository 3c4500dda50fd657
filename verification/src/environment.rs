//! Detection of the session kind from what the process environment holds.
//!
//! The environment is read by the caller. The rules are these: a session is
//! a Wayland session where the platform has native Wayland support and
//! either the display variable is set to a non-empty value or the session
//! type variable is exactly `wayland`.

use vstd::prelude::*;

use crate::text::str_eq;

verus! {

/// Whether the values describe a Wayland session.
pub open spec fn wayland_session(
    native_wayland: bool,
    wayland_display: Option<Seq<char>>,
    session_type: Option<Seq<char>>,
) -> bool {
    native_wayland && ((wayland_display matches Some(display) && display.len() > 0) || session_type
        == Some("wayland"@))
}

/// The characters of an optional string slice.
pub open spec fn chars_of(value: Option<&str>) -> Option<Seq<char>> {
    match value {
        Some(value) => Some(value@),
        None => None,
    }
}

/// Decides whether the session is a Wayland session. `native_wayland` says
/// whether the platform has native Wayland support; the other two are the
/// values of the display variable and of the session type variable, `None`
/// where a variable is not set.
pub fn is_wayland_environment(
    native_wayland: bool,
    wayland_display: Option<&str>,
    session_type: Option<&str>,
) -> (wayland: bool)
    ensures
        wayland == wayland_session(native_wayland, chars_of(wayland_display), chars_of(session_type)),
{
    if !native_wayland {
        return false;
    }
    if let Some(display) = wayland_display {
        if !display.is_empty() {
            return true;
        }
    }
    if let Some(session) = session_type {
        if str_eq(session, "wayland") {
            return true;
        }
    }
    false
}

/// Whether watching through the Wayland backend can work: the session must
/// be a Wayland session and the paste stream must initialise. Outside a
/// Wayland session the stream need not be tried, whatever is passed for it
/// the answer is no.
pub fn is_wayland_clipboard_available(wayland_environment: bool, stream_initialised: bool) -> (available:
    bool)
    ensures
        available == (wayland_environment && stream_initialised),
{
    wayland_environment && stream_initialised
}

} // verus!
