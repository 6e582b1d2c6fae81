//! Session detection from environment values.
//!
//! The overlay behaviour (layer-shell anchoring and the fullscreen
//! watcher) is enabled only on a Wayland session. The decision is a pure
//! function of the `XDG_SESSION_TYPE` and `WAYLAND_DISPLAY` environment
//! values, which the process reads and hands in as plain strings.

use vstd::prelude::*;
use crate::text::{spec_contains, str_contains};

verus! {

/// The session is treated as Wayland when the session type names it, or
/// when a Wayland display is set and the session type does not name X11.
pub open spec fn spec_detect_wayland(session_type: Seq<char>, wayland_display: Seq<char>) -> bool {
    spec_contains(session_type, "wayland"@) || (wayland_display.len() > 0 && !spec_contains(
        session_type,
        "x11"@,
    ))
}

/// Decides whether the process runs under a Wayland session, from the
/// values of `XDG_SESSION_TYPE` and `WAYLAND_DISPLAY` (empty when unset).
pub fn detect_wayland(session_type: &str, wayland_display: &str) -> (wayland: bool)
    ensures
        wayland == spec_detect_wayland(session_type@, wayland_display@),
{
    if str_contains(session_type, "wayland") {
        true
    } else {
        !wayland_display.is_empty() && !str_contains(session_type, "x11")
    }
}

} // verus!
