//! Translation of compositor event lines into visibility signals.
//!
//! The fullscreen watcher reads newline-delimited event lines from the
//! compositor's control socket. A line that carries the fullscreen-enter
//! marker yields `true`, one that carries only the exit marker yields
//! `false`, and every other line yields nothing. The socket path and the
//! subscription command that the connection uses are fixed by the
//! compositor's control protocol and are produced here as well; the
//! socket I/O itself happens outside the library.

use vstd::prelude::*;
use vstd::string::StringExecFns;
use crate::text::{spec_contains, str_contains};

verus! {

/// The substring of an event line that marks a window entering fullscreen.
pub open spec fn enter_marker() -> Seq<char> {
    "fullscreen>>1"@
}

/// The substring of an event line that marks a window leaving fullscreen.
pub open spec fn exit_marker() -> Seq<char> {
    "fullscreen>>0"@
}

/// The signal an event line produces: `Some(true)` when the line carries
/// the enter marker, `Some(false)` when it carries only the exit marker,
/// and `None` for every other line.
pub open spec fn spec_classify(line: Seq<char>) -> Option<bool> {
    if spec_contains(line, enter_marker()) {
        Some(true)
    } else if spec_contains(line, exit_marker()) {
        Some(false)
    } else {
        None
    }
}

/// Classifies one event line from the control socket.
pub fn classify_event(line: &str) -> (signal: Option<bool>)
    ensures
        signal == spec_classify(line@),
{
    if str_contains(line, "fullscreen>>1") {
        Some(true)
    } else if str_contains(line, "fullscreen>>0") {
        Some(false)
    } else {
        None
    }
}

/// The control-socket path for a compositor instance signature.
pub open spec fn spec_socket_path(instance_signature: Seq<char>) -> Seq<char> {
    "/run/user/1000/hypr/"@ + instance_signature + "/.socket2.sock"@
}

/// Builds the control-socket path from the instance signature taken from
/// the environment.
pub fn socket_path(instance_signature: &str) -> (path: String)
    ensures
        path@ == spec_socket_path(instance_signature@),
{
    let mut path = String::from_str("/run/user/1000/hypr/");
    path.append(instance_signature);
    path.append("/.socket2.sock");
    path
}

/// The one command written to the control socket after connecting.
pub fn subscribe_command() -> (command: &'static str)
    ensures
        command@ == "subscribewindow\n"@,
{
    "subscribewindow\n"
}

} // verus!
