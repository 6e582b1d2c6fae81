//! A minimal desktop clock overlay for a Wayland compositor.
//!
//! The library holds the parts of the widget that compute: substring
//! scanning of compositor event lines, translation of those lines into
//! visibility signals, the visibility state machine that the UI timer
//! drives, session detection from environment values, and the
//! formatting of the clock text. The surrounding process (window
//! construction, socket I/O, timers) lives outside the library and
//! hands it plain values.

pub mod clock;
pub mod poller;
pub mod session;
pub mod text;
pub mod watcher;
