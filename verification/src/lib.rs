//! Capture-session coordinator for a middle-button screenshot tool.
//!
//! A drag with the middle mouse button selects a screen region; the region
//! is captured, shown in a borderless overlay window, and on request run
//! through text recognition, with the result placed on the clipboard.
//! This crate holds the verified core: the geometry resolver that turns a
//! drag gesture into a normalized rectangle, the translator from raw input
//! events to semantic events, the pause toggle, the per-capture session
//! state machine, the registry of live sessions, and the event-loop driver
//! that routes events to them.  Platform work (the input hook, windows,
//! the screen capture, the recognition engine, the clipboard) stays outside
//! and communicates with this core through plain values.

pub mod driver;
pub mod event;
pub mod image;
pub mod input;
pub mod lens;
pub mod session;
pub mod windows;
