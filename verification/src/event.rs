//! Semantic events consumed by the single-threaded event loop.

use vstd::prelude::*;

verus! {

/// The event vocabulary of the coordinator.  `Start`, `Move`, `End`,
/// `Pause` and `Resume` come from the input translator; `Close` and
/// `Redraw` come from the window surface, carrying an opaque window
/// identifier.
#[derive(Clone, Copy, Debug, PartialEq, Eq, Structural)]
pub enum Event {
    Start,
    Move(i64, i64),
    End,
    Pause,
    Resume,
    Close(u64),
    Redraw(u64),
}

} // verus!
