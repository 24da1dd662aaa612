//! Input event translator and pause toggle.
//!
//! The listener thread feeds every raw hardware event through
//! [`translate`]; the decision it returns says which semantic event to
//! enqueue for the event loop, if any, and whether to suppress the
//! underlying hardware event so that it does not reach other
//! applications.  The pause controller thread feeds each tray intent
//! through [`toggle`].

use vstd::prelude::*;

use crate::event::Event;

verus! {

/// A raw hardware event, as the input translator sees it: a press or
/// release of the middle mouse button, a pointer move, or anything else.
#[derive(Clone, Copy, Debug, PartialEq, Eq, Structural)]
pub enum RawEvent {
    MiddlePress,
    MiddleRelease,
    PointerMove(i64, i64),
    Other,
}

/// What the translator decides for one raw event: the semantic event to
/// enqueue, if any, and whether to swallow the hardware event.
#[derive(Clone, Copy, Debug, PartialEq, Eq)]
pub struct Translation {
    pub emit: Option<Event>,
    pub suppress: bool,
}

/// The translation rule: while paused, every event passes through
/// untouched and nothing is emitted.  Otherwise a middle-button press
/// becomes `Start` and a release becomes `End`, both suppressing the
/// hardware event; a pointer move becomes `Move` but is passed through,
/// so other applications keep seeing the cursor; anything else passes
/// through untranslated.
pub open spec fn translate_spec(paused: bool, raw: RawEvent) -> Translation {
    if paused {
        Translation { emit: None, suppress: false }
    } else {
        match raw {
            RawEvent::MiddlePress => Translation { emit: Some(Event::Start), suppress: true },
            RawEvent::MiddleRelease => Translation { emit: Some(Event::End), suppress: true },
            RawEvent::PointerMove(x, y) => Translation {
                emit: Some(Event::Move(x, y)),
                suppress: false,
            },
            RawEvent::Other => Translation { emit: None, suppress: false },
        }
    }
}

/// Translates one raw hardware event under the current pause flag.
pub fn translate(paused: bool, raw: RawEvent) -> (t: Translation)
    ensures
        t == translate_spec(paused, raw),
        paused ==> t.emit is None && !t.suppress,
{
    if paused {
        Translation { emit: None, suppress: false }
    } else {
        match raw {
            RawEvent::MiddlePress => Translation { emit: Some(Event::Start), suppress: true },
            RawEvent::MiddleRelease => Translation { emit: Some(Event::End), suppress: true },
            RawEvent::PointerMove(x, y) => Translation {
                emit: Some(Event::Move(x, y)),
                suppress: false,
            },
            RawEvent::Other => Translation { emit: None, suppress: false },
        }
    }
}

/// Flips the pause flag on a tray intent and names the semantic event to
/// enqueue for cosmetic feedback: pausing emits `Pause`, resuming emits
/// `Resume`.
pub fn toggle(paused: bool) -> (r: (bool, Event))
    ensures
        r.0 == !paused,
        r.1 == (if paused {
            Event::Resume
        } else {
            Event::Pause
        }),
{
    if paused {
        (false, Event::Resume)
    } else {
        (true, Event::Pause)
    }
}

} // verus!
