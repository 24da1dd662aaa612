//! The event-loop driver: the single cooperative consumer of semantic
//! events.
//!
//! It tracks the current pointer position and the pending drag start,
//! owns the session registry, and decides for every dequeued event what
//! outside work — if any — the loop must perform: capture a resolved
//! rectangle, update the tray tooltip, or render a window.  All session
//! state is mutated here and nowhere else.

use vstd::prelude::*;

use crate::event::Event;
use crate::lens::{in_coord_range, lens_meets_min, resolve_spec, Lens};
use crate::session::CaptureSession;
use crate::windows::{RedrawAction, Windows};

verus! {

/// The outside work one event asks for.  `Capture` carries a resolved
/// rectangle meeting the minimum size: the loop is to capture it and,
/// on success, create a session for it.  `Tooltip` carries the pause
/// flag the tray tooltip is to reflect.  `Render` and
/// `RenderAndSchedule` name the window to re-render, the latter also
/// asking for one follow-up redraw event.
#[derive(Clone, Copy, Debug, PartialEq, Eq, Structural)]
pub enum Action {
    Idle,
    Capture(Lens),
    Tooltip(bool),
    Render(u64),
    RenderAndSchedule(u64),
}

/// The state the event loop maintains across events.
pub struct Driver {
    /// The pointer position most recently reported, tracked even while
    /// no drag is pending so the next drag can start from it.
    pub position: (i64, i64),
    /// The position recorded at the start of the pending drag, if one
    /// is pending.
    pub start_point: Option<(i64, i64)>,
    /// The registry of live capture sessions.
    pub windows: Windows,
}

impl Driver {
    /// Tracked positions stay within the coordinate range the geometry
    /// resolver accepts, and the registry is well-formed.
    pub open spec fn wf(self) -> bool {
        &&& in_coord_range(self.position)
        &&& (self.start_point matches Some(p) ==> in_coord_range(p))
        &&& self.windows.wf()
    }

    /// A fresh driver: pointer at the origin, no drag pending, no live
    /// sessions.
    pub fn new() -> (d: Driver)
        ensures
            d.wf(),
            d.position == (0i64, 0i64),
            d.start_point is None,
            d.windows@ == Map::<u64, CaptureSession>::empty(),
    {
        Driver { position: (0, 0), start_point: None, windows: Windows::new() }
    }

    /// Processes one dequeued event, atomically with respect to all
    /// others, and returns the outside work it asks for.
    ///
    /// `Start` records the drag start unless a drag is already pending:
    /// a repeated `Start` never overwrites the original start point.
    /// `Move` updates the tracked position unconditionally.  `End`
    /// resolves the pending drag into a rectangle and asks for a
    /// capture exactly when the rectangle meets the minimum size; a
    /// rectangle below it never reaches the capture provider.  `Pause`
    /// and `Resume` only update the tooltip.  `Close` and `Redraw` are
    /// routed to the registry.
    pub fn handle(&mut self, ev: Event) -> (a: Action)
        requires
            old(self).wf(),
            ev matches Event::Move(x, y) ==> in_coord_range((x, y)),
        ensures
            final(self).wf(),
            ev is Start ==> {
                &&& final(self).position == old(self).position
                &&& final(self).windows == old(self).windows
                &&& a is Idle
                &&& (old(self).start_point is None ==> final(self).start_point == Some(
                    old(self).position,
                ))
                &&& (old(self).start_point is Some ==> final(self).start_point == old(
                    self,
                ).start_point)
            },
            ev matches Event::Move(x, y) ==> {
                &&& final(self).position == (x, y)
                &&& final(self).start_point == old(self).start_point
                &&& final(self).windows == old(self).windows
                &&& a is Idle
            },
            ev is End ==> {
                &&& final(self).start_point is None
                &&& final(self).position == old(self).position
                &&& final(self).windows == old(self).windows
                &&& (old(self).start_point is None ==> a is Idle)
                &&& (old(self).start_point matches Some(s) ==> {
                    let model = resolve_spec(
                        s.0 as int,
                        s.1 as int,
                        old(self).position.0 as int,
                        old(self).position.1 as int,
                    );
                    &&& (lens_meets_min(model) ==> (a matches Action::Capture(l) && l@ == model))
                    &&& (!lens_meets_min(model) ==> a is Idle)
                })
            },
            ev is Pause ==> *final(self) == *old(self) && a == Action::Tooltip(true),
            ev is Resume ==> *final(self) == *old(self) && a == Action::Tooltip(false),
            ev matches Event::Close(id) ==> {
                &&& final(self).position == old(self).position
                &&& final(self).start_point == old(self).start_point
                &&& final(self).windows@ == old(self).windows@.remove(id)
                &&& a is Idle
            },
            ev matches Event::Redraw(id) ==> {
                &&& *final(self) == *old(self)
                &&& (!old(self).windows@.contains_key(id) ==> a is Idle)
                &&& (old(self).windows@.contains_key(id) && old(self).windows@[id].state
                    is RecognitionRunning ==> a == Action::RenderAndSchedule(id))
                &&& (old(self).windows@.contains_key(id) && !(old(self).windows@[id].state
                    is RecognitionRunning) ==> a == Action::Render(id))
            },
    {
        match ev {
            Event::Start => {
                if self.start_point.is_none() {
                    self.start_point = Some(self.position);
                }
                Action::Idle
            },
            Event::Move(x, y) => {
                self.position = (x, y);
                Action::Idle
            },
            Event::End => {
                match self.start_point {
                    Some(start) => {
                        self.start_point = None;
                        let lens = Lens::from(start, self.position);
                        if lens.meets_min() {
                            Action::Capture(lens)
                        } else {
                            Action::Idle
                        }
                    },
                    None => Action::Idle,
                }
            },
            Event::Pause => Action::Tooltip(true),
            Event::Resume => Action::Tooltip(false),
            Event::Close(id) => {
                self.windows.destroy(id);
                Action::Idle
            },
            Event::Redraw(id) => {
                match self.windows.redraw(id) {
                    RedrawAction::Missing => Action::Idle,
                    RedrawAction::Render => Action::Render(id),
                    RedrawAction::RenderAndSchedule => Action::RenderAndSchedule(id),
                }
            },
        }
    }
}

} // verus!
