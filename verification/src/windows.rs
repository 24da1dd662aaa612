//! The session coordinator: the registry of live capture sessions,
//! keyed by window identity.
//!
//! All operations are called only from the single UI thread; the
//! registry is the sole owner of every session.  Cross-thread messages
//! (a recognition completion, a close request) are routed here by the
//! event-loop driver; a message for a window that is no longer present
//! is absorbed as a no-op.

use std::collections::HashMap;

use vstd::prelude::*;

use crate::image::PixelBuffer;
use crate::session::{CaptureSession, SessionState};

verus! {

broadcast use vstd::std_specs::hash::group_hash_axioms;

/// What the caller must do after a redraw request: nothing (the window
/// is gone), render once, or render and schedule one follow-up redraw
/// so a running recognition keeps animating.
#[derive(Clone, Copy, Debug, PartialEq, Eq, Structural)]
pub enum RedrawAction {
    Missing,
    Render,
    RenderAndSchedule,
}

/// What the caller must do after a recognition completion message: drop
/// it (the session is gone or not waiting), close the window without a
/// clipboard write, or copy the recognized text and close the window.
#[derive(Clone, Debug, PartialEq, Eq)]
pub enum CompletionAction {
    Dropped,
    CloseOnly,
    CopyAndClose(String),
}

/// The registry of live sessions, keyed by the identifier of the
/// overlay window each one owns.
pub struct Windows {
    sessions: HashMap<u64, CaptureSession>,
}

impl View for Windows {
    type V = Map<u64, CaptureSession>;

    closed spec fn view(&self) -> Map<u64, CaptureSession> {
        self.sessions@
    }
}

impl Windows {
    /// Every stored session is keyed by its own window, and sits in one
    /// of the two states a live entry can have: rendered, or running a
    /// recognition.  A completed or closed session is never stored.
    pub open spec fn wf(self) -> bool {
        forall|id: u64| #[trigger] self@.contains_key(id) ==> {
            &&& self@[id].window_id == id
            &&& (self@[id].state is Rendered || self@[id].state is RecognitionRunning)
        }
    }

    /// An empty registry.
    pub fn new() -> (w: Windows)
        ensures
            w@ == Map::<u64, CaptureSession>::empty(),
            w.wf(),
    {
        Windows { sessions: HashMap::new() }
    }

    /// Registers the session for a freshly captured image whose window
    /// was just built and rendered: constructs it, drives it to
    /// `Rendered`, and inserts it under its window's identifier.
    pub fn create(&mut self, window_id: u64, image: PixelBuffer)
        requires
            old(self).wf(),
        ensures
            final(self).wf(),
            final(self)@.dom() == old(self)@.dom().insert(window_id),
            final(self)@[window_id].state is Rendered,
            final(self)@[window_id].window_id == window_id,
            final(self)@[window_id].image@ == image@,
            forall|k: u64|
                k != window_id && old(self)@.contains_key(k) ==> final(self)@[k] == old(self)@[k],
    {
        let mut session = CaptureSession::new(window_id, image);
        session.mark_rendered();
        self.sessions.insert(window_id, session);
        proof {
            assert(self@.dom() =~= old(self)@.dom().insert(window_id));
            assert forall|k: u64| #[trigger] self@.contains_key(k) implies {
                &&& self@[k].window_id == k
                &&& (self@[k].state is Rendered || self@[k].state is RecognitionRunning)
            } by {
                if k != window_id {
                    assert(old(self)@.contains_key(k));
                }
            }
        }
    }

    /// Handles a user request to recognize the text of the session
    /// owning `window_id`.  Absent session: no-op.  Recognition already
    /// running: no-op, so at most one worker is ever in flight.
    /// Otherwise the session starts running and the returned copy of
    /// its image is to be handed to a fresh recognition worker.
    pub fn ocr(&mut self, window_id: u64) -> (r: Option<PixelBuffer>)
        requires
            old(self).wf(),
        ensures
            final(self).wf(),
            !old(self)@.contains_key(window_id) ==> final(self)@ == old(self)@ && r is None,
            old(self)@.contains_key(window_id) && old(self)@[window_id].state is RecognitionRunning
                ==> final(self)@ == old(self)@ && r is None,
            old(self)@.contains_key(window_id) && old(self)@[window_id].state is Rendered ==> {
                &&& r matches Some(b) && b@ == old(self)@[window_id].image@
                &&& final(self)@.dom() == old(self)@.dom()
                &&& final(self)@[window_id].state is RecognitionRunning
                &&& final(self)@[window_id].window_id == window_id
                &&& final(self)@[window_id].image@ == old(self)@[window_id].image@
                &&& forall|k: u64|
                    k != window_id && old(self)@.contains_key(k) ==> final(self)@[k] == old(
                        self,
                    )@[k]
            },
    {
        match self.sessions.remove(&window_id) {
            None => {
                proof {
                    assert(self@ =~= old(self)@);
                }
                None
            },
            Some(mut session) => {
                let spawn = session.request_recognition();
                let img = if spawn {
                    Some(session.image.duplicate())
                } else {
                    None
                };
                self.sessions.insert(window_id, session);
                proof {
                    if spawn {
                        assert(self@.dom() =~= old(self)@.dom());
                    } else {
                        assert(self@ =~= old(self)@);
                    }
                    assert forall|k: u64| #[trigger] self@.contains_key(k) implies {
                        &&& self@[k].window_id == k
                        &&& (self@[k].state is Rendered || self@[k].state is RecognitionRunning)
                    } by {
                        if k != window_id {
                            assert(old(self)@.contains_key(k));
                        }
                    }
                }
                img
            },
        }
    }

    /// Answers a redraw request for `window_id`: absent sessions are
    /// ignored; a session running recognition asks for one follow-up
    /// redraw besides the render, so the loading animation continues
    /// without an external timer.
    pub fn redraw(&self, window_id: u64) -> (r: RedrawAction)
        requires
            self.wf(),
        ensures
            !self@.contains_key(window_id) ==> r is Missing,
            self@.contains_key(window_id) && self@[window_id].state is RecognitionRunning
                ==> r is RenderAndSchedule,
            self@.contains_key(window_id) && !(self@[window_id].state is RecognitionRunning)
                ==> r is Render,
    {
        match self.sessions.get(&window_id) {
            None => RedrawAction::Missing,
            Some(session) => match session.state {
                SessionState::RecognitionRunning => RedrawAction::RenderAndSchedule,
                _ => RedrawAction::Render,
            },
        }
    }

    /// Applies a recognition worker's completion message.  Only a
    /// session still waiting for it is affected: it completes, closes
    /// and leaves the registry, and recognized text is passed on for
    /// the clipboard.  A message for an absent or non-waiting session
    /// is dropped without touching the registry.
    pub fn complete(&mut self, window_id: u64, text: Option<String>) -> (r: CompletionAction)
        requires
            old(self).wf(),
        ensures
            final(self).wf(),
            (!old(self)@.contains_key(window_id) || !(old(self)@[window_id].state
                is RecognitionRunning)) ==> final(self)@ == old(self)@ && r is Dropped,
            old(self)@.contains_key(window_id) && old(self)@[window_id].state
                is RecognitionRunning ==> {
                &&& final(self)@ == old(self)@.remove(window_id)
                &&& (text matches Some(t) ==> r == CompletionAction::CopyAndClose(t))
                &&& (text is None ==> r is CloseOnly)
            },
    {
        match self.sessions.remove(&window_id) {
            None => {
                proof {
                    assert(self@ =~= old(self)@);
                }
                CompletionAction::Dropped
            },
            Some(mut session) => match session.state {
                SessionState::RecognitionRunning => {
                    session.complete_recognition();
                    session.close();
                    match text {
                        Some(t) => CompletionAction::CopyAndClose(t),
                        None => CompletionAction::CloseOnly,
                    }
                },
                _ => {
                    self.sessions.insert(window_id, session);
                    proof {
                        assert(self@ =~= old(self)@);
                    }
                    CompletionAction::Dropped
                },
            },
        }
    }

    /// Removes and tears down the session owning `window_id`;
    /// idempotent when the window is not (or no longer) present.
    pub fn destroy(&mut self, window_id: u64)
        requires
            old(self).wf(),
        ensures
            final(self).wf(),
            final(self)@ == old(self)@.remove(window_id),
            !old(self)@.contains_key(window_id) ==> final(self)@ == old(self)@,
    {
        self.sessions.remove(&window_id);
        proof {
            if !old(self)@.contains_key(window_id) {
                assert(self@ =~= old(self)@);
            }
        }
    }

    /// Whether a session for `window_id` is live.
    pub fn contains(&self, window_id: u64) -> (r: bool)
        ensures
            r == self@.contains_key(window_id),
    {
        self.sessions.contains_key(&window_id)
    }

    /// The state of the session for `window_id`, if one is live.
    pub fn state_of(&self, window_id: u64) -> (r: Option<SessionState>)
        ensures
            self@.contains_key(window_id) ==> r == Some(self@[window_id].state),
            !self@.contains_key(window_id) ==> r is None,
    {
        match self.sessions.get(&window_id) {
            None => None,
            Some(session) => Some(session.state),
        }
    }

    /// How many sessions are live.
    pub fn len(&self) -> (r: usize)
        ensures
            r == self@.len(),
    {
        self.sessions.len()
    }
}

} // verus!
