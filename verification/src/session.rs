//! Per-capture session lifecycle.
//!
//! A session is created for a successful capture, rendered into its
//! overlay window, may run one text recognition at a time, and ends when
//! its window closes.  `Closed` is terminal and reachable from every
//! state.

use vstd::prelude::*;

use crate::image::PixelBuffer;

verus! {

/// Lifecycle states of a capture session.
#[derive(Clone, Copy, Debug, PartialEq, Eq, Structural)]
pub enum SessionState {
    Created,
    Rendered,
    RecognitionRunning,
    RecognitionDone,
    Closed,
}

/// One capture-and-recognize-and-display cycle, bound to one overlay
/// window.
pub struct CaptureSession {
    /// Identifier of the overlay window showing this capture.
    pub window_id: u64,
    /// The captured pixel data the window shows and recognition reads.
    pub image: PixelBuffer,
    /// Where the session stands in its lifecycle.
    pub state: SessionState,
}

impl CaptureSession {
    /// A fresh session for a captured image, not yet rendered.
    pub fn new(window_id: u64, image: PixelBuffer) -> (s: CaptureSession)
        ensures
            s.window_id == window_id,
            s.image@ == image@,
            s.state is Created,
    {
        CaptureSession { window_id, image, state: SessionState::Created }
    }

    /// Records the first successful render of the session's window.
    pub fn mark_rendered(&mut self)
        requires
            old(self).state is Created,
        ensures
            final(self).state is Rendered,
            final(self).window_id == old(self).window_id,
            final(self).image == old(self).image,
    {
        self.state = SessionState::Rendered;
    }

    /// Handles a user request for recognition.  Returns whether a worker
    /// must be spawned: true exactly when the session was `Rendered`; a
    /// request while recognition is already running, or in any other
    /// state, is a no-op.
    pub fn request_recognition(&mut self) -> (spawn: bool)
        ensures
            spawn == (old(self).state is Rendered),
            spawn ==> final(self).state is RecognitionRunning,
            !spawn ==> *final(self) == *old(self),
            final(self).window_id == old(self).window_id,
            final(self).image == old(self).image,
    {
        match self.state {
            SessionState::Rendered => {
                self.state = SessionState::RecognitionRunning;
                true
            },
            _ => false,
        }
    }

    /// Records the arrival of the recognition worker's result.
    pub fn complete_recognition(&mut self)
        requires
            old(self).state is RecognitionRunning,
        ensures
            final(self).state is RecognitionDone,
            final(self).window_id == old(self).window_id,
            final(self).image == old(self).image,
    {
        self.state = SessionState::RecognitionDone;
    }

    /// Closes the session; allowed from every state, and final.
    pub fn close(&mut self)
        ensures
            final(self).state is Closed,
            final(self).window_id == old(self).window_id,
            final(self).image == old(self).image,
    {
        self.state = SessionState::Closed;
    }
}

} // verus!
