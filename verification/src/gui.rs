//! Lifecycle of the embedded editor window.
//!
//! The window itself belongs to the GUI toolkit and the host; this
//! module holds the state machine that decides when a session exists.
//! The surrounding layer performs the outside work — tearing a window
//! down, creating one, pumping its event loop — and reports each
//! outcome back, so every transition is checked here whatever the
//! toolkit does.

use vstd::prelude::*;

verus! {

/// Width of the editor window in pixels.
pub const WINDOW_WIDTH: i32 = 640;

/// Height of the editor window in pixels.
pub const WINDOW_HEIGHT: i32 = 480;

/// Whether an editor session currently exists.
#[derive(Clone, Copy, PartialEq, Eq, Structural, Debug)]
pub enum GuiState {
    /// No session exists.
    Closed,
    /// A session is open and may be pumped.
    Open,
}

/// The state after an open request completes: open exactly when the
/// toolkit managed to create the session.
pub open spec fn open_step(s: GuiState, created: bool) -> GuiState {
    if created {
        GuiState::Open
    } else {
        GuiState::Closed
    }
}

/// The state after one idle pump: a session stays open unless it
/// reported its own termination, and a closed controller stays closed.
pub open spec fn idle_step(s: GuiState, terminated: bool) -> GuiState {
    if s == GuiState::Open && !terminated {
        GuiState::Open
    } else {
        GuiState::Closed
    }
}

/// The state after an explicit close: always closed.
pub open spec fn close_step(s: GuiState) -> GuiState {
    GuiState::Closed
}

/// Drives the lifecycle of at most one embedded editor session.
pub struct EmbeddedGuiController {
    /// Current lifecycle state.
    pub state: GuiState,
}

impl EmbeddedGuiController {
    /// A controller with no session.
    pub fn new() -> (c: EmbeddedGuiController)
        ensures
            c.state == GuiState::Closed,
    {
        EmbeddedGuiController { state: GuiState::Closed }
    }

    /// True exactly when a session is open.
    pub fn is_open(&self) -> (r: bool)
        ensures
            r == (self.state == GuiState::Open),
    {
        matches!(self.state, GuiState::Open)
    }

    /// Starts an open request.  The result says whether an old session
    /// must be torn down first, so opening over an open session never
    /// leaks it; afterwards no session is considered open until
    /// [`Self::finish_open`] reports the outcome.
    pub fn begin_open(&mut self) -> (teardown: bool)
        ensures
            teardown == (old(self).state == GuiState::Open),
            final(self).state == GuiState::Closed,
    {
        let teardown = matches!(self.state, GuiState::Open);
        self.state = GuiState::Closed;
        teardown
    }

    /// Records whether the toolkit created the new session.
    pub fn finish_open(&mut self, created: bool)
        requires
            old(self).state == GuiState::Closed,
        ensures
            final(self).state == open_step(old(self).state, created),
    {
        if created {
            self.state = GuiState::Open;
        }
    }

    /// Records the outcome of one idle pump; `terminated` reports that
    /// the session ended itself.  With no session open this changes
    /// nothing.
    pub fn idle(&mut self, terminated: bool)
        ensures
            final(self).state == idle_step(old(self).state, terminated),
    {
        if terminated {
            self.state = GuiState::Closed;
        }
    }

    /// Closes any session; a no-op when none is open.
    pub fn close(&mut self)
        ensures
            final(self).state == close_step(old(self).state),
    {
        self.state = GuiState::Closed;
    }

    /// The fixed size of the editor window.
    pub fn window_size(&self) -> (r: (i32, i32))
        ensures
            r.0 == WINDOW_WIDTH,
            r.1 == WINDOW_HEIGHT,
    {
        (WINDOW_WIDTH, WINDOW_HEIGHT)
    }

    /// The fixed position of the editor window.
    pub fn window_position(&self) -> (r: (i32, i32))
        ensures
            r.0 == 0,
            r.1 == 0,
    {
        (0, 0)
    }
}

/// After a close, no session is open, whatever came before.
pub proof fn lemma_close_leaves_closed(s: GuiState)
    ensures
        close_step(s) == GuiState::Closed,
{
}

/// Opening over an open session ends in the same state as closing
/// first and then opening: the implicit teardown makes a second open
/// behave like close-then-open.
pub proof fn lemma_reopen_equals_close_then_open(s: GuiState, created: bool)
    ensures
        open_step(s, created) == open_step(close_step(s), created),
{
}

/// An idle pump on a closed controller is a no-op.
pub proof fn lemma_idle_when_closed(terminated: bool)
    ensures
        idle_step(GuiState::Closed, terminated) == GuiState::Closed,
{
}

} // verus!
