//! The state of a desktop window: it is open until the user asks to close it.
use vstd::prelude::*;

verus! {

/// The window events that the desktop window tells apart.
#[derive(Clone, Copy, Debug, PartialEq, Eq)]
pub enum DesktopEvent {
    CloseRequested,
    Other,
}

/// Whether the event loop goes on after an event.
#[derive(Clone, Copy, Debug, PartialEq, Eq)]
pub enum LoopControl {
    Exit,
    Continue,
}

/// Whether the window runs after `event`, given whether it ran before, and whether the
/// event loop goes on.
pub open spec fn desktop_step(running: bool, event: DesktopEvent) -> (bool, LoopControl) {
    match event {
        DesktopEvent::CloseRequested => (false, LoopControl::Exit),
        DesktopEvent::Other => (running, LoopControl::Continue),
    }
}

/// Once closed, a window stays closed, whatever events follow.
pub proof fn lemma_closed_stays_closed(event: DesktopEvent)
    ensures
        !desktop_step(false, event).0,
{
}

/// A closed window never reports itself open again: whatever sequence of events it
/// takes after closing, each step leaves it closed.
pub proof fn lemma_closed_window_stays_closed(events: Seq<DesktopEvent>, states: Seq<bool>)
    requires
        states.len() == events.len() + 1,
        !states[0],
        forall|i: int| 0 <= i < events.len() ==> #[trigger] states[i + 1] == desktop_step(states[i], events[i]).0,
    ensures
        forall|i: int| 0 <= i < states.len() ==> !#[trigger] states[i],
    decreases events.len(),
{
    if events.len() > 0 {
        let n = events.len() - 1;
        lemma_closed_window_stays_closed(events.subrange(0, n), states.subrange(0, n + 1));
        assert forall|i: int| 0 <= i < states.len() implies !#[trigger] states[i] by {
            if i < n + 1 {
                assert(states.subrange(0, n + 1)[i] == states[i]);
            } else {
                assert(states[n + 1] == desktop_step(states[n], events[n]).0);
                assert(states.subrange(0, n + 1)[n] == states[n]);
            }
        }
    }
}

/// A close request always stops the window and the loop; no other event stops either
/// or changes whether the window runs.
pub proof fn lemma_only_close_requests_stop(running: bool, event: DesktopEvent)
    ensures
        desktop_step(running, event).1 == LoopControl::Exit <==> event == DesktopEvent::CloseRequested,
        event == DesktopEvent::CloseRequested ==> !desktop_step(running, event).0,
        event != DesktopEvent::CloseRequested ==> desktop_step(running, event).0 == running,
{
}

/// Whether a desktop window is still running.
pub struct DesktopWindowState {
    running: bool,
}

impl DesktopWindowState {
    pub closed spec fn running(&self) -> bool {
        self.running
    }

    /// A window that has just opened.
    pub fn new() -> (r: Self)
        ensures
            r.running(),
    {
        Self { running: true }
    }

    /// Takes an event of the window: a close request stops the window and the loop;
    /// any other event changes nothing.
    pub fn on_event(&mut self, event: DesktopEvent) -> (r: LoopControl)
        ensures
            (final(self).running(), r) == desktop_step(old(self).running(), event),
            !old(self).running() ==> !final(self).running(),
    {
        match event {
            DesktopEvent::CloseRequested => {
                self.running = false;
                LoopControl::Exit
            },
            DesktopEvent::Other => LoopControl::Continue,
        }
    }

    /// Whether the window is still open.
    pub fn is_open(&self) -> (r: bool)
        ensures
            r == self.running(),
    {
        self.running
    }
}

} // verus!
