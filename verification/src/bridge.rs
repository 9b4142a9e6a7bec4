//! The event-loop bridge: the display file descriptor as a readiness
//! source, and the timer-driven fallback presenter.
//!
//! The event loop itself (registering the descriptor, reading events,
//! running timers) lives outside; the library decides what registration
//! and each batch of drained events mean, and owns the one-shot callback
//! of the timer path.

use vstd::prelude::*;

verus! {

/// One event drained from the display device's file descriptor.
#[derive(Clone, Copy, PartialEq, Eq, Structural, Debug)]
pub enum DisplayEvent {
    /// A page flip completed.
    PageFlip,
    /// A vertical-blank event.
    VBlank,
    /// Anything else the device reports.
    Other,
}

/// Whether a drained batch contains a page-flip completion: only then is
/// the page-flip machine notified.
pub fn has_page_flip(events: &Vec<DisplayEvent>) -> (r: bool)
    ensures
        r == events@.contains(DisplayEvent::PageFlip),
{
    let mut i: usize = 0;
    while i < events.len()
        invariant
            i <= events@.len(),
            forall|j: int| 0 <= j < i ==> events@[j] != DisplayEvent::PageFlip,
        decreases events@.len() - i,
    {
        if let DisplayEvent::PageFlip = events[i] {
            return true;
        }
        i = i + 1;
    }
    false
}

/// Tracks whether the display descriptor was already registered with the
/// event loop: registration happens exactly once.
pub struct EventSourceRegistration {
    pub registered: bool,
}

impl EventSourceRegistration {
    /// Nothing registered yet.
    pub fn new() -> (r: EventSourceRegistration)
        ensures
            !r.registered,
    {
        EventSourceRegistration { registered: false }
    }

    /// Marks the source registered; returns whether the caller must
    /// actually insert it.  A second call is a no-op success: `false`
    /// means the source is already in place.
    pub fn register(&mut self) -> (fresh: bool)
        ensures
            final(self).registered,
            fresh == !old(self).registered,
    {
        let fresh = !self.registered;
        self.registered = true;
        fresh
    }
}

/// The timer-driven fallback presenter for paths without hardware
/// completion signaling: presenting arms the one-shot callback and starts
/// a repeating short timer; each tick stops the timer and fires the
/// callback, a deliberately degraded approximation of vertical-blank
/// timing.
pub struct TimerDriver<C> {
    pub armed: Option<C>,
    pub timer_running: bool,
}

impl<C> TimerDriver<C> {
    /// No callback armed, timer stopped.
    pub fn new() -> (r: TimerDriver<C>)
        ensures
            r.armed is None,
            !r.timer_running,
    {
        TimerDriver { armed: None, timer_running: false }
    }

    /// This path never has a flip outstanding.
    pub fn is_ready_to_present(&self) -> (r: bool)
        ensures
            r,
    {
        true
    }

    /// Arms the callback for the frame just presented and (re)starts the
    /// timer.
    pub fn present_with_next_frame_callback(&mut self, callback: C)
        ensures
            final(self).armed == Some(callback),
            final(self).timer_running,
    {
        self.armed = Some(callback);
        self.timer_running = true;
    }

    /// One timer tick: stops the timer and hands out the armed callback,
    /// consumed so it fires exactly once; the callback re-arms by
    /// presenting again.
    pub fn tick(&mut self) -> (r: Option<C>)
        ensures
            r == old(self).armed,
            final(self).armed is None,
            !final(self).timer_running,
    {
        self.timer_running = false;
        self.armed.take()
    }
}

} // verus!
