//! The double-buffered page-flip protocol against the kernel display
//! controller.
//!
//! The machine decides every transition of the presentation protocol; the
//! device calls themselves (the synchronous modeset, the asynchronous flip
//! request, the completion events read from the display file descriptor)
//! happen outside and report back.  A failed device call simply commits no
//! transition, so the machine is left unchanged and the caller can retry on
//! the next frame.
//!
//! The machine is generic over `B`, the renderable buffer handed over by the
//! allocator, and `C`, the one-shot "ready for the next frame" callback.
//! The buffer most recently put on screen stays owned by the machine, and
//! while a flip is outstanding the machine additionally owns the buffer the
//! controller may still be scanning out; that buffer is moved out only by
//! [`PageFlipMachine::page_flip_completed`].

use vstd::prelude::*;

verus! {

/// The presentation protocol state.
///
/// Only `WaitingForPageFlip` refuses new submissions: a second flip must not
/// be queued while one is outstanding.  That state also retains the buffer
/// that was on screen when the flip was requested, keeping it alive until
/// the controller confirms it has switched away from it.
pub enum PageFlipState<B> {
    NoFrameBufferPosted,
    InitialBufferPosted,
    WaitingForPageFlip { retained: B },
    ReadyForNextBuffer,
}

/// The page-flip presentation machine.
///
/// `on_screen` is the buffer most recently handed to the display controller
/// (the current front buffer); `next_frame_callback` is the one-shot
/// callback armed by the renderer, consumed exactly once when the next
/// frame may start.
pub struct PageFlipMachine<B, C> {
    pub state: PageFlipState<B>,
    pub on_screen: Option<B>,
    pub next_frame_callback: Option<C>,
}

/// One observable step of the protocol, as seen by the machine.
pub enum FlipEvent<B, C> {
    /// The renderer arms the one-shot callback.
    ArmCallback { callback: C },
    /// A first buffer was bound by a successful synchronous modeset.
    PresentInitial { buffer: B },
    /// A successful asynchronous flip request submitted a new buffer.
    PresentFlip { buffer: B },
    /// The controller reported a page-flip completion event.
    FlipCompleted,
}

impl<B, C> PageFlipMachine<B, C> {
    /// States in which a new submission is accepted.
    pub open spec fn spec_is_ready(self) -> bool {
        match self.state {
            PageFlipState::WaitingForPageFlip { .. } => false,
            _ => true,
        }
    }

    /// A machine starts with nothing posted and relates its state to the
    /// front buffer it owns: nothing is on screen exactly in the initial
    /// state.
    pub open spec fn wf(self) -> bool {
        match self.state {
            PageFlipState::NoFrameBufferPosted => self.on_screen is None,
            _ => self.on_screen is Some,
        }
    }

    /// The buffer the machine keeps alive for an outstanding flip, if any.
    pub open spec fn retained_buffer(self) -> Option<B> {
        match self.state {
            PageFlipState::WaitingForPageFlip { retained } => Some(retained),
            _ => None,
        }
    }

    /// The transition relation of the protocol: the machine after `event`.
    pub open spec fn step(self, event: FlipEvent<B, C>) -> PageFlipMachine<B, C> {
        match event {
            FlipEvent::ArmCallback { callback } => PageFlipMachine {
                next_frame_callback: Some(callback),
                ..self
            },
            FlipEvent::PresentInitial { buffer } => PageFlipMachine {
                state: PageFlipState::InitialBufferPosted,
                on_screen: Some(buffer),
                // the armed callback is taken and scheduled right away,
                // since a second buffer is free for rendering already
                next_frame_callback: None,
            },
            FlipEvent::PresentFlip { buffer } => PageFlipMachine {
                state: PageFlipState::WaitingForPageFlip {
                    retained: self.on_screen->Some_0,
                },
                on_screen: Some(buffer),
                ..self
            },
            FlipEvent::FlipCompleted => if self.on_screen is None {
                // no buffer was ever posted, so no flip was ever requested:
                // a stray completion event changes nothing
                self
            } else {
                PageFlipMachine {
                    state: PageFlipState::ReadyForNextBuffer,
                    next_frame_callback: None,
                    ..self
                }
            },
        }
    }

    /// Which events the protocol admits in a given state: submissions only
    /// when the machine is ready, an initial modeset only before any buffer
    /// was posted, a flip only afterwards.
    pub open spec fn event_allowed(self, event: FlipEvent<B, C>) -> bool {
        match event {
            FlipEvent::ArmCallback { .. } => true,
            FlipEvent::PresentInitial { .. } => self.spec_is_ready() && self.on_screen is None,
            FlipEvent::PresentFlip { .. } => self.spec_is_ready() && self.on_screen is Some,
            FlipEvent::FlipCompleted => true,
        }
    }

    /// The buffer a step hands back to the allocator, if any: completion of
    /// a flip releases the buffer retained for it, and nothing else is ever
    /// released.
    pub open spec fn released_by(self, event: FlipEvent<B, C>) -> Option<B> {
        if event is FlipCompleted && self.on_screen is Some {
            self.retained_buffer()
        } else {
            None
        }
    }

    /// A fresh machine: nothing posted, nothing owned, no callback armed.
    pub fn new() -> (r: PageFlipMachine<B, C>)
        ensures
            r.state is NoFrameBufferPosted,
            r.on_screen is None,
            r.next_frame_callback is None,
            r.wf(),
    {
        PageFlipMachine {
            state: PageFlipState::NoFrameBufferPosted,
            on_screen: None,
            next_frame_callback: None,
        }
    }

    /// True unless a flip is outstanding; gates every new submission.
    pub fn is_ready_to_present(&self) -> (r: bool)
        ensures
            r == self.spec_is_ready(),
    {
        match self.state {
            PageFlipState::WaitingForPageFlip { .. } => false,
            _ => true,
        }
    }

    /// Arms the one-shot "ready for next frame" callback, replacing any
    /// previously armed one.
    pub fn set_next_animation_frame_callback(&mut self, callback: C)
        ensures
            *final(self) == old(self).step(FlipEvent::ArmCallback { callback }),
    {
        self.next_frame_callback = Some(callback);
    }

    /// Whether the coming submission must be the synchronous initial
    /// modeset (no buffer was ever posted) rather than an asynchronous
    /// flip.
    pub fn needs_initial_modeset(&self) -> (r: bool)
        ensures
            r == (self.on_screen is None),
    {
        match &self.on_screen {
            Option::None => true,
            Option::Some(_) => false,
        }
    }

    /// Commits a successful initial modeset of `buffer`.
    ///
    /// Returns the armed callback: with only one buffer ever posted there
    /// is a free buffer to render into already, so the caller schedules the
    /// callback through the event loop immediately (deferred, not inline).
    pub fn commit_initial_present(&mut self, buffer: B) -> (callback: Option<C>)
        requires
            old(self).on_screen is None,
        ensures
            *final(self) == old(self).step(FlipEvent::PresentInitial { buffer }),
            callback == old(self).next_frame_callback,
            final(self).wf(),
    {
        self.state = PageFlipState::InitialBufferPosted;
        self.on_screen = Some(buffer);
        self.next_frame_callback.take()
    }

    /// Commits a successfully submitted asynchronous flip to `buffer`.
    ///
    /// The machine moves to `WaitingForPageFlip`, retaining the buffer that
    /// was on screen until now: the controller may still scan it out until
    /// the completion event arrives, so it must not return to the
    /// allocator.  The armed callback is kept; it fires only on completion.
    pub fn commit_flip_present(&mut self, buffer: B)
        requires
            old(self).on_screen is Some,
        ensures
            *final(self) == old(self).step(FlipEvent::PresentFlip { buffer }),
            final(self).retained_buffer() == old(self).on_screen,
            !final(self).spec_is_ready(),
            final(self).wf(),
    {
        let previous = self.on_screen.take();
        self.on_screen = Some(buffer);
        match previous {
            Option::Some(retained) => {
                self.state = PageFlipState::WaitingForPageFlip { retained };
            },
            Option::None => {
                // unreachable under the precondition
                proof {
                    assert(false);
                }
            },
        }
    }

    /// Applies a page-flip completion event read from the display file
    /// descriptor.
    ///
    /// Returns the buffer that may now go back to the allocator (the one
    /// retained for the completed flip, if a flip was outstanding) and the
    /// armed callback, consumed so it can fire exactly once.
    pub fn page_flip_completed(&mut self) -> (r: (Option<B>, Option<C>))
        ensures
            *final(self) == old(self).step(FlipEvent::FlipCompleted),
            r.0 == old(self).released_by(FlipEvent::FlipCompleted),
            r.1 == if old(self).on_screen is Some {
                old(self).next_frame_callback
            } else {
                None::<C>
            },
            old(self).wf() ==> final(self).spec_is_ready(),
            old(self).wf() ==> final(self).wf(),
    {
        if self.needs_initial_modeset() {
            return (None, None);
        }
        let mut state = PageFlipState::ReadyForNextBuffer;
        core::mem::swap(&mut self.state, &mut state);
        let released = match state {
            PageFlipState::WaitingForPageFlip { retained } => Some(retained),
            _ => None,
        };
        (released, self.next_frame_callback.take())
    }
}

/// The machine after running the first `i` events of `trace` from `m0`.
pub open spec fn run_to<B, C>(
    m0: PageFlipMachine<B, C>,
    trace: Seq<FlipEvent<B, C>>,
    i: int,
) -> PageFlipMachine<B, C>
    decreases i,
{
    if i <= 0 {
        m0
    } else {
        run_to(m0, trace, i - 1).step(trace[i - 1])
    }
}

/// A trace respects the protocol when every event is allowed in the state
/// it meets: in particular every submission found the machine ready.
pub open spec fn trace_allowed<B, C>(
    m0: PageFlipMachine<B, C>,
    trace: Seq<FlipEvent<B, C>>,
) -> bool {
    forall|i: int|
        0 <= i < trace.len() ==> run_to(m0, trace, i).event_allowed(#[trigger] trace[i])
}

/// While no completion event arrives, an outstanding flip stays
/// outstanding, for the same retained buffer: in a protocol-respecting
/// trace no event other than `FlipCompleted` can move the machine out of
/// `WaitingForPageFlip` or touch the buffer it holds.
pub proof fn lemma_waiting_persists<B, C>(
    m0: PageFlipMachine<B, C>,
    trace: Seq<FlipEvent<B, C>>,
    i: int,
    j: int,
)
    requires
        trace_allowed(m0, trace),
        0 <= i <= j <= trace.len(),
        run_to(m0, trace, i).state is WaitingForPageFlip,
        forall|k: int| i <= k < j ==> !(#[trigger] trace[k] is FlipCompleted),
    ensures
        run_to(m0, trace, j).state == run_to(m0, trace, i).state,
        forall|k: int|
            i <= k < j ==> run_to(m0, trace, k).released_by(#[trigger] trace[k]) is None,
    decreases j - i,
{
    if i < j {
        lemma_waiting_persists(m0, trace, i, j - 1);
        let before = run_to(m0, trace, j - 1);
        assert(before.event_allowed(trace[j - 1]));
        // a submission is not allowed while waiting, and `FlipCompleted`
        // is excluded by hypothesis, so only `ArmCallback` can occur here,
        // which keeps the state
        match trace[j - 1] {
            FlipEvent::ArmCallback { .. } => {},
            FlipEvent::PresentInitial { .. } => {
                assert(false);
            },
            FlipEvent::PresentFlip { .. } => {
                assert(false);
            },
            FlipEvent::FlipCompleted => {
                assert(false);
            },
        }
    }
}

/// The machine never enters `WaitingForPageFlip` twice without an
/// intervening completion event: in a protocol-respecting trace, two flip
/// submissions always have a `FlipCompleted` between them.
pub proof fn lemma_no_flip_without_completion<B, C>(
    m0: PageFlipMachine<B, C>,
    trace: Seq<FlipEvent<B, C>>,
    i: int,
    j: int,
)
    requires
        trace_allowed(m0, trace),
        0 <= i < j < trace.len(),
        trace[i] is PresentFlip,
        trace[j] is PresentFlip,
    ensures
        exists|k: int| i < k < j && (#[trigger] trace[k]) is FlipCompleted,
{
    if forall|k: int| i < k < j ==> !(#[trigger] trace[k] is FlipCompleted) {
        // after the flip at `i` the machine waits, and without a completion
        // it still waits at `j`, where a further flip is not allowed
        assert(run_to(m0, trace, i + 1).state is WaitingForPageFlip);
        lemma_waiting_persists(m0, trace, i + 1, j);
        assert(run_to(m0, trace, j).event_allowed(trace[j]));
        assert(false);
    } else {
        let k = choose|k: int| !(i < k < j ==> !(#[trigger] trace[k] is FlipCompleted));
        assert(i < k < j && trace[k] is FlipCompleted);
    }
}

/// A buffer is handed back to the allocator only by the completion event of
/// the flip it was retained for, and the machine stops waiting on that
/// buffer in the same step: nothing is ever released while the machine is
/// still in `WaitingForPageFlip` for it.
pub proof fn lemma_release_only_on_completion<B, C>(
    m: PageFlipMachine<B, C>,
    event: FlipEvent<B, C>,
    b: B,
)
    requires
        m.released_by(event) == Some(b),
    ensures
        event is FlipCompleted,
        m.state == (PageFlipState::WaitingForPageFlip { retained: b }),
        m.step(event).retained_buffer() is None,
        m.step(event).state is ReadyForNextBuffer,
{
}

} // verus!
