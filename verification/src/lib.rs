//! A direct-to-display presentation core.
//!
//! The crate owns the decision logic of a windowing-system-free presentation
//! path: discovering a display output (connector, mode, CRTC), managing
//! kernel scanout framebuffers with ordered teardown, running the
//! double-buffered page-flip protocol against the display controller, and
//! pacing a small ring of GPU render targets with per-slot completion
//! fences.  All device work (ioctls, GPU submission, event-loop plumbing)
//! happens outside the library; the library takes the outcomes as plain
//! values and decides every state transition, which is what is verified.

pub mod bridge;
pub mod cli;
pub mod gpu_ring;
pub mod output;
pub mod page_flip;
pub mod scanout;
