//! The GPU frame-synchronization surface: a fixed ring of render-target
//! slots, each with a completion fence, paced round-robin.
//!
//! The GPU work itself (waiting on the real fence, recording and
//! submitting a frame) happens outside; the ring decides which slot a
//! frame uses, when its images must be recreated, and what each wait
//! outcome means.  The invariant it maintains is the classic N-buffered
//! producer bound: a slot's fence still in flight when the slot comes
//! around again is exactly the one submitted N frames earlier, so frame
//! `k + N` can only start once frame `k` finished.

use vstd::prelude::*;

verus! {

/// Number of ring slots: at most `FRAMES_IN_FLIGHT - 1` frames are ever
/// in flight behind the one being recorded.
pub const FRAMES_IN_FLIGHT: usize = 3;

/// A render-target size in pixels.
#[derive(Clone, Copy, PartialEq, Eq, Structural, Debug)]
pub struct SurfaceSize {
    pub width: u32,
    pub height: u32,
}

/// One slot's completion fence, as the ring has observed it.
#[derive(Clone, Copy, PartialEq, Eq, Structural, Debug)]
pub enum FenceState {
    /// Safe to reuse: signaled, or never submitted.
    Signaled,
    /// Reset for a frame being recorded, or left behind by a frame that
    /// failed after its reset; a wait on it can only time out.
    Unsignaled,
    /// Submitted with frame number `frame`; completion not yet observed.
    InFlight { frame: u64 },
}

/// Where the ring stands in the per-frame protocol.
#[derive(Clone, Copy, PartialEq, Eq, Structural)]
pub enum RingPhase {
    /// Between frames.
    Idle,
    /// Resize applied, wait target chosen; the fence wait is next.
    Prepared,
    /// The wait succeeded; the frame for `slot` is being recorded.
    Drawing { slot: usize },
}

/// What the fence wait reported.
#[derive(Clone, Copy, PartialEq, Eq, Structural)]
pub enum WaitOutcome {
    Signaled,
    /// The wait exceeded its bound: the GPU is presumed hung.
    TimedOut,
}

/// A per-frame failure of the GPU path.
#[derive(Clone, Copy, PartialEq, Eq, Structural, Debug)]
pub enum RenderError {
    /// The fence wait timed out; unrecoverable, no retry is attempted.
    GpuHung,
}

/// The ring of render-target slots and their fences.
pub struct FrameRing {
    pub fences: Vec<FenceState>,
    /// The slot the next frame will wait on and then use.
    pub cursor: usize,
    /// How many frames have begun (their fence wait succeeded).
    pub begun: u64,
    /// Current render-target size.
    pub size: SurfaceSize,
    /// A size change latched by [`FrameRing::resize_event`], applied on
    /// the next frame rather than mid-frame.
    pub pending_resize: Option<SurfaceSize>,
    /// Total image views created so far (one per slot and recreation).
    pub views_created: u64,
    pub phase: RingPhase,
}

impl FrameRing {
    /// The ring's invariant.
    ///
    /// The cursor walks round-robin with the frame count, and a fence
    /// still in flight carries the number of the last frame submitted on
    /// its slot: congruent to the slot index, less than `begun`, and at
    /// most `FRAMES_IN_FLIGHT` behind — which pins the fence met at the
    /// next wait on that slot to the frame `FRAMES_IN_FLIGHT` back.
    pub open spec fn wf(self) -> bool {
        &&& self.fences@.len() == FRAMES_IN_FLIGHT
        &&& self.cursor < FRAMES_IN_FLIGHT
        &&& match self.phase {
            RingPhase::Idle | RingPhase::Prepared => self.cursor as int == self.begun as int % (
            FRAMES_IN_FLIGHT as int),
            RingPhase::Drawing { slot } => {
                &&& slot < FRAMES_IN_FLIGHT
                &&& self.begun >= 1
                &&& slot as int == (self.begun - 1) as int % (FRAMES_IN_FLIGHT as int)
                &&& self.cursor as int == self.begun as int % (FRAMES_IN_FLIGHT as int)
                &&& self.fences@[slot as int] is Unsignaled
            },
        }
        &&& forall|s: int|
            0 <= s < FRAMES_IN_FLIGHT ==> (#[trigger] self.fences@[s] matches FenceState::InFlight {
                frame,
            } ==> frame as int % (FRAMES_IN_FLIGHT as int) == s && frame < self.begun
                && self.begun - frame <= FRAMES_IN_FLIGHT)
    }

    /// A fresh ring: every fence reusable, the initial size latched as a
    /// pending resize (the first frame builds its views), one view per
    /// slot already created with the initial images.
    pub fn new(size: SurfaceSize) -> (r: FrameRing)
        ensures
            r.wf(),
            r.phase is Idle,
            r.begun == 0,
            r.cursor == 0,
            r.size == size,
            r.pending_resize == Some(size),
            r.views_created == FRAMES_IN_FLIGHT,
            forall|s: int| 0 <= s < FRAMES_IN_FLIGHT ==> (#[trigger] r.fences@[s]) is Signaled,
    {
        let mut fences: Vec<FenceState> = Vec::new();
        fences.push(FenceState::Signaled);
        fences.push(FenceState::Signaled);
        fences.push(FenceState::Signaled);
        FrameRing {
            fences,
            cursor: 0,
            begun: 0,
            size,
            pending_resize: Some(size),
            views_created: FRAMES_IN_FLIGHT as u64,
            phase: RingPhase::Idle,
        }
    }

    /// Latches a resize; it is applied lazily by the next
    /// [`FrameRing::prepare_frame`], never mid-frame.
    pub fn resize_event(&mut self, size: SurfaceSize)
        ensures
            *final(self) == (FrameRing { pending_resize: Some(size), ..*old(self) }),
    {
        self.pending_resize = Some(size);
    }

    /// Opens a frame: applies a latched resize — recreating all
    /// `FRAMES_IN_FLIGHT` image views at the new size, before any drawing
    /// — and names the slot whose fence the caller must wait on.
    pub fn prepare_frame(&mut self) -> (slot: usize)
        requires
            old(self).wf(),
            old(self).phase is Idle,
            old(self).views_created <= u64::MAX - FRAMES_IN_FLIGHT as u64,
        ensures
            final(self).wf(),
            final(self).phase is Prepared,
            slot == old(self).cursor,
            final(self).cursor == old(self).cursor,
            final(self).begun == old(self).begun,
            final(self).fences == old(self).fences,
            final(self).pending_resize is None,
            final(self).size == match old(self).pending_resize {
                Some(sz) => sz,
                None => old(self).size,
            },
            final(self).views_created == old(self).views_created + match old(
                self,
            ).pending_resize {
                Some(_) => FRAMES_IN_FLIGHT as u64,
                None => 0u64,
            },
    {
        match self.pending_resize.take() {
            Some(sz) => {
                // all slots get fresh images and views at the new size;
                // the fences are kept, not recreated
                self.size = sz;
                self.views_created = self.views_created + FRAMES_IN_FLIGHT as u64;
            },
            None => {},
        }
        self.phase = RingPhase::Prepared;
        self.cursor
    }

    /// Accounts for the outcome of the bounded fence wait on the prepared
    /// slot.
    ///
    /// A timeout means the GPU is presumed hung: the frame is abandoned
    /// and the error is unrecoverable.  On success the fence is reset,
    /// the cursor advances round-robin, and the slot is handed out for
    /// recording.  If the awaited fence was still in flight, it was the
    /// one submitted exactly `FRAMES_IN_FLIGHT` frames earlier: the frame
    /// beginning here is gated on that frame's completion.
    pub fn after_wait(&mut self, outcome: WaitOutcome) -> (r: Result<usize, RenderError>)
        requires
            old(self).wf(),
            old(self).phase is Prepared,
            old(self).begun < u64::MAX,
        ensures
            final(self).wf(),
            r is Ok <==> outcome is Signaled,
            old(self).fences@[old(self).cursor as int] matches FenceState::InFlight { frame }
                ==> frame == old(self).begun - FRAMES_IN_FLIGHT,
            outcome is TimedOut ==> (r matches Err(e) && e is GpuHung && *final(self) == (
            FrameRing { phase: RingPhase::Idle, ..*old(self) })),
            outcome is Signaled ==> {
                &&& r matches Ok(slot) && slot == old(self).cursor
                &&& final(self).phase == (RingPhase::Drawing { slot: old(self).cursor })
                &&& final(self).begun == old(self).begun + 1
                &&& final(self).cursor as int == (old(self).begun + 1) as int % (
                FRAMES_IN_FLIGHT as int)
                &&& final(self).fences@ == old(self).fences@.update(
                    old(self).cursor as int,
                    FenceState::Unsignaled,
                )
                &&& final(self).size == old(self).size
                &&& final(self).views_created == old(self).views_created
                &&& final(self).pending_resize == old(self).pending_resize
            },
    {
        proof {
            if old(self).fences@[old(self).cursor as int] is InFlight {
                lemma_awaited_fence_is_three_back(*old(self));
            }
        }
        match outcome {
            WaitOutcome::TimedOut => {
                self.phase = RingPhase::Idle;
                Err(RenderError::GpuHung)
            },
            WaitOutcome::Signaled => {
                let slot = self.cursor;
                self.fences.set(slot, FenceState::Unsignaled);
                self.begun = self.begun + 1;
                self.cursor = (self.begun % (FRAMES_IN_FLIGHT as u64)) as usize;
                self.phase = RingPhase::Drawing { slot };
                proof {
                    assert(self.begun as int % (FRAMES_IN_FLIGHT as int) == self.cursor as int);
                }
                Ok(slot)
            },
        }
    }

    /// Closes the frame being recorded: the submission will signal this
    /// slot's fence, so the fence now carries the frame's number.
    pub fn complete_submit(&mut self)
        requires
            old(self).wf(),
            old(self).phase is Drawing,
        ensures
            final(self).wf(),
            final(self).phase is Idle,
            old(self).phase matches RingPhase::Drawing { slot } ==> final(self).fences@ == old(
                self,
            ).fences@.update(slot as int, FenceState::InFlight { frame: (old(self).begun - 1) as u64 }),
            final(self).begun == old(self).begun,
            final(self).cursor == old(self).cursor,
            final(self).size == old(self).size,
            final(self).views_created == old(self).views_created,
            final(self).pending_resize == old(self).pending_resize,
    {
        match self.phase {
            RingPhase::Drawing { slot } => {
                self.fences.set(slot, FenceState::InFlight { frame: self.begun - 1 });
            },
            _ => {
                proof {
                    assert(false);
                }
            },
        }
        self.phase = RingPhase::Idle;
    }

    /// Abandons the frame being recorded after a per-frame failure
    /// (surface wrapping, recording): the ring state stays consistent,
    /// and since the cursor already advanced past this slot the next
    /// frame does not retry it immediately.  Its fence stays unsignaled,
    /// so the slot's next turn can only end in a timeout — the failure
    /// surfaces again rather than being silently absorbed.
    pub fn abort_frame(&mut self)
        requires
            old(self).wf(),
            old(self).phase is Drawing,
        ensures
            final(self).wf(),
            *final(self) == (FrameRing { phase: RingPhase::Idle, ..*old(self) }),
    {
        self.phase = RingPhase::Idle;
    }

    /// The slot the next frame will use.
    pub fn frame_index(&self) -> (r: usize)
        ensures
            r == self.cursor,
    {
        self.cursor
    }

    /// The fixed render-target pixel depth of this path.
    pub fn bits_per_pixel(&self) -> (r: u8)
        ensures
            r == 32,
    {
        32
    }
}

/// The frame about to begin waits on the fence submitted exactly
/// `FRAMES_IN_FLIGHT` frames before it: with the cursor on a slot whose
/// fence is still in flight, that fence's frame number is `begun -
/// FRAMES_IN_FLIGHT`.
pub proof fn lemma_awaited_fence_is_three_back(r: FrameRing)
    requires
        r.wf(),
        r.phase is Idle || r.phase is Prepared,
        r.fences@[r.cursor as int] is InFlight,
    ensures
        r.fences@[r.cursor as int] matches FenceState::InFlight { frame } ==> frame == r.begun
            - FRAMES_IN_FLIGHT,
{
    let n = FRAMES_IN_FLIGHT as int;
    match r.fences@[r.cursor as int] {
        FenceState::InFlight { frame } => {
            let d = r.begun - frame;
            assert(1 <= d <= n);
            assert(frame as int % n == r.cursor as int);
            assert(r.begun as int % n == r.cursor as int);
            assert((frame as int + d) % n == frame as int % n ==> d % n == 0)
                by (nonlinear_arith)
                requires
                    n == 3,
                    0 <= frame as int,
                    1 <= d <= n,
            ;
            assert(d == n);
        },
        _ => {},
    }
}

/// While a frame is being recorded, at most `FRAMES_IN_FLIGHT - 1` prior
/// frames are still in flight, and they are the two immediately preceding
/// ones: the slot being recorded holds no submitted fence, and every
/// fence still in flight belongs to one of the two frames before the
/// current one.
pub proof fn lemma_in_flight_bound(r: FrameRing)
    requires
        r.wf(),
        r.phase is Drawing,
    ensures
        forall|s: int|
            0 <= s < FRAMES_IN_FLIGHT ==> ((#[trigger] r.fences@[s]) matches FenceState::InFlight {
                frame,
            } ==> r.begun - FRAMES_IN_FLIGHT <= frame <= r.begun - 2),
{
    let slot = match r.phase {
        RingPhase::Drawing { slot } => slot,
        _ => 0,
    };
    assert forall|s: int|
        0 <= s < FRAMES_IN_FLIGHT implies ((#[trigger] r.fences@[s])
        matches FenceState::InFlight { frame } ==> r.begun - FRAMES_IN_FLIGHT <= frame <= r.begun
        - 2) by {
        match r.fences@[s] {
            FenceState::InFlight { frame } => {
                // the frame being recorded is `begun - 1`; its slot's
                // fence was reset, so no in-flight fence can carry it
                if frame == r.begun - 1 {
                    assert(s == slot as int);
                    assert(false);
                }
            },
            _ => {},
        }
    }
}

/// The category of a physical GPU, as the driver reports it.
#[derive(Clone, Copy, PartialEq, Eq, Structural, Debug)]
pub enum GpuKind {
    Discrete,
    Integrated,
    Virtual,
    Cpu,
    Other,
    Unknown,
}

/// Selection rank of a GPU category: discrete beats integrated beats
/// virtual beats software beats anything else.
pub open spec fn spec_gpu_rank(k: GpuKind) -> int {
    match k {
        GpuKind::Discrete => 0,
        GpuKind::Integrated => 1,
        GpuKind::Virtual => 2,
        GpuKind::Cpu => 3,
        GpuKind::Other => 4,
        GpuKind::Unknown => 5,
    }
}

/// Ranks a GPU category for selection.
pub fn gpu_rank(k: GpuKind) -> (r: u32)
    ensures
        r as int == spec_gpu_rank(k),
{
    match k {
        GpuKind::Discrete => 0,
        GpuKind::Integrated => 1,
        GpuKind::Virtual => 2,
        GpuKind::Cpu => 3,
        GpuKind::Other => 4,
        GpuKind::Unknown => 5,
    }
}

/// What device selection reads of one physical GPU.
pub struct GpuCandidate {
    pub kind: GpuKind,
    /// Whether the device supports every required extension.
    pub supports_required_extensions: bool,
    /// Per queue family, in device order: whether it is graphics-capable.
    pub graphics_capable: Vec<bool>,
}

/// The first graphics-capable queue family from index `i` on.
pub open spec fn spec_first_graphics_from(fams: Seq<bool>, i: int) -> Option<int>
    decreases fams.len() - i,
{
    if i < 0 || i >= fams.len() {
        None
    } else if fams[i] {
        Some(i)
    } else {
        spec_first_graphics_from(fams, i + 1)
    }
}

/// A candidate qualifies when it supports the required extensions and
/// exposes a graphics-capable queue family.
pub open spec fn spec_eligible(c: GpuCandidate) -> bool {
    c.supports_required_extensions && spec_first_graphics_from(c.graphics_capable@, 0) is Some
}

/// Finds the first graphics-capable queue family.
pub fn first_graphics_family(fams: &Vec<bool>) -> (r: Option<usize>)
    ensures
        r is Some <==> spec_first_graphics_from(fams@, 0) is Some,
        r matches Some(i) ==> i < fams@.len() && spec_first_graphics_from(fams@, 0) == Some(
            i as int,
        ),
{
    let mut i: usize = 0;
    while i < fams.len()
        invariant
            i <= fams@.len(),
            spec_first_graphics_from(fams@, 0) == spec_first_graphics_from(fams@, i as int),
        decreases fams@.len() - i,
    {
        if fams[i] {
            return Some(i);
        }
        i = i + 1;
    }
    None
}

/// Picks the physical device to create the GPU context on: among the
/// candidates supporting the required extensions and exposing a graphics
/// queue family, the best-ranked category wins, earliest enumeration
/// first on ties; paired with its first graphics-capable family.  `None`
/// exactly when no candidate qualifies.
pub fn pick_gpu(candidates: &Vec<GpuCandidate>) -> (r: Option<(usize, usize)>)
    ensures
        r is None <==> (forall|j: int|
            0 <= j < candidates@.len() ==> !spec_eligible(#[trigger] candidates@[j])),
        r matches Some((i, qf)) ==> {
            &&& i < candidates@.len()
            &&& spec_eligible(candidates@[i as int])
            &&& spec_first_graphics_from(candidates@[i as int].graphics_capable@, 0) == Some(
                qf as int,
            )
            &&& forall|j: int|
                0 <= j < candidates@.len() && spec_eligible(#[trigger] candidates@[j])
                    ==> spec_gpu_rank(candidates@[i as int].kind) <= spec_gpu_rank(
                    candidates@[j].kind,
                )
            &&& forall|j: int|
                0 <= j < i && spec_eligible(#[trigger] candidates@[j]) ==> spec_gpu_rank(
                    candidates@[j].kind,
                ) > spec_gpu_rank(candidates@[i as int].kind)
        },
{
    let mut best: Option<(usize, usize)> = None;
    let mut best_rank: u32 = 0;
    let mut i: usize = 0;
    while i < candidates.len()
        invariant
            i <= candidates@.len(),
            best is None ==> (forall|j: int|
                0 <= j < i ==> !spec_eligible(#[trigger] candidates@[j])),
            best matches Some((b, qf)) ==> {
                &&& b < i
                &&& spec_eligible(candidates@[b as int])
                &&& spec_first_graphics_from(candidates@[b as int].graphics_capable@, 0) == Some(
                    qf as int,
                )
                &&& best_rank as int == spec_gpu_rank(candidates@[b as int].kind)
                &&& forall|j: int|
                    0 <= j < i && spec_eligible(#[trigger] candidates@[j]) ==> best_rank as int
                        <= spec_gpu_rank(candidates@[j].kind)
                &&& forall|j: int|
                    0 <= j < b && spec_eligible(#[trigger] candidates@[j]) ==> spec_gpu_rank(
                        candidates@[j].kind,
                    ) > best_rank as int
            },
        decreases candidates@.len() - i,
    {
        if candidates[i].supports_required_extensions {
            if let Some(qf) = first_graphics_family(&candidates[i].graphics_capable) {
                let rank = gpu_rank(candidates[i].kind);
                let replace = match best {
                    None => true,
                    Some(_) => rank < best_rank,
                };
                if replace {
                    best = Some((i, qf));
                    best_rank = rank;
                }
            }
        }
        i = i + 1;
    }
    best
}

} // verus!
