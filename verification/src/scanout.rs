//! The kernel scanout buffer manager: registering rendered buffers as
//! kernel framebuffers and tearing them down in the right order.
//!
//! Registering a framebuffer allocates a device-level resource that must be
//! released no later than the buffer memory it refers to, or the display
//! controller can scan out freed memory.  The registry below is the
//! library's model of the device's framebuffer table: the registration and
//! destruction calls mirror the device ioctls, and the release path is
//! deliberately idempotent — destroying a handle that is already gone (for
//! instance because freeing the memory implicitly invalidated it) changes
//! nothing and still succeeds.

use vstd::prelude::*;

verus! {

/// `s` with every occurrence of `h` removed.
pub open spec fn without(s: Seq<u64>, h: u64) -> Seq<u64> {
    s.filter(|x: u64| x != h)
}

/// No entry occurs twice.
pub open spec fn distinct(s: Seq<u64>) -> bool {
    forall|i: int, j: int| 0 <= i < j < s.len() ==> #[trigger] s[i] != #[trigger] s[j]
}

/// The framebuffer table of one scanout device: which handles are
/// currently registered, and the next fresh handle.
pub struct FramebufferRegistry {
    pub live: Vec<u64>,
    pub next_handle: u64,
}

/// A renderable buffer from the allocator, carrying the kernel framebuffer
/// registered against it (if any) so that their teardown stays tied
/// together.
pub struct ScanoutBuffer {
    pub framebuffer: Option<u64>,
}

impl FramebufferRegistry {
    /// Handles are unique and drawn from the fresh counter.
    pub open spec fn wf(self) -> bool {
        &&& forall|i: int|
            0 <= i < self.live@.len() ==> #[trigger] self.live@[i] < self.next_handle
        &&& distinct(self.live@)
    }

    /// Whether `h` is a currently registered framebuffer handle.
    pub open spec fn is_live(self, h: u64) -> bool {
        self.live@.contains(h)
    }

    /// A device starts with no framebuffer registered.
    pub fn new() -> (r: FramebufferRegistry)
        ensures
            r.live@ =~= Seq::<u64>::empty(),
            r.wf(),
    {
        FramebufferRegistry { live: Vec::new(), next_handle: 1 }
    }

    /// Registers a rendered buffer as a framebuffer, yielding a fresh live
    /// handle.  Mirrors the device's framebuffer-creation ioctl on the
    /// success path; a failing ioctl registers nothing, so it needs no
    /// transition here.
    pub fn register_framebuffer(&mut self) -> (h: u64)
        requires
            old(self).wf(),
            old(self).next_handle < u64::MAX,
        ensures
            h == old(self).next_handle,
            !old(self).is_live(h),
            final(self).is_live(h),
            final(self).live@ =~= old(self).live@.push(h),
            final(self).wf(),
    {
        let h = self.next_handle;
        self.next_handle = self.next_handle + 1;
        self.live.push(h);
        proof {
            assert(self.live@.last() == h);
            assert forall|i: int| 0 <= i < self.live@.len() implies #[trigger] self.live@[i]
                < self.next_handle by {
                if i < self.live@.len() - 1 {
                    assert(self.live@[i] == old(self).live@[i]);
                }
            }
        }
        h
    }

    /// Destroys the framebuffer `h`.
    ///
    /// Idempotent by design: if `h` is not (or no longer) registered — for
    /// example because the buffer memory was already freed and the device
    /// invalidated the handle — the call is a no-op and still succeeds, so
    /// a defensive second teardown is harmless.
    pub fn destroy_framebuffer(&mut self, h: u64)
        requires
            old(self).wf(),
        ensures
            final(self).live@ == without(old(self).live@, h),
            !final(self).is_live(h),
            forall|g: u64| g != h ==> final(self).is_live(g) == old(self).is_live(g),
            !old(self).is_live(h) ==> final(self).live@ == old(self).live@,
            final(self).next_handle == old(self).next_handle,
            final(self).wf(),
    {
        let ghost input = self.live@;
        let mut kept: Vec<u64> = Vec::new();
        let mut i: usize = 0;
        while i < self.live.len()
            invariant
                i <= self.live@.len(),
                self.live@ == input,
                kept@ == without(input.take(i as int), h),
            decreases self.live@.len() - i,
        {
            let ghost prefix = input.take(i as int);
            let ghost grown = input.take(i as int + 1);
            let e = self.live[i];
            if e != h {
                kept.push(e);
            }
            proof {
                reveal(Seq::filter);
                assert(grown.drop_last() =~= prefix);
                assert(grown.last() == input[i as int]);
                assert(kept@ == without(grown, h));
            }
            i = i + 1;
        }
        proof {
            assert(input.take(input.len() as int) =~= input);
        }
        self.live = kept;
        proof {
            lemma_without_excludes(input, h);
            lemma_without_keeps_others(input, h);
            if !input.contains(h) {
                lemma_without_absent(input, h);
            }
            lemma_without_distinct(input, h);
            assert forall|idx: int| 0 <= idx < self.live@.len() implies #[trigger] self.live@[idx]
                < self.next_handle by {
                lemma_without_is_subset(input, h, idx);
                let k = choose|k: int| 0 <= k < input.len() && input[k] == self.live@[idx];
            }
        }
    }

    /// Registers a framebuffer for `buffer` and attaches the handle to it,
    /// so that releasing the buffer also tears the framebuffer down.
    pub fn register_for_scanout(&mut self, buffer: &mut ScanoutBuffer) -> (h: u64)
        requires
            old(self).wf(),
            old(self).next_handle < u64::MAX,
        ensures
            final(buffer).framebuffer == Some(h),
            h == old(self).next_handle,
            !old(self).is_live(h),
            final(self).is_live(h),
            final(self).live@ =~= old(self).live@.push(h),
            final(self).wf(),
    {
        let h = self.register_framebuffer();
        buffer.framebuffer = Some(h);
        h
    }

    /// Releases `buffer` back to the allocator, destroying its registered
    /// framebuffer first: the framebuffer never outlives the buffer it was
    /// registered against.  Consumes the buffer, so no use after release.
    pub fn release_buffer(&mut self, buffer: ScanoutBuffer)
        requires
            old(self).wf(),
        ensures
            buffer.framebuffer matches Some(h) ==> !final(self).is_live(h),
            buffer.framebuffer matches Some(h) ==> final(self).live@ == without(
                old(self).live@,
                h,
            ),
            buffer.framebuffer matches Some(h) ==> forall|g: u64|
                g != h ==> final(self).is_live(g) == old(self).is_live(g),
            buffer.framebuffer is None ==> *final(self) == *old(self),
            final(self).next_handle == old(self).next_handle,
            final(self).wf(),
    {
        match buffer.framebuffer {
            Option::Some(h) => self.destroy_framebuffer(h),
            Option::None => {},
        }
    }
}

/// The shared scanout device handle: the allocator surface, every live
/// framebuffer and the event source each hold a reference, and the device
/// is closed only when the last holder lets go.
///
/// The engine is strictly single-threaded, so plain counting suffices; no
/// locking is modelled or needed.
pub struct SharedDevice {
    pub holders: u64,
    pub closed: bool,
}

impl SharedDevice {
    /// Open exactly while someone still holds it.
    pub open spec fn wf(self) -> bool {
        self.closed <==> self.holders == 0
    }

    /// Opens the device with its first holder.
    pub fn open() -> (r: SharedDevice)
        ensures
            r.holders == 1,
            !r.closed,
            r.wf(),
    {
        SharedDevice { holders: 1, closed: false }
    }

    /// Hands a further holder a reference.
    pub fn acquire(&mut self)
        requires
            old(self).wf(),
            !old(self).closed,
            old(self).holders < u64::MAX,
        ensures
            final(self).holders == old(self).holders + 1,
            !final(self).closed,
            final(self).wf(),
    {
        self.holders = self.holders + 1;
    }

    /// Releases one holder's reference; the last release closes the
    /// device, never an earlier one.
    pub fn release(&mut self)
        requires
            old(self).wf(),
            !old(self).closed,
        ensures
            final(self).holders == old(self).holders - 1,
            final(self).closed <==> old(self).holders == 1,
            final(self).wf(),
    {
        self.holders = self.holders - 1;
        if self.holders == 0 {
            self.closed = true;
        }
    }
}

/// No occurrence of the removed handle survives.
pub proof fn lemma_without_excludes(s: Seq<u64>, h: u64)
    ensures
        !without(s, h).contains(h),
    decreases s.len(),
{
    reveal(Seq::filter);
    if s.len() > 0 {
        lemma_without_excludes(s.drop_last(), h);
    }
}

/// Every other handle survives the removal exactly as it was present.
pub proof fn lemma_without_keeps_others(s: Seq<u64>, h: u64)
    ensures
        forall|g: u64| g != h ==> without(s, h).contains(g) == s.contains(g),
    decreases s.len(),
{
    reveal(Seq::filter);
    if s.len() > 0 {
        lemma_without_keeps_others(s.drop_last(), h);
        assert forall|g: u64| g != h implies without(s, h).contains(g) == s.contains(g) by {
            assert(without(s.drop_last(), h).contains(g) == s.drop_last().contains(g));
            if s.contains(g) {
                let k = choose|k: int| 0 <= k < s.len() && s[k] == g;
                if k < s.len() - 1 {
                    assert(s.drop_last()[k] == g);
                } else {
                    assert(s.last() == g);
                }
            }
            if s.drop_last().contains(g) {
                let k = choose|k: int| 0 <= k < s.drop_last().len() && s.drop_last()[k] == g;
                assert(s[k] == g);
            }
            if without(s, h).contains(g) {
                let k = choose|k: int| 0 <= k < without(s, h).len() && without(s, h)[k] == g;
                if s.last() != h && k == without(s, h).len() - 1 {
                    assert(s.last() == g);
                } else {
                    assert(without(s.drop_last(), h)[k] == g);
                }
            }
        }
    }
}

/// Each surviving entry came from the original sequence.
pub proof fn lemma_without_is_subset(s: Seq<u64>, h: u64, i: int)
    requires
        0 <= i < without(s, h).len(),
    ensures
        s.contains(without(s, h)[i]),
    decreases s.len(),
{
    reveal(Seq::filter);
    if s.len() > 0 {
        let w = without(s, h);
        if s.last() != h && i == w.len() - 1 {
            assert(s[s.len() - 1] == w[i]);
        } else {
            lemma_without_is_subset(s.drop_last(), h, i);
            let k = choose|k: int| 0 <= k < s.drop_last().len() && s.drop_last()[k] == without(
                s.drop_last(),
                h,
            )[i];
            assert(s[k] == w[i]);
        }
    }
}

/// Removing a handle that never was in the sequence changes nothing.
pub proof fn lemma_without_absent(s: Seq<u64>, h: u64)
    requires
        !s.contains(h),
    ensures
        without(s, h) == s,
    decreases s.len(),
{
    reveal(Seq::filter);
    if s.len() > 0 {
        assert(!s.drop_last().contains(h)) by {
            if s.drop_last().contains(h) {
                let k = choose|k: int| 0 <= k < s.drop_last().len() && s.drop_last()[k] == h;
                assert(s[k] == h);
            }
        }
        lemma_without_absent(s.drop_last(), h);
        assert(s.last() != h) by {
            if s.last() == h {
                assert(s[s.len() - 1] == h);
            }
        }
        assert(without(s, h) =~= s);
    } else {
        assert(without(s, h) =~= s);
    }
}

/// Removal keeps entries unique.
pub proof fn lemma_without_distinct(s: Seq<u64>, h: u64)
    requires
        distinct(s),
    ensures
        distinct(without(s, h)),
    decreases s.len(),
{
    reveal(Seq::filter);
    if s.len() > 0 {
        assert(distinct(s.drop_last())) by {
            assert forall|i: int, j: int|
                0 <= i < j < s.drop_last().len() implies #[trigger] s.drop_last()[i]
                != #[trigger] s.drop_last()[j] by {
                assert(s[i] != s[j]);
            }
        }
        lemma_without_distinct(s.drop_last(), h);
        if s.last() != h {
            let w = without(s, h);
            let wd = without(s.drop_last(), h);
            assert(w == wd.push(s.last()));
            assert forall|i: int, j: int| 0 <= i < j < w.len() implies #[trigger] w[i]
                != #[trigger] w[j] by {
                if j < wd.len() {
                    assert(wd[i] != wd[j]);
                } else {
                    // the appended last element of `s` cannot equal an
                    // earlier survivor, which stems from `s` before its end
                    lemma_without_is_subset(s.drop_last(), h, i);
                    let k = choose|k: int|
                        0 <= k < s.drop_last().len() && s.drop_last()[k] == wd[i];
                    assert(s[k] == wd[i]);
                    assert(s[k] != s[s.len() - 1]);
                }
            }
        }
    }
}

/// Tearing a framebuffer handle down twice is the same as tearing it down
/// once: the registry a destruction leaves behind is a fixed point of that
/// destruction.
pub proof fn lemma_teardown_idempotent(s: Seq<u64>, h: u64)
    ensures
        without(without(s, h), h) == without(s, h),
    decreases s.len(),
{
    reveal(Seq::filter);
    if s.len() > 0 {
        lemma_teardown_idempotent(s.drop_last(), h);
        if s.last() != h {
            assert(without(s, h).drop_last() =~= without(s.drop_last(), h));
            assert(without(without(s, h), h) =~= without(s, h));
        }
    } else {
        assert(without(s, h) =~= s);
    }
}

} // verus!
