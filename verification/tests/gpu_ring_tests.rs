use kms_present::gpu_ring::{
    gpu_rank, pick_gpu, FenceState, FrameRing, GpuCandidate, GpuKind, RenderError, SurfaceSize,
    WaitOutcome, FRAMES_IN_FLIGHT,
};

fn size(width: u32, height: u32) -> SurfaceSize {
    SurfaceSize { width, height }
}

/// Runs one full successful frame and returns the slot it used.
fn run_frame(ring: &mut FrameRing) -> usize {
    let slot = ring.prepare_frame();
    let got = ring.after_wait(WaitOutcome::Signaled).unwrap();
    assert_eq!(got, slot);
    ring.complete_submit();
    slot
}

#[test]
fn slots_rotate_round_robin() {
    let mut ring = FrameRing::new(size(800, 600));
    assert_eq!(run_frame(&mut ring), 0);
    assert_eq!(run_frame(&mut ring), 1);
    assert_eq!(run_frame(&mut ring), 2);
    assert_eq!(run_frame(&mut ring), 0);
    assert_eq!(run_frame(&mut ring), 1);
}

#[test]
fn frame_three_waits_on_frame_zeros_fence() {
    let mut ring = FrameRing::new(size(800, 600));
    for _ in 0..FRAMES_IN_FLIGHT {
        run_frame(&mut ring);
    }
    // frame 3 comes back to slot 0, whose fence is the one frame 0
    // submitted: until the GPU signals it, the frame cannot begin
    let slot = ring.prepare_frame();
    assert_eq!(slot, 0);
    assert!(matches!(ring.fences[slot], FenceState::InFlight { frame: 0 }));
    // an unsignaled fence times the wait out and aborts the frame
    let err = ring.after_wait(WaitOutcome::TimedOut).unwrap_err();
    assert_eq!(err, RenderError::GpuHung);
    // once the fence signals, the wait goes through and the slot is reused
    let slot = ring.prepare_frame();
    assert_eq!(slot, 0);
    let got = ring.after_wait(WaitOutcome::Signaled).unwrap();
    assert_eq!(got, 0);
    ring.complete_submit();
    assert!(matches!(ring.fences[0], FenceState::InFlight { frame: 3 }));
}

#[test]
fn resize_recreates_all_views_before_drawing() {
    let mut ring = FrameRing::new(size(800, 600));
    // construction latches the initial size: the first frame builds its
    // views once
    let before = ring.views_created;
    let slot = ring.prepare_frame();
    assert_eq!(ring.views_created, before + FRAMES_IN_FLIGHT as u64);
    assert_eq!(ring.size, size(800, 600));
    ring.after_wait(WaitOutcome::Signaled).unwrap();
    ring.complete_submit();
    let _ = slot;

    // a steady frame recreates nothing
    let before = ring.views_created;
    ring.prepare_frame();
    assert_eq!(ring.views_created, before);
    ring.after_wait(WaitOutcome::Signaled).unwrap();
    ring.complete_submit();

    // a resize is latched, and the next frame recreates exactly one view
    // per slot before the draw slot is handed out
    ring.resize_event(size(1024, 768));
    assert_eq!(ring.size, size(800, 600));
    let before = ring.views_created;
    ring.prepare_frame();
    assert_eq!(ring.views_created, before + FRAMES_IN_FLIGHT as u64);
    assert_eq!(ring.size, size(1024, 768));
    ring.after_wait(WaitOutcome::Signaled).unwrap();
    ring.complete_submit();

    // and only once per resize
    let before = ring.views_created;
    ring.prepare_frame();
    assert_eq!(ring.views_created, before);
}

#[test]
fn aborted_frame_skips_its_slot() {
    let mut ring = FrameRing::new(size(640, 480));
    let slot = ring.prepare_frame();
    assert_eq!(slot, 0);
    ring.after_wait(WaitOutcome::Signaled).unwrap();
    // a per-frame failure after the wait abandons the frame; the cursor
    // has advanced, so the next frame takes the next slot
    ring.abort_frame();
    assert!(matches!(ring.fences[0], FenceState::Unsignaled));
    let slot = ring.prepare_frame();
    assert_eq!(slot, 1);
}

#[test]
fn timeout_leaves_the_ring_consistent() {
    let mut ring = FrameRing::new(size(640, 480));
    run_frame(&mut ring);
    let cursor_before = ring.frame_index();
    ring.prepare_frame();
    let err = ring.after_wait(WaitOutcome::TimedOut).unwrap_err();
    assert_eq!(err, RenderError::GpuHung);
    assert_eq!(ring.frame_index(), cursor_before);
}

#[test]
fn pixel_depth_is_fixed() {
    let ring = FrameRing::new(size(1, 1));
    assert_eq!(ring.bits_per_pixel(), 32);
}

fn candidate(kind: GpuKind, supported: bool, families: Vec<bool>) -> GpuCandidate {
    GpuCandidate { kind, supports_required_extensions: supported, graphics_capable: families }
}

#[test]
fn discrete_gpu_outranks_integrated() {
    let candidates = vec![
        candidate(GpuKind::Integrated, true, vec![true]),
        candidate(GpuKind::Discrete, true, vec![false, true]),
        candidate(GpuKind::Cpu, true, vec![true]),
    ];
    // the discrete device wins, with its first graphics-capable family
    assert_eq!(pick_gpu(&candidates), Some((1, 1)));
}

#[test]
fn ineligible_devices_are_skipped() {
    let candidates = vec![
        candidate(GpuKind::Discrete, false, vec![true]),
        candidate(GpuKind::Discrete, true, vec![false, false]),
        candidate(GpuKind::Virtual, true, vec![true]),
    ];
    // no extension support and no graphics family both disqualify
    assert_eq!(pick_gpu(&candidates), Some((2, 0)));
}

#[test]
fn equally_ranked_devices_pick_the_first() {
    let candidates = vec![
        candidate(GpuKind::Integrated, true, vec![true]),
        candidate(GpuKind::Integrated, true, vec![true]),
    ];
    assert_eq!(pick_gpu(&candidates), Some((0, 0)));
}

#[test]
fn no_suitable_device_picks_nothing() {
    let candidates = vec![
        candidate(GpuKind::Discrete, false, vec![true]),
        candidate(GpuKind::Other, true, vec![]),
    ];
    assert_eq!(pick_gpu(&candidates), None);
    assert_eq!(pick_gpu(&Vec::new()), None);
}

#[test]
fn gpu_ranking_order_is_fixed() {
    assert!(gpu_rank(GpuKind::Discrete) < gpu_rank(GpuKind::Integrated));
    assert!(gpu_rank(GpuKind::Integrated) < gpu_rank(GpuKind::Virtual));
    assert!(gpu_rank(GpuKind::Virtual) < gpu_rank(GpuKind::Cpu));
    assert!(gpu_rank(GpuKind::Cpu) < gpu_rank(GpuKind::Other));
    assert!(gpu_rank(GpuKind::Other) < gpu_rank(GpuKind::Unknown));
}
