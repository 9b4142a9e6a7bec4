use kms_present::page_flip::{PageFlipMachine, PageFlipState};

#[test]
fn initial_present_goes_through_modeset() {
    let mut m: PageFlipMachine<u32, u32> = PageFlipMachine::new();
    assert!(m.is_ready_to_present());
    assert!(m.needs_initial_modeset());
    m.set_next_animation_frame_callback(1);
    let cb = m.commit_initial_present(10);
    // the armed callback is handed back for immediate (deferred) scheduling
    assert_eq!(cb, Some(1));
    assert!(matches!(m.state, PageFlipState::InitialBufferPosted));
    assert!(m.is_ready_to_present());
    assert!(!m.needs_initial_modeset());
}

#[test]
fn flip_blocks_until_completion_event() {
    let mut m: PageFlipMachine<u32, u32> = PageFlipMachine::new();
    m.commit_initial_present(10);
    m.set_next_animation_frame_callback(2);
    m.commit_flip_present(11);
    // while the flip is outstanding no further submission is allowed
    assert!(!m.is_ready_to_present());
    // the buffer that was on screen is retained for the flip
    assert!(matches!(m.state, PageFlipState::WaitingForPageFlip { retained: 10 }));
    // the callback does not fire before the completion event
    let (released, cb) = m.page_flip_completed();
    assert_eq!(released, Some(10));
    assert_eq!(cb, Some(2));
    assert!(m.is_ready_to_present());
    assert!(matches!(m.state, PageFlipState::ReadyForNextBuffer));
}

#[test]
fn callback_is_one_shot() {
    let mut m: PageFlipMachine<u32, u32> = PageFlipMachine::new();
    m.commit_initial_present(10);
    m.set_next_animation_frame_callback(7);
    m.commit_flip_present(11);
    let (_, cb) = m.page_flip_completed();
    assert_eq!(cb, Some(7));
    // consumed: a second completion hands out no callback
    let (released, cb2) = m.page_flip_completed();
    assert_eq!(released, None);
    assert_eq!(cb2, None);
}

#[test]
fn stray_completion_before_any_post_is_ignored() {
    let mut m: PageFlipMachine<u32, u32> = PageFlipMachine::new();
    m.set_next_animation_frame_callback(5);
    let (released, cb) = m.page_flip_completed();
    assert_eq!(released, None);
    assert_eq!(cb, None);
    // the machine is untouched: callback still armed, nothing posted
    assert!(matches!(m.state, PageFlipState::NoFrameBufferPosted));
    assert!(matches!(m.next_frame_callback, Some(5)));
}

#[test]
fn consecutive_flips_each_need_a_completion() {
    let mut m: PageFlipMachine<u32, u32> = PageFlipMachine::new();
    m.commit_initial_present(1);
    let mut shown = 1u32;
    for next in 2..6u32 {
        assert!(m.is_ready_to_present());
        m.commit_flip_present(next);
        assert!(!m.is_ready_to_present());
        let (released, _) = m.page_flip_completed();
        // each completion releases exactly the previously shown buffer
        assert_eq!(released, Some(shown));
        shown = next;
        assert!(m.is_ready_to_present());
    }
}

#[test]
fn failed_present_commits_no_transition() {
    let mut m: PageFlipMachine<u32, u32> = PageFlipMachine::new();
    m.commit_initial_present(10);
    m.set_next_animation_frame_callback(3);
    // a failing flip submission never reaches the commit: the machine is
    // unchanged and the caller may retry
    assert!(m.is_ready_to_present());
    assert!(matches!(m.state, PageFlipState::InitialBufferPosted));
    assert!(matches!(m.next_frame_callback, Some(3)));
    // the retry then goes through
    m.commit_flip_present(11);
    assert!(matches!(m.state, PageFlipState::WaitingForPageFlip { retained: 10 }));
}
