use kms_present::scanout::{FramebufferRegistry, ScanoutBuffer, SharedDevice};

#[test]
fn registered_framebuffers_are_fresh_and_live() {
    let mut reg = FramebufferRegistry::new();
    let a = reg.register_framebuffer();
    let b = reg.register_framebuffer();
    assert_ne!(a, b);
    assert!(reg.live.contains(&a));
    assert!(reg.live.contains(&b));
}

#[test]
fn destroy_removes_only_the_named_handle() {
    let mut reg = FramebufferRegistry::new();
    let a = reg.register_framebuffer();
    let b = reg.register_framebuffer();
    reg.destroy_framebuffer(a);
    assert!(!reg.live.contains(&a));
    assert!(reg.live.contains(&b));
}

#[test]
fn teardown_is_idempotent() {
    let mut reg = FramebufferRegistry::new();
    let a = reg.register_framebuffer();
    let b = reg.register_framebuffer();
    reg.destroy_framebuffer(a);
    let after_first = reg.live.clone();
    // destroying an already-gone handle succeeds and changes nothing,
    // as when the memory was freed and the handle implicitly invalidated
    reg.destroy_framebuffer(a);
    assert_eq!(reg.live, after_first);
    assert!(reg.live.contains(&b));
}

#[test]
fn releasing_a_buffer_tears_its_framebuffer_down() {
    let mut reg = FramebufferRegistry::new();
    let mut buffer = ScanoutBuffer { framebuffer: None };
    let fb = reg.register_for_scanout(&mut buffer);
    assert_eq!(buffer.framebuffer, Some(fb));
    assert!(reg.live.contains(&fb));
    // the framebuffer handle never outlives the buffer it was registered
    // against: releasing the buffer destroys it first
    reg.release_buffer(buffer);
    assert!(!reg.live.contains(&fb));
}

#[test]
fn releasing_a_plain_buffer_changes_nothing() {
    let mut reg = FramebufferRegistry::new();
    let a = reg.register_framebuffer();
    let before = reg.live.clone();
    reg.release_buffer(ScanoutBuffer { framebuffer: None });
    assert_eq!(reg.live, before);
    assert!(reg.live.contains(&a));
}

#[test]
fn device_closes_with_its_last_holder() {
    // the allocator surface opens the device; a framebuffer and the
    // event source take their own references
    let mut device = SharedDevice::open();
    device.acquire();
    device.acquire();
    assert_eq!(device.holders, 3);
    // releasing all but the last holder keeps the device open
    device.release();
    device.release();
    assert!(!device.closed);
    // only the last release closes it
    device.release();
    assert!(device.closed);
    assert_eq!(device.holders, 0);
}
