use kms_present::bridge::{has_page_flip, DisplayEvent, EventSourceRegistration, TimerDriver};
use kms_present::cli::Cli;

#[test]
fn source_registration_happens_once() {
    let mut reg = EventSourceRegistration::new();
    assert!(!reg.registered);
    // the first call asks for the actual insertion
    assert!(reg.register());
    assert!(reg.registered);
    // a second attempt is a no-op success
    assert!(!reg.register());
    assert!(reg.registered);
}

#[test]
fn only_page_flip_events_count() {
    assert!(!has_page_flip(&vec![]));
    assert!(!has_page_flip(&vec![DisplayEvent::VBlank, DisplayEvent::Other]));
    assert!(has_page_flip(&vec![DisplayEvent::VBlank, DisplayEvent::PageFlip]));
    assert!(has_page_flip(&vec![DisplayEvent::PageFlip]));
}

#[test]
fn timer_driver_fires_the_callback_once() {
    let mut driver: TimerDriver<u32> = TimerDriver::new();
    assert!(driver.is_ready_to_present());
    driver.present_with_next_frame_callback(9);
    assert!(driver.timer_running);
    // the tick stops the timer and consumes the callback
    assert_eq!(driver.tick(), Some(9));
    assert!(!driver.timer_running);
    assert_eq!(driver.tick(), None);
    // presenting again re-arms and restarts
    driver.present_with_next_frame_callback(10);
    assert!(driver.timer_running);
    assert_eq!(driver.tick(), Some(10));
}

#[test]
fn style_defaults_to_native() {
    let cli = Cli::default();
    assert_eq!(cli.effective_style(), "native");
    assert!(!cli.has_backend_override());
    let cli = Cli { style: "fluent".to_string(), ..Cli::default() };
    assert_eq!(cli.effective_style(), "fluent");
    let cli = Cli { backend: "skia".to_string(), ..Cli::default() };
    assert!(cli.has_backend_override());
}
