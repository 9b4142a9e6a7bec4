use kms_present::output::{
    connector_name, filter_crtcs, list_outputs, parse_selector, resolve_output, select_crtc,
    select_mode, try_resolve_output, ConnectorInfo, DeviceSnapshot, DiscoveryError,
    DiscoveryErrorKind, DisplayMode, EncoderInfo, OutputSelector,
};

fn mode(width: u32, height: u32, preferred: bool) -> DisplayMode {
    DisplayMode { width, height, refresh: 60, preferred }
}

fn connector(
    handle: u32,
    interface: &str,
    interface_id: u32,
    connected: bool,
    modes: Vec<DisplayMode>,
    encoders: Vec<u32>,
    current_encoder: Option<u32>,
) -> ConnectorInfo {
    ConnectorInfo {
        handle,
        interface: interface.to_string(),
        interface_id,
        connected,
        modes,
        encoders,
        current_encoder,
    }
}

#[test]
fn preferred_flag_dominates_pixel_area() {
    let modes = vec![mode(800, 600, false), mode(1920, 1080, false), mode(1280, 720, true)];
    let picked = select_mode(&modes).unwrap();
    assert_eq!(picked, 2);
    assert_eq!(modes[picked], mode(1280, 720, true));
}

#[test]
fn larger_area_wins_without_preferred_flag() {
    let modes = vec![mode(800, 600, false), mode(1920, 1080, false), mode(1280, 720, false)];
    assert_eq!(select_mode(&modes), Some(1));
}

#[test]
fn equal_modes_pick_the_last_enumerated() {
    let modes = vec![mode(1024, 768, false), mode(1024, 768, false)];
    assert_eq!(select_mode(&modes), Some(1));
}

#[test]
fn no_mode_advertised_selects_nothing() {
    let modes: Vec<DisplayMode> = vec![];
    assert_eq!(select_mode(&modes), None);
}

#[test]
fn connector_names_join_interface_and_id() {
    let c = connector(1, "HDMI-A", 1, true, vec![], vec![], None);
    assert_eq!(connector_name(&c), "HDMI-A-1");
    let c = connector(2, "DP", 307, false, vec![], vec![], None);
    assert_eq!(connector_name(&c), "DP-307");
    let c = connector(3, "Virtual", 0, false, vec![], vec![], None);
    assert_eq!(connector_name(&c), "Virtual-0");
}

#[test]
fn crtc_mask_filters_by_position() {
    let crtcs = vec![100, 101, 102, 103];
    assert_eq!(filter_crtcs(&crtcs, 0b0101), vec![100, 102]);
    assert_eq!(filter_crtcs(&crtcs, 0), Vec::<u32>::new());
    assert_eq!(filter_crtcs(&crtcs, 0b1111), crtcs);
}

#[test]
fn current_encoder_crtc_is_preferred_when_valid() {
    let conn = connector(1, "HDMI-A", 1, true, vec![mode(800, 600, true)], vec![20], Some(20));
    let dev = DeviceSnapshot {
        connectors: vec![],
        encoders: vec![EncoderInfo { handle: 20, crtc: Some(101), possible_crtcs: 0b11 }],
        crtcs: vec![100, 101],
        usable_crtcs: vec![100, 101],
    };
    assert_eq!(select_crtc(&conn, &dev), Some(101));
}

#[test]
fn invalid_current_crtc_falls_through_to_search() {
    // the CRTC bound to the current encoder is not in the currently
    // usable set, so selection must search the reachable encoders and
    // find the alternate pairing
    let conn =
        connector(1, "HDMI-A", 1, true, vec![mode(800, 600, true)], vec![20, 21], Some(20));
    let dev = DeviceSnapshot {
        connectors: vec![],
        encoders: vec![
            EncoderInfo { handle: 20, crtc: Some(101), possible_crtcs: 0b10 },
            EncoderInfo { handle: 21, crtc: None, possible_crtcs: 0b01 },
        ],
        crtcs: vec![100, 101],
        // 101 is gone; only 100 still probes as usable
        usable_crtcs: vec![100],
    };
    assert_eq!(select_crtc(&conn, &dev), Some(100));
}

#[test]
fn no_valid_pairing_selects_nothing() {
    let conn = connector(1, "HDMI-A", 1, true, vec![mode(800, 600, true)], vec![20], Some(20));
    let dev = DeviceSnapshot {
        connectors: vec![],
        encoders: vec![EncoderInfo { handle: 20, crtc: Some(101), possible_crtcs: 0b11 }],
        crtcs: vec![100, 101],
        usable_crtcs: vec![],
    };
    assert_eq!(select_crtc(&conn, &dev), None);
}

fn demo_device() -> DeviceSnapshot {
    DeviceSnapshot {
        connectors: vec![
            connector(1, "eDP", 1, false, vec![mode(1366, 768, true)], vec![20], Some(20)),
            connector(
                2,
                "HDMI-A",
                1,
                true,
                vec![mode(800, 600, false), mode(1920, 1080, false), mode(1280, 720, true)],
                vec![21],
                Some(21),
            ),
        ],
        encoders: vec![
            EncoderInfo { handle: 20, crtc: Some(100), possible_crtcs: 0b01 },
            EncoderInfo { handle: 21, crtc: Some(101), possible_crtcs: 0b11 },
        ],
        crtcs: vec![100, 101],
        usable_crtcs: vec![100, 101],
    }
}

#[test]
fn first_connected_connector_is_chosen() {
    let dev = demo_device();
    let cfg = try_resolve_output(&dev, &OutputSelector::FirstConnected).unwrap();
    assert_eq!(cfg.connector_index, 1);
    assert_eq!(cfg.connector_handle, 2);
    assert_eq!(cfg.mode, mode(1280, 720, true));
    assert_eq!(cfg.crtc, 101);
}

#[test]
fn named_selector_finds_connected_output() {
    let dev = demo_device();
    let sel = parse_selector("HDMI-A-1");
    let cfg = try_resolve_output(&dev, &sel).unwrap();
    assert_eq!(cfg.connector_index, 1);
}

#[test]
fn named_selector_rejects_unplugged_output() {
    let dev = demo_device();
    let sel = parse_selector("eDP-1");
    let err = try_resolve_output(&dev, &sel).unwrap_err();
    assert_eq!(err.kind(), DiscoveryErrorKind::OutputNotConnected);
    match err {
        DiscoveryError::OutputNotConnected { name } => assert_eq!(name, "eDP-1"),
        _ => unreachable!(),
    }
}

#[test]
fn unknown_name_is_reported() {
    let dev = demo_device();
    let sel = parse_selector("DP-3");
    let err = try_resolve_output(&dev, &sel).unwrap_err();
    assert_eq!(err.kind(), DiscoveryErrorKind::NoOutputWithName);
    match err {
        DiscoveryError::NoOutputWithName { name } => assert_eq!(name, "DP-3"),
        _ => unreachable!(),
    }
}

#[test]
fn listing_names_every_connector_once() {
    let dev = demo_device();
    let err = try_resolve_output(&dev, &OutputSelector::List).unwrap_err();
    assert_eq!(err.kind(), DiscoveryErrorKind::ListRequested);
    match err {
        DiscoveryError::ListRequested { listing } => {
            assert_eq!(listing.len(), 2);
            assert_eq!(listing[0].name, "eDP-1");
            assert!(!listing[0].connected);
            assert_eq!(listing[1].name, "HDMI-A-1");
            assert!(listing[1].connected);
        },
        _ => unreachable!(),
    }
}

#[test]
fn listing_helper_matches_connectors() {
    let dev = demo_device();
    let listing = list_outputs(&dev.connectors);
    assert_eq!(listing.len(), dev.connectors.len());
    for (entry, conn) in listing.iter().zip(dev.connectors.iter()) {
        assert_eq!(entry.name, connector_name(conn));
        assert_eq!(entry.connected, conn.connected);
    }
}

#[test]
fn selector_strings_parse_as_documented() {
    assert!(matches!(parse_selector(""), OutputSelector::FirstConnected));
    assert!(matches!(parse_selector("list"), OutputSelector::List));
    assert!(matches!(parse_selector("LIST"), OutputSelector::List));
    assert!(matches!(parse_selector("LiSt"), OutputSelector::List));
    match parse_selector("HDMI-A-2") {
        OutputSelector::Named { name } => assert_eq!(name, "HDMI-A-2"),
        _ => unreachable!(),
    }
    // near misses are names, not the listing request
    assert!(matches!(parse_selector("lists"), OutputSelector::Named { .. }));
    assert!(matches!(parse_selector("mist"), OutputSelector::Named { .. }));
}

#[test]
fn no_connected_connector_is_reported() {
    let mut dev = demo_device();
    dev.connectors[1].connected = false;
    let err = try_resolve_output(&dev, &OutputSelector::FirstConnected).unwrap_err();
    assert_eq!(err.kind(), DiscoveryErrorKind::NoConnectedConnector);
}

#[test]
fn connector_without_modes_is_reported() {
    let mut dev = demo_device();
    dev.connectors[1].modes = vec![];
    let err = try_resolve_output(&dev, &OutputSelector::FirstConnected).unwrap_err();
    assert_eq!(err.kind(), DiscoveryErrorKind::NoMode);
}

#[test]
fn zero_sized_modes_are_rejected() {
    let mut dev = demo_device();
    dev.connectors[1].modes = vec![mode(0, 720, true)];
    let err = try_resolve_output(&dev, &OutputSelector::FirstConnected).unwrap_err();
    assert_eq!(err.kind(), DiscoveryErrorKind::InvalidWidth);
    dev.connectors[1].modes = vec![mode(1280, 0, true)];
    let err = try_resolve_output(&dev, &OutputSelector::FirstConnected).unwrap_err();
    assert_eq!(err.kind(), DiscoveryErrorKind::InvalidHeight);
}

#[test]
fn missing_crtc_names_the_connector() {
    let mut dev = demo_device();
    dev.usable_crtcs = vec![];
    let err = try_resolve_output(&dev, &OutputSelector::FirstConnected).unwrap_err();
    assert_eq!(err.kind(), DiscoveryErrorKind::NoCrtc);
    match err {
        DiscoveryError::NoCrtc { connector_name } => assert_eq!(connector_name, "HDMI-A-1"),
        _ => unreachable!(),
    }
}

#[test]
fn first_succeeding_device_wins() {
    let mut broken = demo_device();
    broken.usable_crtcs = vec![];
    let devices = vec![broken, demo_device()];
    let res = resolve_output(&devices, &OutputSelector::FirstConnected).unwrap();
    assert_eq!(res.device_index, 1);
    assert_eq!(res.config.crtc, 101);
}

#[test]
fn all_devices_failing_surfaces_the_last_error() {
    let mut no_crtc = demo_device();
    no_crtc.usable_crtcs = vec![];
    let mut unplugged = demo_device();
    unplugged.connectors[1].connected = false;
    let devices = vec![no_crtc, unplugged];
    let err = resolve_output(&devices, &OutputSelector::FirstConnected).unwrap_err();
    assert_eq!(err.kind(), DiscoveryErrorKind::NoConnectedConnector);
}

#[test]
fn no_device_at_all_is_its_own_error() {
    let devices: Vec<DeviceSnapshot> = vec![];
    let err = resolve_output(&devices, &OutputSelector::FirstConnected).unwrap_err();
    assert_eq!(err.kind(), DiscoveryErrorKind::NoDevice);
}

#[test]
fn listing_stops_at_the_first_device() {
    let devices = vec![demo_device(), demo_device()];
    let err = resolve_output(&devices, &OutputSelector::List).unwrap_err();
    match err {
        DiscoveryError::ListRequested { listing } => assert_eq!(listing.len(), 2),
        _ => unreachable!(),
    }
}
