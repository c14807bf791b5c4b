use edge_kvm::clock::Instant;
use edge_kvm::desktop::{
    desktop_names_include_niri, fallback_remote_size, is_niri_session, parse_hypr_cursor_position,
    parse_invisible_option, real_cursor_at_return_edge, remote_size, HyprCursorPosition,
    HyprlandCursorController, ReceiverBackend, RemoteReturnWatcher, ScreenArea, Size,
};
use edge_kvm::pointer_monitor::{
    activity_in, classify_device, event_is_activity, is_event_node, unreadable_devices, DeviceKey,
    KernelInputEvent, LocalPointerActivity, LocalPointerKind, PointerReaders, BTN_MOUSE, BTN_TOUCH,
    EV_ABS, EV_KEY, EV_REL,
};
use edge_kvm::protocol::{ControlEvent, Edge, F32Bits, OutputInfo, ReleaseReason, ScreenInfo};

const NOW: Instant = Instant { nanos: 7_000_000 };

fn output(name: &str, width: u32, height: u32, x: i32) -> OutputInfo {
    OutputInfo {
        name: name.to_string(),
        width,
        height,
        scale: F32Bits(1.0f32.to_bits()),
        x,
        y: 0,
    }
}

#[test]
fn missing_screen_info_keeps_capture_enabled_with_fallback_geometry() {
    assert_eq!(remote_size(None), (fallback_remote_size(), true));
}

#[test]
fn advertised_primary_output_geometry_is_used() {
    let info = ScreenInfo {
        primary_output: "DP-2".to_string(),
        outputs: vec![output("DP-1", 1920, 1080, 0), output("DP-2", 2560, 1440, 1920)],
    };

    assert_eq!(
        remote_size(Some(&info)),
        (
            Size {
                width: 2560,
                height: 1440
            },
            false
        )
    );
}

#[test]
fn first_screen_stands_in_for_an_unknown_primary_one() {
    let info = ScreenInfo {
        primary_output: "HDMI-1".to_string(),
        outputs: vec![output("DP-1", 1280, 800, 0), output("DP-2", 2560, 1440, 1280)],
    };
    assert_eq!(
        remote_size(Some(&info)),
        (
            Size {
                width: 1280,
                height: 800
            },
            false
        )
    );
    let empty = ScreenInfo {
        primary_output: "DP-1".to_string(),
        outputs: vec![output("DP-1", 0, 800, 0)],
    };
    assert_eq!(
        remote_size(Some(&empty)),
        (
            Size {
                width: 1920,
                height: 1080
            },
            true
        )
    );
}

#[test]
fn recognizes_niri_in_desktop_name_lists() {
    assert!(desktop_names_include_niri("niri"));
    assert!(desktop_names_include_niri("NIRI"));
    assert!(desktop_names_include_niri("niri:GNOME"));
    assert!(!desktop_names_include_niri("Hyprland"));
}

#[test]
fn niri_is_a_name_of_its_own() {
    assert!(desktop_names_include_niri("GNOME;Niri"));
    assert!(desktop_names_include_niri(":niri:"));
    assert!(!desktop_names_include_niri("niri2:xniri"));
    assert!(!desktop_names_include_niri(""));
    assert!(is_niri_session(None, None, true));
    assert!(is_niri_session(None, Some("niri"), false));
    assert!(!is_niri_session(Some("GNOME"), Some("gnome"), false));
}

#[test]
fn parses_hyprland_integer_option() {
    assert_eq!(parse_invisible_option("int: 0\nset: false\n"), Some(false));
    assert_eq!(parse_invisible_option("int: 1\nset: true\n"), Some(true));
    assert_eq!(parse_invisible_option("set: false\n"), None);
}

#[test]
fn hyprland_option_is_taken_from_the_first_line_that_has_it() {
    assert_eq!(parse_invisible_option("option cursor\r\n  int:1  \r\n"), Some(true));
    assert_eq!(parse_invisible_option("int: 2\nint: 0"), Some(false));
    assert_eq!(parse_invisible_option(""), None);
}

#[test]
fn pointer_is_restored_as_it_was_found() {
    let mut cursor = HyprlandCursorController::connect("int: 0\nset: false\n").unwrap();
    assert!(!cursor.is_hidden());
    assert_eq!(cursor.restore(), None);
    assert_eq!(cursor.request(true), Some("true"));
    cursor.applied(true);
    assert!(cursor.is_hidden());
    assert_eq!(cursor.request(true), None);
    assert_eq!(cursor.restore(), Some("false"));
    cursor.restored();
    assert!(!cursor.is_hidden());
    assert!(HyprlandCursorController::connect("nothing").is_none());
}

#[test]
fn pointer_position_is_two_numbers() {
    assert_eq!(
        parse_hypr_cursor_position("12, -34"),
        Some(HyprCursorPosition { x: 12, y: -34 })
    );
    assert_eq!(
        parse_hypr_cursor_position("-2147483648,+2147483647"),
        Some(HyprCursorPosition {
            x: i32::MIN,
            y: i32::MAX
        })
    );
    assert_eq!(parse_hypr_cursor_position("2147483648,0"), None);
    assert_eq!(parse_hypr_cursor_position("1"), None);
    assert_eq!(parse_hypr_cursor_position("1,2,3"), None);
    assert_eq!(parse_hypr_cursor_position("-,1"), None);
    assert_eq!(parse_hypr_cursor_position("--1,1"), None);
}

#[test]
fn return_edges_face_the_other_computer() {
    let screen = ScreenArea {
        x: 100,
        y: 50,
        width: 1920,
        height: 1080,
    };
    let at = |x: i32, y: i32, edge: Edge| {
        real_cursor_at_return_edge(HyprCursorPosition { x, y }, screen, edge)
    };
    assert!(at(2007, 500, Edge::Left));
    assert!(!at(2006, 500, Edge::Left));
    assert!(at(112, 500, Edge::Right));
    assert!(!at(113, 500, Edge::Right));
    assert!(at(500, 1117, Edge::Top));
    assert!(!at(500, 1116, Edge::Top));
    assert!(at(500, 62, Edge::Bottom));
    assert!(!at(500, 63, Edge::Bottom));
}

#[test]
fn pointer_goes_back_after_two_looks_and_a_grace() {
    let info = ScreenInfo {
        primary_output: "DP-1".to_string(),
        outputs: vec![output("DP-1", 1920, 1080, 0)],
    };
    let mut watcher = RemoteReturnWatcher::new(Some(&info));
    assert!(!watcher.start_poll(NOW));
    let enter = ControlEvent::EnterRemote {
        edge: Edge::Right,
        normalized_position: F32Bits(0),
    };
    watcher.record_control(&enter, NOW);
    assert!(!watcher.start_poll(NOW.plus_millis(349)));
    assert!(watcher.start_poll(NOW.plus_millis(350)));
    assert!(!watcher.start_poll(NOW.plus_millis(389)));
    let edge = HyprCursorPosition { x: 0, y: 10 };
    assert_eq!(watcher.release_if_at_edge(edge), None);
    assert_eq!(
        watcher.release_if_at_edge(HyprCursorPosition { x: 900, y: 10 }),
        None
    );
    assert_eq!(watcher.release_if_at_edge(edge), None);
    assert_eq!(watcher.release_if_at_edge(edge), Some(Edge::Right));
    assert!(!watcher.start_poll(NOW.plus_millis(1_000)));
    watcher.record_control(&enter, NOW);
    watcher.record_control(
        &ControlEvent::ReleaseToLocal {
            reason: ReleaseReason::UserRequest,
        },
        NOW,
    );
    assert!(!watcher.start_poll(NOW.plus_millis(1_000)));
}

#[test]
fn backends_are_tried_in_order() {
    assert_eq!(
        ReceiverBackend::from_config("Auto", true, true).unwrap(),
        vec![
            ReceiverBackend::Uinput,
            ReceiverBackend::Libei,
            ReceiverBackend::Hyprland
        ]
    );
    assert_eq!(
        ReceiverBackend::from_config("auto", false, false).unwrap(),
        vec![ReceiverBackend::Hyprland]
    );
    assert_eq!(
        ReceiverBackend::from_config("libei", false, true).unwrap(),
        vec![ReceiverBackend::Libei]
    );
    for name in ["log", "mock", "none"] {
        assert_eq!(
            ReceiverBackend::from_config(name, true, true).unwrap(),
            vec![ReceiverBackend::LogOnly]
        );
    }
    assert_eq!(ReceiverBackend::Uinput.label(), "uinput");
    assert_eq!(
        ReceiverBackend::from_config("libei", false, false)
            .unwrap_err()
            .text(),
        "input.backend is \"libei\", but libei-1.0 is not available through pkg-config"
    );
    assert_eq!(
        ReceiverBackend::from_config("X11", false, false)
            .unwrap_err()
            .text(),
        "unsupported input.backend \"x11\"; expected auto, uinput, hyprland, libei, or log"
    );
}

fn event(event_type: u16, code: u16) -> KernelInputEvent {
    KernelInputEvent {
        event_type,
        code,
        value: 1,
    }
}

#[test]
fn classifies_only_pointer_activity() {
    assert!(event_is_activity(
        LocalPointerKind::Mouse,
        &event(EV_REL, 0)
    ));
    assert!(event_is_activity(
        LocalPointerKind::Mouse,
        &event(EV_KEY, BTN_MOUSE)
    ));
    assert!(!event_is_activity(
        LocalPointerKind::Mouse,
        &event(EV_KEY, 30)
    ));
    assert!(event_is_activity(
        LocalPointerKind::Touchpad,
        &event(EV_ABS, 0)
    ));
    assert!(event_is_activity(
        LocalPointerKind::Touchpad,
        &event(EV_KEY, BTN_TOUCH)
    ));
    assert!(!event_is_activity(
        LocalPointerKind::Touchpad,
        &event(EV_KEY, 30)
    ));
}

#[test]
fn one_sign_of_the_user_is_enough() {
    let kind = LocalPointerKind::Mouse;
    assert_eq!(activity_in(kind, &vec![event(EV_KEY, 30)]), None);
    assert_eq!(
        activity_in(kind, &vec![event(EV_KEY, 30), event(EV_KEY, 0x117)]),
        Some(LocalPointerActivity { kind })
    );
    assert_eq!(activity_in(kind, &vec![event(EV_KEY, 0x118)]), None);
}

#[test]
fn devices_are_watched_as_the_user_wishes() {
    assert_eq!(
        classify_device(true, true, true, true),
        Some(LocalPointerKind::Touchpad)
    );
    assert_eq!(
        classify_device(true, false, true, true),
        Some(LocalPointerKind::Mouse)
    );
    assert_eq!(classify_device(false, true, true, false), None);
    assert!(is_event_node(b"event12"));
    assert!(!is_event_node(b"mouse0"));
    assert!(!is_event_node(b"even"));
    assert_eq!(
        unreadable_devices(&vec!["a: denied".to_string(), "b: gone".to_string()]),
        "cannot read any physical pointer devices; install packaging/udev/72-edge-kvm-pointer.rules: a: denied; b: gone"
    );
}

#[test]
fn devices_are_opened_once_and_again_after_they_stop() {
    let first = DeviceKey {
        major: 13,
        minor: 64,
    };
    let second = DeviceKey {
        major: 13,
        minor: 65,
    };
    let mut readers = PointerReaders::new();
    assert!(readers.wants(first));
    readers.opened(first);
    readers.opened(second);
    assert!(!readers.wants(first));
    assert!(!readers.stopped(first));
    assert!(readers.wants(first));
    assert!(readers.stopped(second));
}
