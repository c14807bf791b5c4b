use edge_kvm::injection::{
    admit_clipboard_text, mouse_button_code, relative_moves, DeviceCapability, KeyChange,
    LinuxInputError, ModifierState, UinputKeys, UinputRequest, UnsupportedKey, LIBEI_PKG_CONFIG,
    REL_X, REL_Y,
};
use edge_kvm::libei::{
    oeffis_step, DeviceCapabilities, LibeiBackend, LibeiEvent, LibeiRequest, LibeiSender,
    OeffisEvent, OeffisStep,
};
use edge_kvm::protocol::{F64Bits, InputEvent, MouseButton};
use edge_kvm::wayland_input::{HyprlandVirtualInput, WaylandRequest};

fn key(evdev_code: u16, down: bool) -> InputEvent {
    InputEvent::Key { evdev_code, down }
}

fn button(button: MouseButton, down: bool) -> InputEvent {
    InputEvent::PointerButton { button, down }
}

#[test]
fn mouse_buttons_use_linux_input_codes() {
    assert_eq!(mouse_button_code(MouseButton::Left), 0x110);
    assert_eq!(mouse_button_code(MouseButton::Right), 0x111);
    assert_eq!(mouse_button_code(MouseButton::Middle), 0x112);
    assert_eq!(mouse_button_code(MouseButton::Forward), 0x115);
    assert_eq!(mouse_button_code(MouseButton::Back), 0x116);
}

#[test]
fn tracks_control_modifier_mask() {
    let mut modifiers = ModifierState::default();

    assert!(modifiers.update(29, true, false));
    assert_eq!(modifiers.depressed(), 1 << 2);
    assert!(modifiers.update(29, false, true));
    assert_eq!(modifiers.depressed(), 0);
}

#[test]
fn keeps_modifier_active_until_both_sides_release() {
    let mut modifiers = ModifierState::default();

    assert!(modifiers.update(29, true, false));
    assert!(!modifiers.update(97, true, false));
    assert_eq!(modifiers.depressed(), 1 << 2);
    assert!(!modifiers.update(29, false, true));
    assert_eq!(modifiers.depressed(), 1 << 2);
    assert!(modifiers.update(97, false, true));
    assert_eq!(modifiers.depressed(), 0);
}

#[test]
fn tracks_common_modifier_masks() {
    let mut modifiers = ModifierState::default();

    assert!(modifiers.update(42, true, false));
    assert!(modifiers.update(56, true, false));
    assert!(modifiers.update(125, true, false));
    assert_eq!(modifiers.depressed(), (1 << 0) | (1 << 3) | (1 << 6));
    assert!(modifiers.clear_depressed());
    assert_eq!(modifiers.depressed(), 0);
}

#[test]
fn toggles_caps_lock_locked_mask() {
    let mut modifiers = ModifierState::default();

    assert!(modifiers.update(58, true, false));
    assert_eq!(modifiers.locked(), 1 << 1);
    assert!(!modifiers.update(58, true, true));
    assert_eq!(modifiers.locked(), 1 << 1);
    assert!(!modifiers.update(58, false, true));
    assert_eq!(modifiers.locked(), 1 << 1);
    assert!(modifiers.update(58, true, false));
    assert_eq!(modifiers.locked(), 0);
}

#[test]
fn clearing_depressed_modifiers_preserves_caps_lock() {
    let mut modifiers = ModifierState::default();

    assert!(modifiers.update(58, true, false));
    assert!(modifiers.update(29, true, false));
    assert!(modifiers.clear_depressed());
    assert_eq!(modifiers.depressed(), 0);
    assert_eq!(modifiers.locked(), 1 << 1);
}

#[test]
fn uinput_lets_go_of_what_it_pressed() {
    let mut keys = UinputKeys::new();
    for event in [
        key(200, true),
        key(30, true),
        button(MouseButton::Right, true),
        key(31, true),
        key(31, false),
    ] {
        assert!(matches!(
            keys.request(event),
            Ok(UinputRequest::Keys(changes)) if changes.len() == 1
        ));
        keys.sent(event);
    }
    let up = |code: u16| KeyChange { code, down: false };
    match keys.request(InputEvent::AllKeysUp) {
        Ok(UinputRequest::Keys(changes)) => {
            assert_eq!(changes, vec![up(30), up(200), up(0x111)]);
        }
        request => panic!("{request:?}"),
    }
    keys.sent(InputEvent::AllKeysUp);
    assert!(matches!(
        keys.request(InputEvent::AllKeysUp),
        Ok(UinputRequest::Keys(changes)) if changes.is_empty()
    ));
    assert_eq!(
        keys.request(key(0x300, true)).unwrap_err(),
        UnsupportedKey(0x300)
    );
    assert!(keys.request(key(0x2ff, true)).is_ok());
}

#[test]
fn axes_that_do_not_move_are_left_out() {
    assert_eq!(relative_moves(REL_X, 3, REL_Y, 0), vec![(0, 3)]);
    assert_eq!(relative_moves(REL_X, 0, REL_Y, -4), vec![(1, -4)]);
    assert_eq!(relative_moves(REL_X, 1, REL_Y, 2), vec![(0, 1), (1, 2)]);
    assert!(relative_moves(REL_X, 0, REL_Y, 0).is_empty());
}

#[test]
fn wayland_announces_modifiers_and_lets_go() {
    let mut input = HyprlandVirtualInput::new();
    assert_eq!(
        input.inject(key(29, true)),
        vec![
            WaylandRequest::Key {
                code: 29,
                pressed: true
            },
            WaylandRequest::Modifiers {
                depressed: 4,
                locked: 0
            }
        ]
    );
    assert_eq!(
        input.inject(key(29, true)),
        vec![WaylandRequest::Key {
            code: 29,
            pressed: true
        }]
    );
    assert_eq!(
        input.inject(button(MouseButton::Left, true)),
        vec![
            WaylandRequest::Button {
                code: 0x110,
                pressed: true
            },
            WaylandRequest::PointerFrame
        ]
    );
    input.inject(key(16, true));
    assert_eq!(
        input.inject(InputEvent::AllKeysUp),
        vec![
            WaylandRequest::Key {
                code: 16,
                pressed: false
            },
            WaylandRequest::Key {
                code: 29,
                pressed: false
            },
            WaylandRequest::Modifiers {
                depressed: 0,
                locked: 0
            },
            WaylandRequest::Button {
                code: 0x110,
                pressed: false
            },
            WaylandRequest::PointerFrame
        ]
    );
    assert_eq!(
        input.inject(InputEvent::AllKeysUp),
        vec![WaylandRequest::PointerFrame]
    );
    let wheel = |x: f64, y: f64| InputEvent::PointerWheel {
        x: F64Bits(x.to_bits()),
        y: F64Bits(y.to_bits()),
    };
    assert_eq!(
        input.inject(wheel(-0.0, 2.0)),
        vec![
            WaylandRequest::VerticalWheel(F64Bits(2.0f64.to_bits())),
            WaylandRequest::PointerFrame
        ]
    );
}

#[test]
fn libei_devices_play_their_parts() {
    let mut sender = LibeiSender::new();
    assert!(!sender.is_ready());
    assert_eq!(
        sender.inject(key(30, true)).unwrap_err(),
        DeviceCapability::Keyboard
    );
    assert_eq!(
        sender.handle_event(LibeiEvent::SeatAdded),
        vec![LibeiRequest::BindSeat]
    );
    let capabilities = DeviceCapabilities {
        pointer: true,
        button: true,
        scroll: false,
        keyboard: false,
    };
    assert_eq!(
        sender
            .handle_event(LibeiEvent::DeviceAdded {
                device: 7,
                capabilities
            })
            .len(),
        2
    );
    assert!(sender
        .handle_event(LibeiEvent::DeviceAdded {
            device: 8,
            capabilities
        })
        .is_empty());
    assert!(sender.is_ready());
    assert_eq!(
        sender.inject(button(MouseButton::Middle, true)).unwrap(),
        vec![
            LibeiRequest::StartEmulating {
                device: 7,
                sequence: 1
            },
            LibeiRequest::Button {
                device: 7,
                code: 0x112,
                pressed: true
            },
            LibeiRequest::Frame { device: 7 }
        ]
    );
    sender.handle_event(LibeiEvent::DevicePaused { device: 7 });
    assert_eq!(
        sender.all_keys_up(),
        vec![
            LibeiRequest::StartEmulating {
                device: 7,
                sequence: 2
            },
            LibeiRequest::Button {
                device: 7,
                code: 0x112,
                pressed: false
            },
            LibeiRequest::Frame { device: 7 }
        ]
    );
    assert!(sender
        .handle_event(LibeiEvent::DeviceResumed { device: 7 })
        .is_empty());
}

#[test]
fn libei_has_to_be_installed() {
    let missing = LibeiBackend::probe(Some(" \n".to_string()));
    assert!(!missing.is_available());
    assert_eq!(missing.version(), None);
    assert_eq!(
        missing.connect().unwrap_err().text(),
        "libei-1.0 is not available through pkg-config"
    );
    let found = LibeiBackend::probe(Some("1.4.0\n".to_string()));
    assert_eq!(found.version(), Some("1.4.0"));
    assert_eq!(found.pkg_config_name(), LIBEI_PKG_CONFIG);
    assert!(matches!(
        found.may_inject(),
        Err(LinuxInputError::LibeiNotConnected)
    ));
    assert!(found.connect().unwrap().may_inject().is_ok());
}

#[test]
fn desktop_session_is_waited_for() {
    assert!(matches!(
        oeffis_step(OeffisEvent::Nothing),
        OeffisStep::Wait
    ));
    assert!(matches!(oeffis_step(OeffisEvent::Other), OeffisStep::Next));
    assert!(matches!(
        oeffis_step(OeffisEvent::ConnectedToEis),
        OeffisStep::Connected
    ));
    match oeffis_step(OeffisEvent::Disconnected(None)) {
        OeffisStep::Failed(error) => assert_eq!(
            error.text(),
            "failed to initialize libei backend: RemoteDesktop portal disconnected"
        ),
        step => panic!("{step:?}"),
    }
    match oeffis_step(OeffisEvent::Closed) {
        OeffisStep::Failed(error) => assert_eq!(
            error.text(),
            "failed to initialize libei backend: RemoteDesktop portal session was closed"
        ),
        step => panic!("{step:?}"),
    }
}

#[test]
fn input_errors_have_their_words() {
    let cases = [
        (
            LinuxInputError::LibeiMissingDevice(DeviceCapability::Scroll),
            "libei backend has no device for scroll",
        ),
        (
            LinuxInputError::CommandFailed {
                program: "wl-copy".to_string(),
                message: "exited".to_string(),
            },
            "command `wl-copy` failed: exited",
        ),
        (
            LinuxInputError::ClipboardTooLarge { max_bytes: 1024 },
            "clipboard text exceeds configured max_bytes (1024)",
        ),
        (
            LinuxInputError::Io("gone".to_string()),
            "io error: gone",
        ),
        (
            LinuxInputError::Json("bad".to_string()),
            "json error: bad",
        ),
        (
            LinuxInputError::LibeiLockPoisoned,
            "libei backend lock was poisoned",
        ),
        (
            LinuxInputError::HyprlandVirtualInputInit("x".to_string()),
            "failed to initialize Hyprland virtual input backend: x",
        ),
    ];
    for (error, words) in cases {
        assert_eq!(error.text(), words);
    }
}

#[test]
fn clipboard_text_is_limited() {
    assert!(matches!(admit_clipboard_text(false, 1, 9), Ok(false)));
    assert!(matches!(admit_clipboard_text(true, 9, 9), Ok(true)));
    assert!(matches!(
        admit_clipboard_text(true, 8, 9),
        Err(LinuxInputError::ClipboardTooLarge { max_bytes: 8 })
    ));
}
