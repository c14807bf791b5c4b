use edge_kvm::clock::Instant;
use edge_kvm::cursor_handoff::CursorHandoffState;
use edge_kvm::keymap::{windows_scancode_to_evdev, WindowsScanCode};

const NOW: Instant = Instant { nanos: 5_000_000 };

#[test]
fn hides_only_after_delay_and_releases_on_local_activity() {
    let mut state = CursorHandoffState::ready();
    state.enter_remote(NOW, 100);

    assert!(!state.mark_hidden_if_due(NOW.plus_millis(99)));
    assert!(state.mark_hidden_if_due(NOW.plus_millis(100)));
    assert_eq!(state, CursorHandoffState::RemoteHidden);
    assert!(state.local_activity());
    assert_eq!(state, CursorHandoffState::Local);
    assert!(!state.local_activity());
}

#[test]
fn release_cancels_pending_hide() {
    let mut state = CursorHandoffState::ready();
    state.enter_remote(NOW, 100);

    assert!(!state.release_remote());
    assert_eq!(state.hide_at(), None);
    assert!(!state.mark_hidden_if_due(NOW.plus_millis(1_000)));
}

#[test]
fn disabled_state_never_activates() {
    let mut state = CursorHandoffState::Disabled;
    state.enter_remote(NOW, 0);

    assert!(!state.enabled());
    assert!(!state.remote_active());
    assert!(!state.local_activity());
}

#[test]
fn maps_mvp_keys() {
    assert_eq!(
        windows_scancode_to_evdev(WindowsScanCode::new(0x1e, false)),
        Some(30)
    );
    assert_eq!(
        windows_scancode_to_evdev(WindowsScanCode::new(0x2e, false)),
        Some(46)
    );
    assert_eq!(
        windows_scancode_to_evdev(WindowsScanCode::new(0x32, false)),
        Some(50)
    );
    assert_eq!(
        windows_scancode_to_evdev(WindowsScanCode::new(0x2b, false)),
        Some(43)
    );
    assert_eq!(
        windows_scancode_to_evdev(WindowsScanCode::new(0x1d, false)),
        Some(29)
    );
    assert_eq!(
        windows_scancode_to_evdev(WindowsScanCode::new(0x0e, false)),
        Some(14)
    );
    assert_eq!(
        windows_scancode_to_evdev(WindowsScanCode::new(0x1c, false)),
        Some(28)
    );
    assert_eq!(
        windows_scancode_to_evdev(WindowsScanCode::new(0x48, true)),
        Some(103)
    );
    assert_eq!(
        windows_scancode_to_evdev(WindowsScanCode::new(0x3b, false)),
        Some(59)
    );
}
