use edge_kvm::clock::Instant;
use edge_kvm::session::{AudioChoice, ControllerChoice, TrayCommand};
use edge_kvm::tray::{
    audio_selected, controller_selected, IconColor, InputCounter, ReceiverTray, TrayItem,
    TrayState, TrayStatus,
};

fn test_tray(state: TrayState, last_error: Option<&str>) -> ReceiverTray {
    ReceiverTray {
        state,
        transport: "Listen: 0.0.0.0:42420".to_string(),
        backend: "hyprland".to_string(),
        pairing_armed: true,
        connected_peer: (state == TrayState::Connected).then(|| "controller".to_string()),
        connections: 1,
        input_events: 2,
        clipboard_events: 3,
        input_forwarding_enabled: true,
        audio_choice: AudioChoice::Off,
        local_audio_available: true,
        peer_audio_available: true,
        local_device_name: Some("Desk".to_string()),
        peer_device_name: Some("Studio".to_string()),
        local_is_controller: true,
        role_switch_available: true,
        role_switching: false,
        last_error: last_error.map(str::to_string),
    }
}

fn menu_shape(tray: &ReceiverTray) -> Vec<&'static str> {
    tray.menu()
        .iter()
        .map(|item| match item {
            TrayItem::Text(_) | TrayItem::Action { .. } => "item",
            TrayItem::Separator => "separator",
            TrayItem::Check { .. } => "checkmark",
            TrayItem::AudioChoices { .. } | TrayItem::ControllerChoices { .. } => "radio",
        })
        .collect()
}

fn menu_label(tray: &ReceiverTray, index: usize) -> String {
    match &tray.menu()[index] {
        TrayItem::Text(label) | TrayItem::Action { label, .. } => label.clone(),
        _ => panic!("menu item {index} is not a standard item"),
    }
}

#[test]
fn menu_structure_stays_fixed_across_states_and_errors() {
    let connected = test_tray(TrayState::Connected, None);
    let listening = test_tray(TrayState::Listening, None);
    let paused = test_tray(TrayState::Paused, None);
    let error = test_tray(TrayState::Error, Some("connection lost"));

    let expected = menu_shape(&connected);
    assert_eq!(expected.len(), 19);
    assert_eq!(menu_shape(&listening), expected);
    assert_eq!(menu_shape(&paused), expected);
    assert_eq!(menu_shape(&error), expected);
    assert_eq!(menu_label(&connected, 8), "Last error: None");
    assert_eq!(menu_label(&error, 8), "Last error: connection lost");
}

#[test]
fn connection_action_matches_tray_state() {
    assert_eq!(
        menu_label(&test_tray(TrayState::Connected, None), 11),
        "Disconnect"
    );
    assert_eq!(
        menu_label(&test_tray(TrayState::Paused, None), 11),
        "Reconnect"
    );
    assert_eq!(
        menu_label(&test_tray(TrayState::Listening, None), 11),
        "Disconnect"
    );
    assert_eq!(
        menu_label(&test_tray(TrayState::Error, Some("failed")), 11),
        "Disconnect"
    );
}

#[test]
fn pairing_action_is_only_available_while_unarmed_and_disconnected() {
    let pairing = |tray: &ReceiverTray| match &tray.menu()[10] {
        TrayItem::Action { label, enabled, .. } => (label.clone(), *enabled),
        _ => panic!("pairing action is not a standard item"),
    };
    let listening = test_tray(TrayState::Listening, None);
    let (label, enabled) = pairing(&listening);
    assert_eq!(label, "Pairing enabled for next connection");
    assert!(!enabled);

    let mut listening = test_tray(TrayState::Listening, None);
    listening.pairing_armed = false;
    let (label, enabled) = pairing(&listening);
    assert_eq!(label, "Pair or replace peer...");
    assert!(enabled);

    let mut connected = test_tray(TrayState::Connected, None);
    connected.pairing_armed = false;
    let (_, enabled) = pairing(&connected);
    assert!(!enabled);
}

#[test]
fn input_forwarding_action_reflects_runtime_state() {
    let toggle = |tray: &ReceiverTray| match &tray.menu()[13] {
        TrayItem::Check {
            label,
            enabled,
            checked,
            ..
        } => (label.clone(), *enabled, *checked),
        _ => panic!("input forwarding action is not a checkmark"),
    };
    let mut connected = test_tray(TrayState::Connected, None);
    connected.input_forwarding_enabled = false;
    let (label, enabled, checked) = toggle(&connected);
    assert_eq!(label, "Forward mouse and keyboard");
    assert!(enabled);
    assert!(!checked);

    let listening = test_tray(TrayState::Listening, None);
    let (_, enabled, _) = toggle(&listening);
    assert!(!enabled);
}

#[test]
fn role_actions_use_device_names_and_committed_selection() {
    let tray = test_tray(TrayState::Connected, None);
    match &tray.menu()[12] {
        TrayItem::ControllerChoices { selected, options } => {
            assert_eq!(*selected, 0);
            assert_eq!(options[0].label, "Desk controls Studio");
            assert_eq!(options[1].label, "Studio controls Desk");
            assert!(options.iter().all(|option| option.enabled));
        }
        _ => panic!("role actions are not a radio group"),
    }

    let mut switching = test_tray(TrayState::Connected, None);
    switching.local_is_controller = false;
    switching.role_switching = true;
    match &switching.menu()[12] {
        TrayItem::ControllerChoices { selected, options } => {
            assert_eq!(*selected, 1);
            assert!(options.iter().all(|option| !option.enabled));
        }
        _ => panic!("role actions are not a radio group"),
    }
}

#[test]
fn audio_actions_are_directional_named_and_capability_gated() {
    let mut tray = test_tray(TrayState::Connected, None);
    tray.audio_choice = AudioChoice::Peer;
    tray.local_audio_available = false;
    let menu = tray.menu();
    match &menu[15] {
        TrayItem::Text(label) => assert_eq!(label, "Audio routing"),
        _ => panic!("audio heading is not a standard item"),
    }
    match &menu[16] {
        TrayItem::AudioChoices { selected, options } => {
            assert_eq!(*selected, 2);
            assert_eq!(options[0].label, "Audio off");
            assert_eq!(options[1].label, "Desk → Studio");
            assert_eq!(options[2].label, "Studio → Desk");
            assert!(options[0].enabled);
            assert!(!options[1].enabled);
            assert!(options[2].enabled);
        }
        _ => panic!("audio actions are not a radio group"),
    }
}

#[test]
fn choices_ask_for_what_they_say() {
    assert_eq!(audio_selected(0), TrayCommand::SetAudio(AudioChoice::Off));
    assert_eq!(audio_selected(1), TrayCommand::SetAudio(AudioChoice::Local));
    assert_eq!(audio_selected(2), TrayCommand::SetAudio(AudioChoice::Peer));
    assert_eq!(
        controller_selected(0),
        TrayCommand::SetController(ControllerChoice::Local)
    );
    assert_eq!(
        controller_selected(1),
        TrayCommand::SetController(ControllerChoice::Peer)
    );
}

#[test]
fn description_lists_what_is_known() {
    let tray = test_tray(TrayState::Connected, Some("late"));
    assert_eq!(
        tray.description(),
        "Status: Connected\nTransport: Listen: 0.0.0.0:42420\nInput backend: hyprland\nConnected peer: controller\nConnections: 1\nInput events: 2\nClipboard events: 3\nLast error: late"
    );
    let tray = test_tray(TrayState::Paused, None);
    assert_eq!(
        tray.description(),
        "Status: Disconnected\nTransport: Listen: 0.0.0.0:42420\nInput backend: hyprland\nConnections: 1\nInput events: 2\nClipboard events: 3\nLast error: None"
    );
    assert_eq!(tray.title(), "edge-kvm: Disconnected");
    assert_eq!(tray.status(), TrayStatus::Passive);
    assert_eq!(tray.icon_color(), IconColor::Disconnected);
}

#[test]
fn tray_follows_a_session() {
    let mut tray = ReceiverTray::new("Listen".to_string(), "log".to_string(), false);
    assert_eq!(tray.state, TrayState::Starting);
    tray.listening();
    tray.connected("Studio".to_string(), 4);
    assert_eq!((tray.connections, tray.input_events), (1, 4));
    tray.session_paused(true);
    assert_eq!(tray.state, TrayState::Paused);
    tray.session_paused(false);
    tray.role_failure("no".to_string());
    assert_eq!(tray.last_error, Some("no".to_string()));
    tray.disconnected(None, 9);
    assert_eq!((tray.state, tray.input_events), (TrayState::Listening, 9));
    tray.disconnected(Some("lost".to_string()), 10);
    assert_eq!(tray.state, TrayState::Error);
    assert_eq!(tray.status(), TrayStatus::NeedsAttention);
    tray.disconnected_by_user(11);
    assert_eq!(tray.state, TrayState::Paused);
    tray.clipboard_event(12);
    assert_eq!((tray.clipboard_events, tray.input_events), (1, 12));
}

#[test]
fn counter_is_shown_every_five_seconds() {
    let now = Instant { nanos: 1 };
    let mut counter = InputCounter::new();
    assert_eq!(counter.record(now), Some(1));
    assert_eq!(counter.record(now.plus_millis(4_999)), None);
    assert_eq!(counter.record(now.plus_millis(5_000)), Some(3));
}
