use edge_kvm::clock::Instant;
use edge_kvm::connector::{
    initial_audio_source, AudioRoutePreference, ConnectorSession, ReadyOutcome, Roles,
};
use edge_kvm::listener::{should_release_legacy_controller, ListenerSession, Verdict};
use edge_kvm::protocol::{
    AudioControl, ControlEvent, ControlFrame, Edge, F32Bits, F64Bits, Frame, InputEvent, InputFrame, RoleEvent,
    RoleState, RoleTransitionState, ReleaseReason, INITIAL_ROLE_EPOCH,
};
use edge_kvm::session::{
    CaptureEvent, ControllerSessionExit, Effect, LivenessEvent, Message, PeerSupport,
    SessionFailure, TrayCommand, TrayUpdate,
};
use edge_kvm::supervisor::{
    classify_failure, should_run_tray, ConnectorLoop, ListenerLoop, LoopEffect, SessionEnd,
    WindowsLoop, WindowsStatus,
};
use edge_kvm::windows_session::{
    handle_tray_command, AudioLabel, TrayAction, TrayCommandOutcome, WindowsTrayCommand,
};

const NOW: Instant = Instant { nanos: 9_000_000 };

fn support() -> PeerSupport {
    PeerSupport {
        audio_playback: true,
        audio_capture: true,
        audio_route: true,
        input_toggle: true,
        images: true,
        input_capture: true,
        input_injection: true,
        role_switch: true,
    }
}

fn roles(controller: &str, epoch: u64) -> RoleState {
    RoleState {
        controller_fingerprint: Some(controller.to_string()),
        role_epoch: epoch,
        transition: RoleTransitionState::Stable,
        listener_position: Edge::Left,
        paused: false,
        failure_detail: None,
    }
}

fn listener() -> ListenerSession {
    ListenerSession::start(
        support(),
        "here".to_string(),
        "there".to_string(),
        Edge::Left,
    )
    .0
}

fn connector() -> ConnectorSession {
    ConnectorSession::start(
        support(),
        "here".to_string(),
        "there".to_string(),
        &roles("here", 1),
        None,
        true,
    )
    .0
}

fn press(epoch: u64) -> InputFrame {
    InputFrame {
        role_epoch: epoch,
        event: InputEvent::Key {
            evdev_code: 30,
            down: true,
        },
    }
}

#[test]
fn disabled_input_releases_a_legacy_controller_on_each_remote_entry() {
    let enter = ControlEvent::EnterRemote {
        edge: Edge::Left,
        normalized_position: F32Bits(0.5f32.to_bits()),
    };

    assert!(should_release_legacy_controller(false, false, &enter));
    assert!(!should_release_legacy_controller(true, false, &enter));
    assert!(!should_release_legacy_controller(false, true, &enter));
    assert!(!should_release_legacy_controller(
        false,
        false,
        &ControlEvent::ReleaseToLocal {
            reason: ReleaseReason::UserRequest,
        },
    ));
}

#[test]
fn listener_plays_input_of_the_committed_epoch_only() {
    let mut session = listener();
    let played = session.on_input(press(INITIAL_ROLE_EPOCH), true);
    assert!(played.contains(&Effect::Inject(press(1).event)));
    assert!(session.on_input(press(2), true).is_empty());
    assert!(!session
        .on_input(press(1), false)
        .contains(&Effect::Inject(press(1).event)));
    session.session_paused = true;
    assert!(session.on_input(press(1), true).is_empty());
}

#[test]
fn silent_peer_gives_the_input_back_before_the_session_fails() {
    let mut session = listener();
    let out = session.on_watchdog(NOW, Some(LivenessEvent::SoftInputTimeout));
    assert_eq!(out[0], Effect::SuspendInput);
    assert_eq!(out[1], Effect::TryAllKeysUp);
    let out = session.on_watchdog(NOW, Some(LivenessEvent::HardSessionTimeout));
    assert_eq!(out, vec![Effect::Fail(SessionFailure::PeerSilent)]);
}

#[test]
fn connector_sends_captured_input_with_its_epoch() {
    let mut session = connector();
    assert!(session.local_is_controller && session.has_capture);
    let out = session.on_capture(Some(CaptureEvent::Input(press(1).event)), false);
    assert!(out.contains(&Effect::Send(Message::Input {
        role_epoch: 1,
        event: press(1).event
    })));
    session.session_paused = true;
    let out = session.on_capture(Some(CaptureEvent::Input(press(1).event)), false);
    assert!(out.is_empty());
}

#[test]
fn pausing_a_session_lets_keys_go_and_tells_the_peer() {
    let mut session = connector();
    let roles = Roles {
        controller_fingerprint: Some("here".to_string()),
        role_epoch: 1,
        transitioning: false,
    };
    let out = session.on_tray(TrayCommand::Disconnect, &roles, NOW);
    assert!(session.session_paused);
    assert!(out.contains(&Effect::Tray(TrayUpdate::SessionPaused(true))));
    let out = session.on_tray(TrayCommand::Quit, &roles, NOW);
    assert!(out.contains(&Effect::Exit(ControllerSessionExit::QuitRequested)));
}

#[test]
fn ending_a_session_lets_keys_go() {
    let mut session = connector();
    let out = session.finish();
    assert_eq!(
        out[0],
        Effect::TrySend(Message::Input {
            role_epoch: 1,
            event: InputEvent::AllKeysUp
        })
    );
    assert_eq!(out[out.len() - 1], Effect::TryAllKeysUp);
}

#[test]
fn roles_change_by_a_valid_commit_only() {
    let mut session = listener();
    let valid = Verdict {
        accepts_input: false,
        role_event_valid: true,
    };
    let invalid = Verdict {
        role_event_valid: false,
        ..valid
    };
    let commit = Frame::Role(RoleEvent::Commit(roles("here", 2)));
    let out = session.on_frame(commit.clone(), valid, NOW);
    assert!(out
        .iter()
        .any(|effect| matches!(effect, Effect::Fail(SessionFailure::CommitWithoutPrepare))));
    assert_eq!(session.role_epoch, 1);
    session.on_frame(commit, invalid, NOW);
    assert_eq!(session.role_epoch, 1);
}

#[test]
fn peer_frames_reach_the_listener() {
    let mut session = listener();
    let verdict = Verdict {
        accepts_input: true,
        role_event_valid: false,
    };
    let motion = InputEvent::PointerMotion {
        dx: F64Bits(1),
        dy: F64Bits(2),
    };
    let out = session.on_frame(Frame::input(1, motion), verdict, NOW);
    assert!(out.contains(&Effect::Inject(motion)));
    let out = session.on_control(ControlFrame {
        role_epoch: 1,
        event: ControlEvent::EnterRemote {
            edge: Edge::Left,
            normalized_position: F32Bits(0),
        },
    });
    assert!(out
        .iter()
        .any(|effect| matches!(effect, Effect::ObserveControl(_))));
    assert_eq!(
        session.on_clipboard_watch(false),
        vec![Effect::WatchClipboardAnew]
    );
    assert_eq!(session.on_clipboard_watch(true), vec![Effect::OfferClipboard]);
}

#[test]
fn stored_route_comes_before_the_preference() {
    let (here, there) = ("here".to_string(), "there".to_string());
    let source = |stored: Option<Option<String>>, preference: AudioRoutePreference| {
        initial_audio_source(stored, Some(preference), false, &support(), &here, &there)
    };
    assert_eq!(
        source(None, AudioRoutePreference::LocalToPeer),
        Some("here".to_string())
    );
    assert_eq!(
        source(None, AudioRoutePreference::PeerToLocal),
        Some("there".to_string())
    );
    assert_eq!(source(None, AudioRoutePreference::Disabled), None);
    assert_eq!(
        source(Some(None), AudioRoutePreference::LocalToPeer),
        None
    );
}

#[test]
fn outdated_peer_is_left_alone() {
    let mut state = ConnectorLoop::new(false);
    assert!(state.connects());
    state.on_failure("Upgrade the other computer: peer protocol version 1".to_string());
    assert!(!state.connects());
    state.on_idle_tray(TrayCommand::Reconnect);
    assert!(state.connects());
    state.on_failure("connection refused".to_string());
    assert!(state.connects());
}

#[test]
fn pairing_has_to_be_asked_for_again() {
    let mut state = ListenerLoop::new(true);
    assert!(state.accepts());
    let out = state.on_pairing_decided();
    assert!(out.contains(&LoopEffect::ShowPairingArmed(false)));
    assert!(!state.pairing_armed);
    state.on_session_end(SessionEnd::Disconnect);
    assert!(!state.accepts());
}

#[test]
fn failures_are_classified() {
    assert_eq!(
        classify_failure("remote fingerprint mismatch: expected a"),
        WindowsStatus::IdentityChanged
    );
    assert_eq!(
        classify_failure("receiver is not paired"),
        WindowsStatus::PairingRequired
    );
    assert_eq!(
        classify_failure("Upgrade the other computer: receiver"),
        WindowsStatus::UpgradePeer
    );
    assert_eq!(
        classify_failure("connection refused"),
        WindowsStatus::Disconnected
    );
    assert!(should_run_tray(true, true, true, true));
    assert!(should_run_tray(false, false, false, false));
    assert!(!should_run_tray(false, false, true, false));
}

#[test]
fn windows_waits_before_it_connects_again() {
    let (state, _) = WindowsLoop::start(false, true, false, false, false, NOW);
    assert!(!state.connects(NOW.plus_millis(1_999)));
    assert!(state.connects(NOW.plus_millis(2_000)));
    let (state, _) = WindowsLoop::start(false, true, false, false, true, NOW);
    assert!(!state.connects(NOW.plus_millis(60_000)));
}

#[test]
fn tray_commands_of_windows_have_outcomes() {
    assert_eq!(
        handle_tray_command(WindowsTrayCommand::Quit, true, true),
        (None, TrayCommandOutcome::Quit)
    );
    assert_eq!(
        handle_tray_command(WindowsTrayCommand::ToggleAudio, true, false),
        (
            Some(TrayAction::SaveAudioEnabled(true)),
            TrayCommandOutcome::AudioChanged(true)
        )
    );
    assert_eq!(
        handle_tray_command(WindowsTrayCommand::ToggleInputForwarding, true, false),
        (None, TrayCommandOutcome::InputForwardingChanged(false))
    );
    assert_eq!(AudioLabel::Unsupported.text(), "Audio: Unsupported by receiver");
}

fn shown_audio(effects: &[Effect]) -> Vec<(bool, bool)> {
    effects
        .iter()
        .filter_map(|effect| match effect {
            Effect::Tray(TrayUpdate::AudioRoute {
                local_available,
                peer_available,
                ..
            }) => Some((*local_available, *peer_available)),
            _ => None,
        })
        .collect()
}

#[test]
fn audio_of_a_linux_node_is_shown_as_unavailable() {
    let here = || "here".to_string();
    let there = || "there".to_string();
    let (mut listener, begun) =
        ListenerSession::start(support(), here(), there(), Edge::Left);
    assert_eq!(shown_audio(&begun), [(false, false)]);
    let committed = listener.on_audio(AudioControl::SetRoute {
        source_fingerprint: Some(here()),
    });
    assert_eq!(shown_audio(&committed), [(false, false)]);
    let state = roles("here", 1);
    let (_, begun) =
        ConnectorSession::start(support(), here(), there(), &state, Some(there()), true);
    assert_eq!(shown_audio(&begun), [(false, false)]);

    let windows = PeerSupport {
        audio_capture: false,
        input_injection: false,
        role_switch: false,
        ..support()
    };
    let (_, begun) = ListenerSession::start(windows, here(), there(), Edge::Left);
    assert_eq!(shown_audio(&begun), [(true, false)]);
}

#[test]
fn commit_takes_effect_once_it_is_saved_and_told() {
    let mut session = connector();
    let before = session.role_epoch;
    let commit = roles("there", before + 1);
    let decided = session.on_decision(ReadyOutcome::Commit(commit.clone()), NOW);
    assert_eq!(
        decided,
        [
            Effect::SaveRole {
                controller_fingerprint: "there".to_string()
            },
            Effect::Send(Message::RoleCommit(commit)),
            Effect::EnterRole {
                controller_fingerprint: "there".to_string(),
                role_epoch: before + 1
            },
        ]
    );
    assert_eq!(session.role_epoch, before);
    session.on_commit("there".to_string(), before + 1);
    assert_eq!(session.role_epoch, before + 1);
    assert!(!session.local_is_controller);
}

#[test]
fn capture_is_armed_only_to_forward() {
    let arms = |effects: &[Effect]| effects.iter().any(|effect| *effect == Effect::Arm);
    let mut session = listener();
    session.local_is_controller = true;
    session.has_capture = true;
    session.session_paused = true;
    session.input_forwarding_enabled = false;
    assert!(!arms(&session.on_tray(TrayCommand::ToggleInputForwarding, NOW)));
    assert!(session.input_forwarding_enabled);
    session.input_forwarding_enabled = false;
    let resumed = session.on_role(RoleEvent::SetPaused { paused: false }, true, NOW);
    assert!(!arms(&resumed) && !session.session_paused);
    assert!(arms(&session.on_tray(TrayCommand::ToggleInputForwarding, NOW)));
}
