use edge_kvm::config::{AppConfig, PeerPosition};
use edge_kvm::pairing::{
    connection_status, controller_pairing_state, linux_capture_output, linux_hello, may_connect,
    peer_position_to_edge, peer_support, refuse_hello, validate_controller_hello,
    validate_receiver_hello, windows_hello, windows_not_paired, windows_trust, Awaited,
    ConnectProblem, HelloProblem, InitialReceiverState, Other, Pairing, PairingRefusal,
    PairingSide, PairingStep, PairingUiState,
};
use edge_kvm::protocol::{
    Edge, Frame, Hello, NodeCapability, PairingEvent, RemoteError, Role, ScreenInfo,
    PROTOCOL_VERSION,
};

fn hello(device_name: &str, role: Role) -> Hello {
    Hello {
        protocol_version: PROTOCOL_VERSION,
        device_name: device_name.to_string(),
        role,
        public_key_fingerprint: "actual".to_string(),
        capabilities: Vec::new(),
        extensions: Vec::new(),
        node_capabilities: Vec::new(),
    }
}

#[test]
fn receiver_hello_must_match_noise_identity() {
    let hello = hello("Laptop", Role::Receiver);
    assert!(validate_receiver_hello(&hello, "actual").is_ok());
    assert!(validate_receiver_hello(&hello, "different").is_err());
}

#[test]
fn controller_hello_must_match_noise_identity() {
    let hello = hello("Main PC", Role::Controller);
    assert!(validate_controller_hello(&hello, "actual").is_ok());
    assert!(validate_controller_hello(&hello, "different").is_err());
}

#[test]
fn version_is_held_against_ours_first() {
    let mut hello = hello("Old", Role::Receiver);
    hello.protocol_version = 1;
    let problem = validate_receiver_hello(&hello, "different").unwrap_err();
    assert_eq!(problem, HelloProblem::Version(1));
    assert_eq!(
        problem.text(Other::Receiver),
        format!(
            "Upgrade the other computer: receiver protocol version 1 is incompatible with {PROTOCOL_VERSION}"
        )
    );
    match refuse_hello(HelloProblem::Fingerprint) {
        Frame::Error(error) => {
            assert_eq!(error.code, "invalid_hello");
            assert_eq!(
                error.message,
                "peer hello fingerprint does not match its encrypted identity"
            );
        }
        frame => panic!("{frame:?}"),
    }
}

#[test]
fn empty_capture_output_reuses_the_injection_output() {
    let mut config = AppConfig::receiver_default();
    assert_eq!(linux_capture_output(&config), "eDP-1");
    config.input.capture.output = "DP-2".to_string();
    assert_eq!(linux_capture_output(&config), "DP-2");
    assert_eq!(peer_position_to_edge(PeerPosition::Top), Edge::Top);
}

#[test]
fn both_users_have_to_approve() {
    let (mut pairing, frame) = Pairing::begin(false, true, true);
    assert_eq!(
        frame,
        Some(Frame::Pairing(PairingEvent::Status {
            trusted: false,
            armed: true
        }))
    );
    pairing.on_status(Frame::Pairing(PairingEvent::Status {
        trusted: false,
        armed: true,
    }));
    assert_eq!(pairing.step, PairingStep::Confirm);
    assert_eq!(
        pairing.on_confirmed(true),
        Frame::Pairing(PairingEvent::Decision { accepted: true })
    );
    assert_eq!(pairing.step, PairingStep::AwaitDecision);
    pairing.on_decision(
        PairingSide::Connector,
        Frame::Pairing(PairingEvent::Decision { accepted: true }),
    );
    assert_eq!(pairing.step, PairingStep::Pin);

    let (mut pairing, _) = Pairing::begin(false, true, true);
    pairing.on_status(Frame::Pairing(PairingEvent::Status {
        trusted: true,
        armed: true,
    }));
    pairing.on_confirmed(true);
    pairing.on_decision(
        PairingSide::Connector,
        Frame::Pairing(PairingEvent::Decision { accepted: false }),
    );
    assert!(matches!(pairing.step, PairingStep::Refuse(_)));
}

#[test]
fn known_computers_are_not_asked_about() {
    let (mut pairing, _) = Pairing::begin(true, false, true);
    pairing.on_status(Frame::Pairing(PairingEvent::Status {
        trusted: true,
        armed: false,
    }));
    assert_eq!(pairing.step, PairingStep::Trusted);
    let (pairing, frame) = Pairing::begin(true, false, false);
    assert_eq!((pairing.step, frame), (PairingStep::Trusted, None));
    let (pairing, _) = Pairing::begin(false, true, false);
    assert_eq!(
        pairing.step,
        PairingStep::Refuse(PairingRefusal::UpdateRequired)
    );
}

#[test]
fn unknown_computers_need_pairing_and_a_host() {
    let mut config = AppConfig::controller_default();
    config.peer.host = " ".to_string();
    assert_eq!(
        may_connect(&config, true).unwrap_err(),
        ConnectProblem::HostRequired
    );
    config.peer.host = "10.0.0.2".to_string();
    config.peer.pinned_fingerprint = String::new();
    assert_eq!(
        may_connect(&config, false).unwrap_err(),
        ConnectProblem::NotPaired
    );
    assert!(may_connect(&config, true).is_ok());
    assert!(matches!(
        controller_pairing_state(&config),
        PairingUiState::Idle
    ));
    config.peer.pinned_fingerprint = "aa:bb".to_string();
    assert!(may_connect(&config, false).is_ok());
    match controller_pairing_state(&config) {
        PairingUiState::Paired {
            peer_fingerprint, ..
        } => assert_eq!(peer_fingerprint, "aa:bb"),
        PairingUiState::Idle => panic!("paired"),
    }
    assert_eq!(
        connection_status("10.0.0.2:42420", "aa:bb"),
        "Connected to 10.0.0.2:42420 (aa:bb)"
    );
}

#[test]
fn introduction_tells_what_a_computer_can_do() {
    let hello = linux_hello(&"Desk".to_string(), Role::Controller, "aa".to_string());
    let support = peer_support(&hello);
    assert!(support.role_switch_available());
    assert!(support.images && support.linux_node());
    let windows = windows_hello(&"Main".to_string(), Role::Controller, "bb".to_string());
    assert!(!peer_support(&windows).linux_node() && peer_support(&windows).audio_playback);
    let bare = peer_support(&self::hello("Bare", Role::Receiver));
    assert!(!bare.role_switch_available() && !bare.images);
}

fn awaits_decision() -> Pairing {
    let (mut pairing, _) = Pairing::begin(false, true, true);
    pairing.on_status(Frame::Pairing(PairingEvent::Status {
        trusted: false,
        armed: true,
    }));
    pairing.on_confirmed(true);
    pairing
}

fn remote_error() -> RemoteError {
    RemoteError {
        code: "busy".to_string(),
        message: "try later".to_string(),
    }
}

#[test]
fn listener_takes_anything_but_an_approval_as_declined() {
    for frame in [
        Frame::Error(remote_error()),
        Frame::Hello(hello("Desk", Role::Controller)),
        Frame::Pairing(PairingEvent::Decision { accepted: false }),
    ] {
        let mut pairing = awaits_decision();
        pairing.on_decision(PairingSide::Listener, frame);
        assert_eq!(pairing.step, PairingStep::Refuse(PairingRefusal::Declined));
    }
    let mut pairing = awaits_decision();
    pairing.on_decision(PairingSide::Connector, Frame::Error(remote_error()));
    assert_eq!(
        pairing.step,
        PairingStep::Refuse(PairingRefusal::PeerError(remote_error()))
    );
    let mut pairing = awaits_decision();
    pairing.on_decision(
        PairingSide::Windows,
        Frame::Hello(hello("Desk", Role::Controller)),
    );
    assert_eq!(
        pairing.step,
        PairingStep::Refuse(PairingRefusal::UnexpectedDecision)
    );
}

#[test]
fn each_side_has_its_words_for_a_refusal() {
    let text = |refusal: PairingRefusal, side: PairingSide| refusal.text(side);
    assert_eq!(
        text(PairingRefusal::Declined, PairingSide::Windows),
        "pairing was declined on the laptop"
    );
    assert_eq!(
        text(PairingRefusal::Declined, PairingSide::Listener),
        "pairing was declined on the peer"
    );
    assert_eq!(
        text(PairingRefusal::Cancelled, PairingSide::Windows),
        "pairing was cancelled on this computer"
    );
    assert_eq!(
        text(PairingRefusal::NotArmed, PairingSide::Windows),
        "pairing needs approval on both computers; choose the pairing action in both tray menus"
    );
    assert_eq!(
        text(PairingRefusal::UpdateRequired, PairingSide::Windows),
        "the laptop does not support two-sided pairing confirmation; update it before replacing \
         its key"
    );
    assert_eq!(
        text(PairingRefusal::PeerError(remote_error()), PairingSide::Windows),
        "receiver error: busy: try later"
    );
    assert_eq!(
        text(PairingRefusal::PeerError(remote_error()), PairingSide::Connector),
        "peer error: busy: try later"
    );
    assert_eq!(
        text(PairingRefusal::UnexpectedStatus, PairingSide::Connector),
        "expected peer pairing status"
    );
    assert_eq!(
        text(PairingRefusal::UnexpectedDecision, PairingSide::Windows),
        "expected receiver pairing decision"
    );
    assert_eq!(
        PairingRefusal::NotArmed.frame(PairingSide::Windows),
        Some(Frame::Pairing(PairingEvent::Decision { accepted: false }))
    );
    assert_eq!(
        PairingRefusal::UpdateRequired.frame(PairingSide::Windows),
        None
    );
}

#[test]
fn windows_trusts_the_pinned_key() {
    let (pinned, other, none) = ("aa".to_string(), "bb".to_string(), String::new());
    assert_eq!(windows_trust(&pinned, &pinned, false), Ok(true));
    assert_eq!(
        windows_trust(&pinned, &other, false),
        Err(ConnectProblem::NotPaired)
    );
    assert_eq!(windows_trust(&pinned, &other, true), Ok(false));
    assert_eq!(
        windows_trust(&none, &none, false),
        Err(ConnectProblem::NotPaired)
    );
    assert_eq!(
        windows_not_paired("10.0.0.2:42420"),
        "the laptop at 10.0.0.2:42420 is not paired; choose 'Pair or replace laptop...' from both \
         tray menus"
    );
}

#[test]
fn later_introduction_replaces_the_first() {
    let mut first = hello("Lap", Role::Receiver);
    first.extensions = vec!["old".to_string()];
    let mut state = InitialReceiverState::of(first);
    let mut second = hello("Lap", Role::Receiver);
    second.node_capabilities = vec![NodeCapability::AudioCaptureV1];
    assert_eq!(state.on_frame(Frame::Hello(second)), Awaited::NotYet);
    assert!(state.extensions.is_empty());
    assert_eq!(state.node_capabilities, [NodeCapability::AudioCaptureV1]);
    assert_eq!(
        state.on_frame(Frame::Error(remote_error())),
        Awaited::Failed(remote_error())
    );
    let screens = ScreenInfo {
        primary_output: "eDP-1".to_string(),
        outputs: Vec::new(),
    };
    assert_eq!(
        state.on_frame(Frame::ScreenInfo(screens.clone())),
        Awaited::Arrived(())
    );
    assert_eq!(state.screen_info, Some(screens));
}
