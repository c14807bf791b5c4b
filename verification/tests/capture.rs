use edge_kvm::capture::{
    accept_barriers, barrier_metadata, handle_eis_event, mouse_button, request_barriers,
    CaptureInputState, EisAction, EisEvent, Region, KEY_ESC, KEY_PAUSE,
};
use edge_kvm::capture_guard::{
    released_and_disarmed, CaptureOwnerLease, OwnerWait, PortalGenerationGate, PortalProblem,
    PreflightFailure, PreflightOutcome, StablePortalOwner, PORTAL_OWNER_STABLE_MILLIS,
};
use edge_kvm::clock::Instant;
use edge_kvm::portal_capture::{
    CaptureAction, CaptureCommand, CaptureFailure, OwnerChange, PortalCapture,
};
use edge_kvm::protocol::{Edge, F32Bits, F64Bits, InputEvent, MouseButton};
use edge_kvm::self_test::{
    capture_test_result, run_input_test, send_test_input, CaptureCounts, CaptureTestStep,
    TestInput,
};
use edge_kvm::session::CaptureEvent;

const NOW: Instant = Instant { nanos: 3_000_000 };

#[test]
fn maps_linux_button_codes() {
    assert_eq!(mouse_button(0x110), Some(MouseButton::Left));
    assert_eq!(mouse_button(0x116), Some(MouseButton::Back));
    assert_eq!(mouse_button(0xffff), None);
}

#[test]
fn emergency_chord_requires_control_alt_and_release_key() {
    let mut state = CaptureInputState::default();
    assert!(!state.update_key(29, true));
    assert!(!state.update_key(56, true));
    assert!(state.update_key(KEY_PAUSE, true));

    state.clear();
    assert!(!state.update_key(29, true));
    assert!(!state.update_key(KEY_PAUSE, true));

    state.clear();
    assert!(!state.update_key(97, true));
    assert!(!state.update_key(100, true));
    assert!(state.update_key(KEY_ESC, true));
}

#[test]
fn capture_owner_lease_can_be_renewed_and_cleared() {
    let mut lease = CaptureOwnerLease::new(NOW);
    assert!(!lease.expired(NOW));
    lease.renew(NOW);
    assert!(!lease.expired(NOW));
    lease.clear();
    assert!(!lease.expired(NOW));
}

#[test]
fn lease_runs_out_after_three_seconds() {
    let mut lease = CaptureOwnerLease::new(NOW);
    lease.renew(NOW.plus_millis(500));
    assert_eq!(lease.deadline_millis, 3_500);
    assert!(!lease.expired(NOW.plus_millis(3_499)));
    assert!(lease.expired(NOW.plus_millis(3_500)));
    lease.renew(NOW.plus_millis(3_500));
    assert!(!lease.expired(NOW.plus_millis(3_500)));
    lease.clear();
    assert!(!lease.expired(NOW.plus_millis(60_000)));
}

#[test]
fn portal_owner_must_remain_stable_before_capture_setup() {
    let first = ":1.40".to_string();
    let replacement = ":1.41".to_string();
    let started = NOW;
    let mut stable = StablePortalOwner::default();

    assert_eq!(stable.observe(first.clone(), started), None);
    assert_eq!(
        stable.observe(
            first.clone(),
            started.plus_millis(PORTAL_OWNER_STABLE_MILLIS / 2)
        ),
        None
    );
    assert_eq!(
        stable.observe(
            replacement.clone(),
            started.plus_millis(PORTAL_OWNER_STABLE_MILLIS)
        ),
        None
    );
    assert_eq!(
        stable.observe(
            replacement.clone(),
            started.plus_millis(PORTAL_OWNER_STABLE_MILLIS * 2)
        ),
        Some(replacement)
    );
}

#[test]
fn portal_owner_is_waited_for_three_seconds() {
    let mut stable = StablePortalOwner::default();
    let owner = || Some(":1.9".to_string());
    assert!(matches!(
        stable.wait_step(owner(), NOW, NOW),
        OwnerWait::LookAgain
    ));
    assert!(matches!(
        stable.wait_step(None, NOW, NOW.plus_millis(900)),
        OwnerWait::LookAgain
    ));
    assert!(matches!(
        stable.wait_step(owner(), NOW, NOW.plus_millis(1_100)),
        OwnerWait::LookAgain
    ));
    assert!(matches!(
        stable.wait_step(owner(), NOW, NOW.plus_millis(2_100)),
        OwnerWait::Stable(_)
    ));
    assert!(matches!(
        stable.wait_step(owner(), NOW, NOW.plus_millis(3_000)),
        OwnerWait::TooLate
    ));
}

#[test]
fn timed_out_portal_generation_is_blocked_until_owner_changes() {
    let first = ":1.50";
    let replacement = ":1.51";
    let mut gate = PortalGenerationGate::default();

    assert!(gate.ensure_available(first).is_ok());
    gate.poison(first);
    assert!(gate.ensure_available(first).is_err());
    assert!(gate.ensure_available(replacement).is_ok());
    assert!(gate.ensure_available(first).is_ok());
}

#[test]
fn unanswered_preflight_blames_the_portal() {
    let owner = Some(":1.7".to_string());
    let mut gate = PortalGenerationGate::default();
    assert!(gate.settle_preflight(PreflightOutcome::Ready, &owner).is_ok());
    assert!(matches!(
        gate.settle_preflight(PreflightOutcome::Refused("no".to_string()), &owner),
        Err(PreflightFailure::Refused(_))
    ));
    assert!(matches!(
        gate.settle_preflight(PreflightOutcome::Ended, &owner),
        Err(PreflightFailure::Portal(PortalProblem::TaskEnded))
    ));
    assert!(gate.ensure_available(":1.7").is_ok());
    assert!(matches!(
        gate.settle_preflight(PreflightOutcome::TimedOut, &owner),
        Err(PreflightFailure::Portal(PortalProblem::TimedOut))
    ));
    assert_eq!(
        gate.ensure_available(":1.7").unwrap_err().text(),
        "InputCapture portal process previously stopped responding; restart xdg-desktop-portal before retrying capture"
    );
}

#[test]
fn first_failure_of_a_cleanup_is_reported() {
    let failed = |text: &str| Err(text.to_string());
    assert_eq!(released_and_disarmed(Ok(()), Ok(())), Ok(()));
    assert_eq!(
        released_and_disarmed(failed("release"), failed("disarm")),
        failed("release")
    );
    assert_eq!(
        released_and_disarmed(Ok(()), failed("disarm")),
        failed("disarm")
    );
}

#[test]
fn devices_report_input() {
    let mut state = CaptureInputState::default();
    assert_eq!(
        handle_eis_event(&mut state, EisEvent::SeatAdded),
        EisAction::BindSeat
    );
    assert_eq!(
        handle_eis_event(
            &mut state,
            EisEvent::Button {
                button: 0x111,
                pressed: true
            }
        ),
        EisAction::Input(InputEvent::PointerButton {
            button: MouseButton::Right,
            down: true
        })
    );
    assert_eq!(
        handle_eis_event(
            &mut state,
            EisEvent::Button {
                button: 0x113,
                pressed: true
            }
        ),
        EisAction::Nothing
    );
    assert_eq!(
        handle_eis_event(
            &mut state,
            EisEvent::KeyboardKey {
                key: 0x1_0001,
                pressed: true
            }
        ),
        EisAction::Nothing
    );
    for key in [29, 100] {
        assert_eq!(
            handle_eis_event(&mut state, EisEvent::KeyboardKey { key, pressed: true }),
            EisAction::Input(InputEvent::Key {
                evdev_code: key as u16,
                down: true
            })
        );
    }
    assert_eq!(
        handle_eis_event(
            &mut state,
            EisEvent::KeyboardKey {
                key: 119,
                pressed: true
            }
        ),
        EisAction::EmergencyRelease
    );
    assert!(!state.update_key(KEY_ESC, true));
    let motion = EisEvent::PointerMotion {
        dx: F64Bits(1),
        dy: F64Bits(2),
    };
    assert_eq!(
        handle_eis_event(&mut state, motion),
        EisAction::Input(InputEvent::PointerMotion {
            dx: F64Bits(1),
            dy: F64Bits(2)
        })
    );
    assert_eq!(
        handle_eis_event(&mut state, EisEvent::Stopped),
        EisAction::Input(InputEvent::AllKeysUp)
    );
}

fn regions() -> Vec<Region> {
    vec![
        Region {
            x: 0,
            y: 0,
            width: 1920,
            height: 1080,
        },
        Region {
            x: 1920,
            y: -100,
            width: 2560,
            height: 1440,
        },
    ]
}

#[test]
fn barriers_stand_at_the_edge_of_every_region() {
    let line = |edge: Edge, i: usize| {
        let barrier = request_barriers(&regions(), edge).unwrap()[i];
        (barrier.id, barrier.x1, barrier.y1, barrier.x2, barrier.y2)
    };
    assert_eq!(line(Edge::Left, 0), (1, 0, 0, 0, 1079));
    assert_eq!(line(Edge::Right, 0), (1, 1920, 0, 1920, 1079));
    assert_eq!(line(Edge::Top, 1), (2, 1920, -100, 4479, -100));
    assert_eq!(line(Edge::Bottom, 1), (2, 1920, 1340, 4479, 1340));
    assert_eq!(
        request_barriers(&Vec::new(), Edge::Top).unwrap_err(),
        PortalProblem::NoZones
    );
    let far = vec![Region {
        x: i32::MAX,
        y: i32::MIN,
        width: 10,
        height: u32::MAX,
    }];
    let barrier = request_barriers(&far, Edge::Right).unwrap()[0];
    assert_eq!(barrier.x1, i32::MAX);
    assert_eq!(barrier.y2, i32::MIN);
}

#[test]
fn refused_barriers_do_not_stand() {
    let requested = request_barriers(&regions(), Edge::Left).unwrap();
    let accepted = accept_barriers(&requested, &vec![1], Edge::Left).unwrap();
    assert_eq!(accepted.len(), 1);
    assert_eq!(barrier_metadata(Some(1), &accepted), None);
    assert_eq!(barrier_metadata(Some(2), &accepted).unwrap().x, 1920);
    assert_eq!(barrier_metadata(None, &accepted), None);
    assert_eq!(
        accept_barriers(&requested, &vec![2, 1], Edge::Left)
            .unwrap_err()
            .text(),
        "InputCapture portal rejected every requested Left pointer barrier"
    );
}

fn capture() -> PortalCapture {
    let requested = request_barriers(&regions(), Edge::Left).unwrap();
    let accepted = accept_barriers(&requested, &Vec::new(), Edge::Left).unwrap();
    PortalCapture::new(":1.3".to_string(), 5, accepted)
}

fn all_keys_up() -> CaptureAction {
    CaptureAction::Emit(CaptureEvent::Input(InputEvent::AllKeysUp))
}

#[test]
fn capture_is_armed_released_and_disarmed() {
    let mut capture = capture();
    assert_eq!(
        capture.on_command(CaptureCommand::Arm),
        vec![CaptureAction::Enable]
    );
    assert_eq!(capture.on_enabled(None), vec![CaptureAction::AnswerDone]);
    assert!(capture.is_armed());
    assert_eq!(
        capture.on_activated(Some(9), Some(2), F32Bits(7)),
        vec![CaptureAction::Emit(CaptureEvent::Activated {
            activation_id: 9,
            edge: Edge::Left,
            normalized_position: F32Bits(7)
        })]
    );
    assert_eq!(
        capture.on_command(CaptureCommand::Release),
        vec![CaptureAction::Release { activation_id: 9 }]
    );
    assert_eq!(
        capture.on_released(Some("busy".to_string())),
        vec![CaptureAction::AnswerFailed("busy".to_string())]
    );
    assert_eq!(
        capture.on_command(CaptureCommand::Release),
        vec![CaptureAction::Release { activation_id: 9 }]
    );
    assert_eq!(capture.on_released(None), vec![CaptureAction::AnswerDone]);
    assert_eq!(
        capture.on_command(CaptureCommand::Release),
        vec![CaptureAction::AnswerDone]
    );
    assert_eq!(
        capture.on_command(CaptureCommand::Disarm),
        vec![CaptureAction::ClearLease, CaptureAction::Disable]
    );
    assert!(!capture.is_armed());
    assert_eq!(capture.on_disabled(None), vec![CaptureAction::AnswerDone]);
    assert_eq!(
        capture.on_command(CaptureCommand::Shutdown),
        vec![CaptureAction::ClearLease, CaptureAction::Finish]
    );
    assert_eq!(
        capture.on_end(),
        vec![CaptureAction::DisableAtEnd, CaptureAction::CloseSession]
    );
}

#[test]
fn failed_disarm_closes_the_session_by_force() {
    let mut capture = capture();
    capture.on_activated(Some(4), None, F32Bits(0));
    let failure = Some(("late".to_string(), "late".to_string()));
    assert_eq!(
        capture.on_disabled(failure),
        vec![
            CaptureAction::AnswerFailed("late".to_string()),
            all_keys_up(),
            CaptureAction::ForceClose { held: Some(4) },
            CaptureAction::Emit(CaptureEvent::EmergencyReleased),
            CaptureAction::Fail(CaptureFailure::DisableFailed("late".to_string())),
        ]
    );
    assert_eq!(
        CaptureFailure::DisableFailed("late".to_string()).text(),
        "failed to disable capture; portal session was closed to restore local input: late"
    );
}

#[test]
fn silent_owner_loses_an_armed_capture() {
    let mut capture = capture();
    assert!(capture.on_lease_check(true).is_empty());
    capture.on_enabled(None);
    assert!(capture.on_lease_check(false).is_empty());
    assert_eq!(
        capture.on_lease_check(true),
        vec![
            CaptureAction::ClearLease,
            all_keys_up(),
            CaptureAction::ForceClose { held: None },
            CaptureAction::Emit(CaptureEvent::EmergencyReleased),
            CaptureAction::Fail(CaptureFailure::OwnerSilent),
        ]
    );
    assert_eq!(
        capture.on_enabled(Some("no".to_string())),
        vec![
            CaptureAction::ClearLease,
            CaptureAction::AnswerFailed("no".to_string())
        ]
    );
}

#[test]
fn replaced_portal_is_left_alone() {
    let mut capture = capture();
    capture.on_activated(Some(4), Some(1), F32Bits(0));
    let same = OwnerChange::Owner(Some(":1.3".to_string()));
    assert!(capture.on_owner_change(same).is_empty());
    let other = OwnerChange::Owner(Some(":1.8".to_string()));
    let actions = capture.on_owner_change(other);
    assert_eq!(
        actions,
        vec![
            CaptureAction::ClearLease,
            all_keys_up(),
            CaptureAction::Fail(CaptureFailure::OwnerChanged(":1.3 -> :1.8".to_string())),
        ]
    );
    assert!(capture.on_end().is_empty());
    assert_eq!(
        CaptureFailure::OwnerChanged(":1.3 -> no owner".to_string()).text(),
        "xdg-desktop-portal owner changed while capture was active (:1.3 -> no owner); discarded the stale session"
    );
}

#[test]
fn layout_change_finds_new_barriers() {
    let mut capture = capture();
    assert_eq!(
        capture.on_zones_changed(None),
        vec![CaptureAction::ClearLease, CaptureAction::DisableForLayout]
    );
    assert_eq!(
        capture.on_layout_disabled(None),
        vec![all_keys_up(), CaptureAction::ConfigureBarriers]
    );
    assert_eq!(
        capture.on_layout(6, Vec::new()),
        vec![
            CaptureAction::PublishZoneSet(6),
            CaptureAction::Emit(CaptureEvent::LayoutChanged {
                previous_zone_set: 5,
                current_zone_set: 6
            })
        ]
    );
    assert!(capture
        .on_activated(Some(1), Some(1), F32Bits(0))
        .is_empty());
    assert_eq!(
        capture.on_layout_disabled(Some("gone".to_string())),
        vec![CaptureAction::Fail(CaptureFailure::Portal(
            "gone".to_string()
        ))]
    );
}

#[test]
fn chord_lets_the_pointer_go() {
    let mut capture = capture();
    capture.on_activated(Some(11), Some(1), F32Bits(0));
    for key in [29, 56] {
        capture.on_eis(EisEvent::KeyboardKey { key, pressed: true });
    }
    assert_eq!(
        capture.on_eis(EisEvent::KeyboardKey {
            key: 1,
            pressed: true
        }),
        vec![
            all_keys_up(),
            CaptureAction::ReleaseInEmergency { activation_id: 11 }
        ]
    );
    assert_eq!(
        capture.on_emergency_released(None),
        vec![CaptureAction::Emit(CaptureEvent::EmergencyReleased)]
    );
    assert_eq!(
        capture.on_deactivated(),
        vec![
            all_keys_up(),
            CaptureAction::Emit(CaptureEvent::Deactivated)
        ]
    );
    assert_eq!(
        capture.on_closed(),
        vec![
            all_keys_up(),
            CaptureAction::Fail(CaptureFailure::SessionRevoked)
        ]
    );
    assert_eq!(
        capture.on_events_ended(),
        vec![
            all_keys_up(),
            CaptureAction::Fail(CaptureFailure::EventsEnded)
        ]
    );
}

#[test]
fn trial_of_the_capture_counts_what_it_sees() {
    let mut counts = CaptureCounts::default();
    let input = |event: InputEvent| Some(CaptureEvent::Input(event));
    assert!(matches!(
        counts.record(input(InputEvent::Key {
            evdev_code: 3,
            down: true
        })),
        CaptureTestStep::GoOn
    ));
    counts.record(input(InputEvent::AllKeysUp));
    counts.record(Some(CaptureEvent::Deactivated));
    assert_eq!(
        (counts.keyboard, counts.all_keys_up, counts.deactivations),
        (1, 1, 1)
    );
    assert!(matches!(
        counts.record(Some(CaptureEvent::LayoutChanged {
            previous_zone_set: 1,
            current_zone_set: 2
        })),
        CaptureTestStep::Rearm
    ));
    assert!(matches!(
        counts.record(Some(CaptureEvent::EmergencyReleased)),
        CaptureTestStep::Done
    ));
    match counts.record(Some(CaptureEvent::BackendFailed("lost".to_string()))) {
        CaptureTestStep::Fail(text) => assert_eq!(text, "capture backend failed: lost"),
        step => panic!("{step:?}"),
    }
    match counts.record(None) {
        CaptureTestStep::Fail(text) => assert_eq!(text, "capture backend stopped unexpectedly"),
        step => panic!("{step:?}"),
    }
    assert_eq!(capture_test_result(None, None), None);
    assert_eq!(
        capture_test_result(None, Some("x".to_string())),
        Some("failed to disarm capture: x".to_string())
    );
    assert_eq!(
        capture_test_result(Some("y".to_string()), Some("x".to_string())),
        Some("y".to_string())
    );
}

#[test]
fn trial_inputs_have_their_values() {
    let bits = |value: f64| F64Bits(value.to_bits());
    assert_eq!(
        run_input_test(TestInput::Pointer),
        vec![InputEvent::PointerMotion {
            dx: bits(50.0),
            dy: bits(0.0)
        }]
    );
    assert_eq!(
        run_input_test(TestInput::Wheel),
        vec![InputEvent::PointerWheel {
            x: bits(0.0),
            y: bits(-1.0)
        }]
    );
    assert_eq!(run_input_test(TestInput::Click).len(), 2);
    assert_eq!(
        run_input_test(TestInput::Key)[1],
        InputEvent::Key {
            evdev_code: 30,
            down: false
        }
    );
    let frames = send_test_input(TestInput::Pointer);
    assert_eq!(frames.len(), 2);
    assert_eq!(
        frames[0].input_event(),
        Some(&InputEvent::PointerMotion {
            dx: bits(80.0),
            dy: bits(0.0)
        })
    );
    assert_eq!(frames[1].input_event(), Some(&InputEvent::AllKeysUp));
}

#[test]
fn trial_of_the_capture_reports_its_counters() {
    let counts = CaptureCounts {
        activations: 1,
        pointer_motion: 20,
        buttons: 3,
        wheel: 0,
        keyboard: 4,
        all_keys_up: 5,
        deactivations: 6,
        layout_changes: 7,
    };
    assert_eq!(
        counts.line(),
        "events: activation=1 motion=20 button=3 wheel=0 keyboard=4 release=5 deactivation=6 layout=7"
    );
}
