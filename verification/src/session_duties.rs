//! What a session owes its user: what has to happen, on which side, and when.

use crate::clock::Instant;
use crate::connector::{
    first_source, AudioRoutePreference, ConnectorRoleReadiness, ConnectorSession, ReadyOutcome,
    Roles,
};
use crate::listener::{ListenerSession, Verdict};
use crate::protocol::{
    AudioCodec, AudioControl, AudioStopReason, AudioStreamState, ClipboardEvent, ControlEvent,
    ControlFrame, Edge, F32Bits, Frame, InputEvent, InputFrame, ReleaseReason, RoleEvent,
    RoleState, RoleTransitionState,
};
use crate::session::{
    lemma_holds_empty, lemma_holds_push, AudioChoice, AudioTransport, CaptureEvent,
    ControllerChoice, ControllerSessionExit, Detail, Effect, EffectList, LivenessEvent, Message,
    PeerSupport, SessionFailure, TrayCommand, TrayUpdate,
};
use vstd::prelude::*;

verus! {

/// A commit decides who controls, whoever did before: this side exactly where
/// the named controller has its fingerprint. From then on the committed epoch
/// counts and the tray shows the controller. The capture is armed exactly on
/// the side that controls now, where it has one and input is forwarded.
pub proof fn law_connector_commit_decides_who_controls(
    session: ConnectorSession,
    controller: String,
    role_epoch: u64,
)
    ensures
        ({
            let (after, effects) = session.after_commit(controller, role_epoch);
            let controls = controller@ == session.local_fingerprint@;
            &&& after.local_is_controller == controls
            &&& after.role_epoch == role_epoch
            &&& effects.contains(Effect::Arm) <==> controls && session.has_capture
                && session.input_forwarding_enabled && !session.session_paused
            &&& effects.contains(
                Effect::Tray(
                    TrayUpdate::RoleAssignment {
                        local_is_controller: controls,
                        switch_available: session.support.role_switch
                            && session.support.input_capture && session.support.input_injection
                            && !session.session_paused,
                    },
                ),
            )
            &&& effects.contains(Effect::SuspendInput)
            &&& effects.contains(Effect::TryAllKeysUp)
        }),
{
    broadcast use {lemma_holds_push, lemma_holds_empty};

}

/// The same of a listener that was told to prepare, for every valid commit. It
/// also saves the selection.
pub proof fn law_listener_commit_decides_who_controls(
    session: ListenerSession,
    commit: RoleState,
    accepts_input: bool,
    now: Instant,
)
    requires
        session.prepared_role is Some,
        commit.controller_fingerprint is Some,
    ensures
        ({
            let (after, effects) = session.after_frame(
                Frame::Role(RoleEvent::Commit(commit)),
                Verdict { accepts_input, role_event_valid: true },
                now,
            );
            let controls = commit.controller_fingerprint->Some_0@ == session.local_fingerprint@;
            &&& after.local_is_controller == controls
            &&& after.role_epoch == commit.role_epoch
            &&& after.role_state == commit
            &&& after.prepared_role is None
            &&& after.role_request_deadline is None
            &&& effects.contains(Effect::Arm) <==> controls && session.has_capture
                && session.input_forwarding_enabled && !session.session_paused
            &&& effects.contains(
                Effect::Tray(
                    TrayUpdate::RoleAssignment {
                        local_is_controller: controls,
                        switch_available: session.support.role_switch
                            && session.support.input_capture && session.support.input_injection
                            && !session.session_paused,
                    },
                ),
            )
            &&& effects.contains(
                Effect::SaveRole { controller_fingerprint: commit.controller_fingerprint->Some_0 },
            )
            &&& effects.contains(Effect::SuspendInput)
            &&& effects.contains(Effect::TryAllKeysUp)
        }),
{
    broadcast use {lemma_holds_push, lemma_holds_empty};

}

/// One commit taken in by both sides leaves exactly one of them in control, in
/// one epoch, wherever it names one of the two.
pub proof fn law_commit_leaves_one_controller(
    connector: ConnectorSession,
    listener: ListenerSession,
    commit: RoleState,
    accepts_input: bool,
    now: Instant,
)
    requires
        connector.local_fingerprint@ == listener.peer_fingerprint@,
        connector.peer_fingerprint@ == listener.local_fingerprint@,
        connector.local_fingerprint@ != listener.local_fingerprint@,
        listener.prepared_role is Some,
        commit.controller_fingerprint matches Some(controller) && (controller@
            == connector.local_fingerprint@ || controller@ == listener.local_fingerprint@),
    ensures
        ({
            let one = connector.after_commit(
                commit.controller_fingerprint->Some_0,
                commit.role_epoch,
            ).0;
            let other = listener.after_frame(
                Frame::Role(RoleEvent::Commit(commit)),
                Verdict { accepts_input, role_event_valid: true },
                now,
            ).0;
            &&& one.local_is_controller != other.local_is_controller
            &&& one.role_epoch == other.role_epoch
        }),
{
}

/// Whenever the capture activates on a side that controls, forwards and is not
/// paused, the peer is told that the pointer enters there, at the same edge
/// and position, in the committed epoch. Nothing else happens.
pub proof fn law_activation_is_told_the_peer(
    connector: ConnectorSession,
    listener: ListenerSession,
    transitioning: bool,
    activation_id: u32,
    edge: Edge,
    normalized_position: F32Bits,
)
    ensures
        connector.local_is_controller && connector.input_forwarding_enabled
            && !connector.session_paused ==> ({
            let (after, effects) = connector.after_capture(
                Some(CaptureEvent::Activated { activation_id, edge, normalized_position }),
                transitioning,
            );
            &&& after.input_active
            &&& effects =~= seq![
                Effect::Send(
                    Message::Control {
                        role_epoch: connector.role_epoch,
                        event: ControlEvent::EnterRemote { edge, normalized_position },
                    },
                ),
            ]
        }),
        listener.local_is_controller && listener.input_forwarding_enabled
            && !listener.session_paused ==> ({
            let (after, effects) = listener.after_capture(
                Some(CaptureEvent::Activated { activation_id, edge, normalized_position }),
            );
            &&& after.capture_input_active
            &&& effects =~= seq![
                Effect::Send(
                    Message::Control {
                        role_epoch: listener.role_epoch,
                        event: ControlEvent::EnterRemote { edge, normalized_position },
                    },
                ),
            ]
        }),
{
}

/// Whatever input is captured on a side that controls, forwards and is not
/// paused is sent to the peer, the very event, in the committed epoch.
pub proof fn law_captured_input_is_sent(
    connector: ConnectorSession,
    listener: ListenerSession,
    transitioning: bool,
    event: InputEvent,
)
    ensures
        connector.local_is_controller && connector.input_forwarding_enabled
            && !connector.session_paused ==> ({
            let (after, effects) = connector.after_capture(
                Some(CaptureEvent::Input(event)),
                transitioning,
            );
            &&& after == connector
            &&& effects =~= seq![
                Effect::Send(Message::Input { role_epoch: connector.role_epoch, event }),
                Effect::Tray(TrayUpdate::InputEvent),
            ]
        }),
        listener.local_is_controller && listener.input_forwarding_enabled
            && !listener.session_paused ==> ({
            let (after, effects) = listener.after_capture(Some(CaptureEvent::Input(event)));
            &&& after == listener
            &&& effects =~= seq![
                Effect::Send(Message::Input { role_epoch: listener.role_epoch, event }),
                Effect::Tray(TrayUpdate::InputEvent),
            ]
        }),
{
}

/// Every input frame of the committed epoch, other than a release of all keys,
/// that comes while the peer controls, forwarding is on, the session is not
/// paused and the pointer has entered is put in: the very event, once, and
/// whatever its kind. Behind a motion of the pointer, and only there, the edge
/// that it returns over is looked at.
pub proof fn law_connector_plays_accepted_input(
    session: ConnectorSession,
    input: InputFrame,
    roles: Roles,
    now: Instant,
)
    requires
        input.role_epoch == session.role_epoch,
        input.event != InputEvent::AllKeysUp,
        !session.local_is_controller,
        session.input_forwarding_enabled,
        !session.session_paused,
    ensures
        ({
            let (after, effects) = session.after_frame(Frame::Input(input), roles, true, now);
            &&& after == session
            &&& effects.len() == 2
            &&& effects[0] == Effect::Inject(input.event)
            &&& effects[1] == Effect::CheckReturnEdge <==> input.event is PointerMotion
            &&& effects[1] == Effect::Tray(TrayUpdate::InputEvent) <==> !(
            input.event is PointerMotion)
        }),
{
}

/// The same of a listener.
pub proof fn law_listener_plays_accepted_input(
    session: ListenerSession,
    input: InputFrame,
    role_event_valid: bool,
    now: Instant,
)
    requires
        input.role_epoch == session.role_epoch,
        input.event != InputEvent::AllKeysUp,
        !session.local_is_controller,
        session.input_forwarding_enabled,
        !session.session_paused,
    ensures
        ({
            let (after, effects) = session.after_frame(
                Frame::Input(input),
                Verdict { accepts_input: true, role_event_valid },
                now,
            );
            &&& after == (ListenerSession { stats: after.stats, ..session })
            &&& effects.len() == 2
            &&& effects[0] == Effect::Inject(input.event)
            &&& effects[1] == Effect::CheckReturnEdge <==> input.event is PointerMotion
            &&& effects[1] == Effect::Tray(TrayUpdate::InputEvent) <==> !(
            input.event is PointerMotion)
        }),
{
}

/// A release of all keys of the committed epoch is carried out where the peer
/// controls and the session is not paused, whether the pointer has entered or
/// not, and ends the taking of input until it enters anew. A connector asks
/// for forwarding too.
pub proof fn law_release_of_keys_is_played(
    connector: ConnectorSession,
    listener: ListenerSession,
    roles: Roles,
    accepts_input: bool,
    role_event_valid: bool,
    now: Instant,
)
    ensures
        !connector.local_is_controller && connector.input_forwarding_enabled
            && !connector.session_paused ==> ({
            let (after, effects) = connector.after_frame(
                Frame::Input(
                    InputFrame { role_epoch: connector.role_epoch, event: InputEvent::AllKeysUp },
                ),
                roles,
                accepts_input,
                now,
            );
            &&& after == connector
            &&& effects =~= seq![Effect::SuspendInput, Effect::AllKeysUp]
        }),
        !listener.local_is_controller && !listener.session_paused ==> ({
            let (after, effects) = listener.after_frame(
                Frame::Input(
                    InputFrame { role_epoch: listener.role_epoch, event: InputEvent::AllKeysUp },
                ),
                Verdict { accepts_input, role_event_valid },
                now,
            );
            &&& after == (ListenerSession { stats: after.stats, ..listener })
            &&& effects =~= seq![
                Effect::SuspendInput,
                Effect::AllKeysUp,
                Effect::Tray(TrayUpdate::InputEvent),
            ]
        }),
{
}

/// A change of controller begins wherever it may: the session is not paused,
/// the peer can play either role, no change is under way, and the computer
/// asked for does not control already. Whether this user asks or the peer, the
/// same happens: the coordinator prepares the very computer that was asked for,
/// and input stops on the side that has it. Where this side is to control and
/// has no capture yet, one is set up at its edge first; else it is ready.
#[verifier::spinoff_prover]
#[verifier::rlimit(60)]
pub proof fn law_connector_choice_begins_a_handover(
    session: ConnectorSession,
    choice: ControllerChoice,
    roles: Roles,
    accepts_input: bool,
    now: Instant,
)
    ensures
        ({
            let requested = match choice {
                ControllerChoice::Local => session.local_fingerprint,
                ControllerChoice::Peer => session.peer_fingerprint,
            };
            let may = !session.session_paused && session.support.role_switch
                && session.support.input_capture && session.support.input_injection
                && !roles.transitioning && !(roles.controller_fingerprint matches Some(controller)
                && controller@ == requested@);
            let had_it = roles.controller_fingerprint matches Some(controller) && controller@
                == session.local_fingerprint@;
            let (after, effects) = session.after_tray(
                TrayCommand::SetController(choice),
                roles,
                now,
            );
            let asked = Frame::Role(RoleEvent::Request { controller_fingerprint: requested });
            &&& session.after_frame(asked, roles, accepts_input, now) == (after, effects)
            &&& !may ==> after == session && effects.len() == 0
            &&& may ==> {
                &&& effects.contains(Effect::PrepareRole { controller_fingerprint: requested })
                &&& effects.contains(Effect::SuspendInput)
                &&& !after.input_active
                &&& after.local_is_controller == session.local_is_controller
                &&& after.role_epoch == session.role_epoch
                &&& had_it ==> effects.contains(
                    Effect::TrySend(
                        Message::Input {
                            role_epoch: roles.role_epoch,
                            event: InputEvent::AllKeysUp,
                        },
                    ),
                )
                &&& had_it && session.has_capture ==> effects.contains(Effect::TryRelease)
                    && effects.contains(Effect::TryDisarm)
                &&& !had_it ==> effects.contains(Effect::TryAllKeysUp)
                &&& if requested@ == session.local_fingerprint@ && !session.has_capture {
                    effects.last() == (Effect::TryPreflight { edge: session.edge })
                        && after.pending_readiness is None
                } else {
                    &&& effects.contains(Effect::Tray(TrayUpdate::RoleSwitching(true)))
                    &&& after.pending_readiness == Some(
                        ConnectorRoleReadiness {
                            capture_ready: true,
                            inject_ready: true,
                            failure: None,
                        },
                    )
                    &&& after.transition_deadline matches Some(deadline) && (now.nanos
                        + 5_000_000_000 <= u64::MAX ==> deadline.nanos == now.nanos + 5_000_000_000)
                }
            }
        }),
{
    broadcast use {lemma_holds_push, lemma_holds_empty};

}

/// A computer that is neither of the two is never prepared.
pub proof fn law_connector_prepares_no_stranger(
    session: ConnectorSession,
    stranger: String,
    roles: Roles,
    accepts_input: bool,
    now: Instant,
)
    requires
        stranger@ != session.local_fingerprint@,
        stranger@ != session.peer_fingerprint@,
    ensures
        session.after_frame(
            Frame::Role(RoleEvent::Request { controller_fingerprint: stranger }),
            roles,
            accepts_input,
            now,
        ) == (session, Seq::<Effect>::empty()),
{
}

/// A capture that was set up makes this side ready and stays; one that could
/// not be has it not ready to capture, for the reason that is shown. Either
/// way the change goes on to the peer's answer.
pub proof fn law_connector_preflight_decides_readiness(
    session: ConnectorSession,
    result: Result<(), String>,
    now: Instant,
)
    ensures
        ({
            let (after, effects) = session.after_preflight(result, now);
            &&& after.has_capture == (result is Ok || session.has_capture)
            &&& after.pending_readiness is Some
            &&& after.pending_readiness->Some_0.capture_ready == (result is Ok)
            &&& after.pending_readiness->Some_0.inject_ready
            &&& result is Ok ==> after.pending_readiness->Some_0.failure is None
            &&& result matches Err(error) ==> after.pending_readiness->Some_0.failure == Some(
                Detail::ConnectorPreflightFailed(error),
            )
            &&& after.transition_deadline matches Some(deadline) && (now.nanos + 5_000_000_000
                <= u64::MAX ==> deadline.nanos == now.nanos + 5_000_000_000)
            &&& after.local_is_controller == session.local_is_controller
            &&& after.role_epoch == session.role_epoch
            &&& effects =~= seq![Effect::Tray(TrayUpdate::RoleSwitching(true))]
        }),
{
}

/// An answer of the peer that is waited for goes to the coordinator, with what
/// each side is ready for as it said it. What the peer says of a failure comes
/// before what this side found. An answer that is not waited for is passed
/// over.
pub proof fn law_connector_answer_is_decided(
    session: ConnectorSession,
    role_epoch: u64,
    capture_ready: bool,
    inject_ready: bool,
    failure_detail: Option<String>,
    roles: Roles,
    accepts_input: bool,
    now: Instant,
)
    ensures
        ({
            let (after, effects) = session.after_frame(
                Frame::Role(
                    RoleEvent::Ready { role_epoch, capture_ready, inject_ready, failure_detail },
                ),
                roles,
                accepts_input,
                now,
            );
            &&& after == session
            &&& session.pending_readiness is None ==> effects.len() == 0
            &&& session.pending_readiness is Some ==> {
                &&& effects.len() == 1
                &&& effects[0] matches Effect::FinishReady {
                    role_epoch: epoch,
                    local_capture_ready,
                    local_inject_ready,
                    peer_capture_ready,
                    peer_inject_ready,
                    failure,
                }
                &&& epoch == role_epoch
                &&& local_capture_ready == session.pending_readiness->Some_0.capture_ready
                &&& local_inject_ready == session.pending_readiness->Some_0.inject_ready
                &&& peer_capture_ready == capture_ready
                &&& peer_inject_ready == inject_ready
                &&& failure_detail matches Some(words) ==> failure == Some(Detail::Other(words))
                &&& failure_detail is None ==> failure == session.pending_readiness->Some_0.failure
            }
        }),
{
}

/// A commit is saved, told to the peer as it was decided, and entered, in this
/// order and for the computer that it names.
pub proof fn law_connector_carries_out_a_commit(
    session: ConnectorSession,
    commit: RoleState,
    now: Instant,
)
    requires
        commit.controller_fingerprint is Some,
    ensures
        ({
            let (after, effects) = session.after_decision(ReadyOutcome::Commit(commit), now);
            let controller_fingerprint = commit.controller_fingerprint->Some_0;
            &&& after.pending_readiness is None
            &&& after.transition_deadline is None
            &&& effects =~= seq![
                Effect::SaveRole { controller_fingerprint },
                Effect::Send(Message::RoleCommit(commit)),
                Effect::EnterRole { controller_fingerprint, role_epoch: commit.role_epoch },
            ]
        }),
{
}

/// A change that is given up leaves the roles as they are: the peer is told,
/// the tray shows no change any more and shows why, and the side that controls
/// goes on where it forwards.
pub proof fn law_connector_goes_on_after_an_abort(
    session: ConnectorSession,
    abort: RoleState,
    now: Instant,
)
    ensures
        ({
            let (after, effects) = session.after_decision(ReadyOutcome::Abort(abort), now);
            &&& after == (ConnectorSession {
                pending_readiness: None,
                transition_deadline: None,
                ..session
            })
            &&& effects.contains(Effect::Send(Message::RoleAbort(abort)))
            &&& effects.contains(Effect::Arm) <==> session.local_is_controller
                && session.input_forwarding_enabled && !session.session_paused
                && session.has_capture
            &&& effects.contains(Effect::Tray(TrayUpdate::RoleSwitching(false)))
            &&& abort.failure_detail matches Some(words) ==> effects.contains(
                Effect::Tray(TrayUpdate::RoleFailure(Detail::Other(words))),
            )
        }),
{
    broadcast use {lemma_holds_push, lemma_holds_empty};

}

/// A change that the peer does not answer in time is given up: the peer is
/// told, the user is shown, and the side that controls goes on.
pub proof fn law_connector_gives_up_in_time(
    session: ConnectorSession,
    now: Instant,
    transitioning: bool,
    liveness: Option<LivenessEvent>,
)
    ensures
        ({
            let late = transitioning && session.transition_deadline is Some && now.nanos
                >= session.transition_deadline->Some_0.nanos;
            let (after, effects) = session.after_watchdog(now, transitioning, liveness);
            &&& effects.contains(Effect::TryAbortRole(Detail::RolePreflightTimedOut)) <==> late
            &&& effects.contains(
                Effect::Tray(TrayUpdate::RoleFailure(Detail::RoleSwitchTimedOut)),
            ) <==> late
            &&& effects.contains(Effect::TryArm) <==> late && session.local_is_controller
                && session.input_forwarding_enabled && !session.session_paused
                && session.has_capture
            &&& late ==> after.transition_deadline is None && after.pending_readiness is None
            &&& !late ==> after.transition_deadline == session.transition_deadline
                && after.pending_readiness == session.pending_readiness
        }),
{
    broadcast use {lemma_holds_push, lemma_holds_empty};

}

/// A peer that falls silent gets no more input and leaves none behind: the
/// pointer comes back to a side that has a capture and controls, any other
/// side lets go of the keys that are held, and the peer is asked to let go of
/// its own. A peer that stays silent ends the session.
pub proof fn law_connector_silence_stops_input(
    session: ConnectorSession,
    now: Instant,
    transitioning: bool,
)
    ensures
        ({
            let (after, effects) = session.after_watchdog(
                now,
                transitioning,
                Some(LivenessEvent::SoftInputTimeout),
            );
            let captures = session.local_is_controller && session.has_capture;
            &&& !after.input_active
            &&& effects.contains(
                Effect::TrySend(
                    Message::Input { role_epoch: session.role_epoch, event: InputEvent::AllKeysUp },
                ),
            )
            &&& effects.contains(Effect::TryRelease) <==> captures
            &&& effects.contains(Effect::SuspendInput) <==> !captures
            &&& effects.contains(Effect::TryAllKeysUp) <==> !captures
        }),
        session.after_watchdog(
            now,
            transitioning,
            Some(LivenessEvent::HardSessionTimeout),
        ).1.contains(Effect::Fail(SessionFailure::PeerSilent)),
        !session.after_watchdog(now, transitioning, None).1.contains(
            Effect::Fail(SessionFailure::PeerSilent),
        ),
{
    broadcast use {lemma_holds_push, lemma_holds_empty};

}

/// The same of a listener, which tells the peer why. It lets go of the keys
/// whether it has a capture or not.
pub proof fn law_listener_silence_stops_input(session: ListenerSession, now: Instant)
    ensures
        ({
            let (after, effects) = session.after_watchdog(
                now,
                Some(LivenessEvent::SoftInputTimeout),
            );
            &&& !after.capture_input_active
            &&& effects.contains(Effect::SuspendInput)
            &&& effects.contains(Effect::TryAllKeysUp)
            &&& effects.contains(Effect::TryRelease) <==> session.has_capture
            &&& effects.contains(
                Effect::TrySend(
                    Message::Control {
                        role_epoch: session.role_epoch,
                        event: ControlEvent::ReleaseToLocal {
                            reason: ReleaseReason::HeartbeatTimeout,
                        },
                    },
                ),
            )
        }),
        session.after_watchdog(now, Some(LivenessEvent::HardSessionTimeout)).1.contains(
            Effect::Fail(SessionFailure::PeerSilent),
        ),
        !session.after_watchdog(now, None).1.contains(Effect::Fail(SessionFailure::PeerSilent)),
{
    broadcast use {lemma_holds_push, lemma_holds_empty};

}

/// What a listener asked for and was not answered in time is given up: the
/// tray shows the roles as they are, and the side that controls goes on.
pub proof fn law_listener_gives_up_in_time(
    session: ListenerSession,
    now: Instant,
    liveness: Option<LivenessEvent>,
)
    ensures
        ({
            let late = session.role_request_deadline is Some && now.nanos
                >= session.role_request_deadline->Some_0.nanos;
            let (after, effects) = session.after_watchdog(now, liveness);
            &&& late ==> after.role_request_deadline is None && after.prepared_role is None
            &&& !late ==> after.role_request_deadline == session.role_request_deadline
                && after.prepared_role == session.prepared_role
            &&& effects.contains(Effect::TryArm) <==> late && session.local_is_controller
                && session.input_forwarding_enabled && !session.session_paused
                && session.has_capture
            &&& effects.contains(
                Effect::Tray(
                    TrayUpdate::RoleAssignment {
                        local_is_controller: session.local_is_controller,
                        switch_available: session.support.role_switch
                            && session.support.input_capture && session.support.input_injection
                            && !session.session_paused,
                    },
                ),
            ) <==> late
            &&& after.local_is_controller == session.local_is_controller
            &&& after.role_epoch == session.role_epoch
        }),
{
    broadcast use {lemma_holds_push, lemma_holds_empty};

}

/// When input goes back to this computer, the peer is asked to let go of every
/// key that was sent down, on either side and however it went back; and input
/// does not count as active any more.
pub proof fn law_capture_end_releases_the_peer(
    connector: ConnectorSession,
    listener: ListenerSession,
    transitioning: bool,
)
    ensures
        ({
            let (after, effects) = connector.after_capture(
                Some(CaptureEvent::Deactivated),
                transitioning,
            );
            &&& after == (ConnectorSession { input_active: false, ..connector })
            &&& effects =~= seq![
                Effect::Send(
                    Message::Input {
                        role_epoch: connector.role_epoch,
                        event: InputEvent::AllKeysUp,
                    },
                ),
            ]
        }),
        ({
            let (after, effects) = connector.after_capture(
                Some(CaptureEvent::EmergencyReleased),
                transitioning,
            );
            &&& after == (ConnectorSession { input_active: false, ..connector })
            &&& effects =~= seq![
                Effect::TrySend(
                    Message::Input {
                        role_epoch: connector.role_epoch,
                        event: InputEvent::AllKeysUp,
                    },
                ),
            ]
        }),
        ({
            let released = seq![
                Effect::TrySend(
                    Message::Input {
                        role_epoch: listener.role_epoch,
                        event: InputEvent::AllKeysUp,
                    },
                ),
            ];
            let after = ListenerSession { capture_input_active: false, ..listener };
            &&& listener.after_capture(Some(CaptureEvent::Deactivated)).0 == after
            &&& listener.after_capture(Some(CaptureEvent::EmergencyReleased)).0 == after
            &&& listener.after_capture(Some(CaptureEvent::Deactivated)).1 =~= released
            &&& listener.after_capture(Some(CaptureEvent::EmergencyReleased)).1 =~= released
        }),
{
}

/// A capture that fails ends the session with what went wrong, behind a
/// release of the peer's keys. One that just stops ends it where it is needed.
pub proof fn law_failed_capture_ends_the_session(
    connector: ConnectorSession,
    listener: ListenerSession,
    transitioning: bool,
    error: String,
)
    ensures
        connector.after_capture(Some(CaptureEvent::BackendFailed(error)), transitioning).1 =~= seq![
            Effect::TrySend(
                Message::Input { role_epoch: connector.role_epoch, event: InputEvent::AllKeysUp },
            ),
            Effect::Fail(SessionFailure::CaptureFailed(error)),
        ],
        listener.after_capture(Some(CaptureEvent::BackendFailed(error))).1 =~= seq![
            Effect::TrySend(
                Message::Input { role_epoch: listener.role_epoch, event: InputEvent::AllKeysUp },
            ),
            Effect::Fail(SessionFailure::CaptureFailed(error)),
        ],
        connector.after_capture(None, transitioning).1.contains(
            Effect::Fail(SessionFailure::CaptureStopped),
        ) <==> connector.has_capture,
        listener.after_capture(None).1.contains(Effect::Fail(SessionFailure::CaptureStopped))
            <==> listener.has_capture && listener.local_is_controller,
{
    broadcast use {lemma_holds_push, lemma_holds_empty};

}

/// When the screens change, the capture is armed anew on the side that
/// controls and forwards. A change of roles that is under way is given up,
/// and the peer is told why.
pub proof fn law_new_layout_is_taken_in(
    connector: ConnectorSession,
    listener: ListenerSession,
    transitioning: bool,
    previous_zone_set: u32,
    current_zone_set: u32,
)
    ensures
        ({
            let (after, effects) = connector.after_capture(
                Some(CaptureEvent::LayoutChanged { previous_zone_set, current_zone_set }),
                transitioning,
            );
            &&& !after.input_active
            &&& effects.contains(Effect::Arm) <==> connector.local_is_controller
                && connector.input_forwarding_enabled && !connector.session_paused
                && connector.has_capture
            &&& effects.contains(Effect::AbortRole(Detail::LayoutChangedDuringPreflight))
                <==> transitioning
            &&& transitioning ==> effects.contains(Effect::Tray(TrayUpdate::RoleSwitching(false)))
                && after.pending_readiness is None && after.transition_deadline is None
            &&& !transitioning ==> after.pending_readiness == connector.pending_readiness
        }),
        ({
            let (after, effects) = listener.after_capture(
                Some(CaptureEvent::LayoutChanged { previous_zone_set, current_zone_set }),
            );
            &&& !after.capture_input_active
            &&& after.prepared_role is None
            &&& listener.prepared_role is None ==> (effects.contains(Effect::Arm)
                <==> listener.local_is_controller && listener.input_forwarding_enabled
                && !listener.session_paused && listener.has_capture)
            &&& listener.prepared_role matches Some(prepared) ==> effects =~= seq![
                Effect::TrySend(
                    Message::RoleReady {
                        role_epoch: prepared.role_epoch,
                        capture_ready: false,
                        inject_ready: true,
                        failure: Some(Detail::LayoutChangedDuringPreflight),
                    },
                ),
            ] && after.role_request_deadline is None
        }),
{
    broadcast use {lemma_holds_push, lemma_holds_empty};

}

/// Where the pointer comes back from the peer, it is put at the edge and the
/// position that the peer named, on the side that controls; the peer's keys
/// are released.
pub proof fn law_pointer_comes_back_where_it_left(
    connector: ConnectorSession,
    listener: ListenerSession,
    edge: Edge,
    normalized_position: F32Bits,
    roles: Roles,
    verdict: Verdict,
    accepts_input: bool,
    now: Instant,
)
    ensures
        connector.local_is_controller ==> ({
            let (after, effects) = connector.after_frame(
                Frame::Control(
                    ControlFrame {
                        role_epoch: connector.role_epoch,
                        event: ControlEvent::LeaveRemote { edge, normalized_position },
                    },
                ),
                roles,
                accepts_input,
                now,
            );
            &&& !after.input_active
            &&& effects.contains(
                Effect::Send(
                    Message::Input {
                        role_epoch: connector.role_epoch,
                        event: InputEvent::AllKeysUp,
                    },
                ),
            )
            &&& effects.contains(Effect::Release { edge: Some((edge, normalized_position)) })
                <==> connector.has_capture
        }),
        listener.local_is_controller ==> ({
            let (after, effects) = listener.after_frame(
                Frame::Control(
                    ControlFrame {
                        role_epoch: listener.role_epoch,
                        event: ControlEvent::LeaveRemote { edge, normalized_position },
                    },
                ),
                verdict,
                now,
            );
            &&& !after.capture_input_active
            &&& effects.contains(
                Effect::Send(
                    Message::Input {
                        role_epoch: listener.role_epoch,
                        event: InputEvent::AllKeysUp,
                    },
                ),
            )
            &&& effects.contains(Effect::Release { edge: Some((edge, normalized_position)) })
                <==> listener.has_capture
        }),
{
    broadcast use {lemma_holds_push, lemma_holds_empty};

}

/// A peer that gives input back, for whatever reason, has it released on the
/// side that controls.
pub proof fn law_given_back_input_is_released(
    connector: ConnectorSession,
    listener: ListenerSession,
    reason: ReleaseReason,
    roles: Roles,
    verdict: Verdict,
    accepts_input: bool,
    now: Instant,
)
    ensures
        connector.local_is_controller ==> ({
            let (after, effects) = connector.after_frame(
                Frame::Control(
                    ControlFrame {
                        role_epoch: connector.role_epoch,
                        event: ControlEvent::ReleaseToLocal { reason },
                    },
                ),
                roles,
                accepts_input,
                now,
            );
            &&& !after.input_active
            &&& effects.contains(Effect::Release { edge: None }) <==> connector.has_capture
        }),
        listener.local_is_controller ==> ({
            let (after, effects) = listener.after_frame(
                Frame::Control(
                    ControlFrame {
                        role_epoch: listener.role_epoch,
                        event: ControlEvent::ReleaseToLocal { reason },
                    },
                ),
                verdict,
                now,
            );
            &&& !after.capture_input_active
            &&& effects.contains(Effect::Release { edge: None }) <==> listener.has_capture
        }),
{
    broadcast use {lemma_holds_push, lemma_holds_empty};

}

/// Where the pointer of the peer enters, the side that is controlled takes note
/// of it for both: for taking input, and for the edge that it returns over.
/// Nothing of another epoch is taken note of.
pub proof fn law_entry_is_noted(
    connector: ConnectorSession,
    listener: ListenerSession,
    role_epoch: u64,
    edge: Edge,
    normalized_position: F32Bits,
    roles: Roles,
    verdict: Verdict,
    accepts_input: bool,
    now: Instant,
)
    ensures
        ({
            let event = ControlEvent::EnterRemote { edge, normalized_position };
            let frame = Frame::Control(ControlFrame { role_epoch, event });
            let (here, one) = connector.after_frame(frame, roles, accepts_input, now);
            let (_, other) = listener.after_frame(frame, verdict, now);
            &&& here == connector
            &&& one.contains(Effect::ObserveControl(event)) <==> role_epoch == connector.role_epoch
                && !connector.local_is_controller
            &&& one.contains(Effect::RecordControl(event)) <==> role_epoch == connector.role_epoch
                && !connector.local_is_controller
            &&& other.contains(Effect::ObserveControl(event)) <==> role_epoch
                == listener.role_epoch && !listener.local_is_controller
            &&& other.contains(Effect::RecordControl(event)) <==> role_epoch == listener.role_epoch
                && !listener.local_is_controller
        }),
{
    broadcast use {lemma_holds_push, lemma_holds_empty};

}

/// Where the pointer leaves over the edge that it returns over, the keys are
/// let go, input is not taken any more, and the peer is told the very event,
/// in the committed epoch. Where it does not, only the tray is told.
pub proof fn law_return_is_told_the_peer(
    connector: ConnectorSession,
    listener: ListenerSession,
    event: ControlEvent,
)
    ensures
        connector.after_return_edge(Some(event)) =~= seq![
            Effect::SuspendInput,
            Effect::TryAllKeysUp,
            Effect::Send(Message::Control { role_epoch: connector.role_epoch, event }),
            Effect::Tray(TrayUpdate::InputEvent),
        ],
        connector.after_return_edge(None) =~= seq![Effect::Tray(TrayUpdate::InputEvent)],
        listener.after_return_edge(Some(event)).1 =~= seq![
            Effect::SuspendInput,
            Effect::TryAllKeysUp,
            Effect::Send(Message::Control { role_epoch: listener.role_epoch, event }),
            Effect::Tray(TrayUpdate::InputEvent),
        ],
        listener.after_return_edge(None).1 =~= seq![Effect::Tray(TrayUpdate::InputEvent)],
        listener.after_return_edge(None).0 == listener,
{
}

/// What is captured on the one side is put in on the other: for every input but
/// a release of all keys, where the one controls and the other does not, both
/// in one epoch, forwarding and not paused, and the pointer has entered.
pub proof fn law_captured_input_gets_across(
    connector: ConnectorSession,
    listener: ListenerSession,
    event: InputEvent,
    transitioning: bool,
    roles: Roles,
    role_event_valid: bool,
    now: Instant,
    udp_port: u16,
    frame: Frame,
)
    requires
        event != InputEvent::AllKeysUp,
        connector.role_epoch == listener.role_epoch,
        connector.local_is_controller != listener.local_is_controller,
        connector.input_forwarding_enabled,
        listener.input_forwarding_enabled,
        !connector.session_paused,
        !listener.session_paused,
    ensures
        ({
            let captured = Some(CaptureEvent::Input(event));
            let verdict = Verdict { accepts_input: true, role_event_valid };
            &&& connector.local_is_controller ==> {
                &&& connector.after_capture(captured, transitioning).1[0] matches Effect::Send(said)
                &&& said.carried_by(frame, udp_port) ==> listener.after_frame(
                    frame,
                    verdict,
                    now,
                ).1[0] == Effect::Inject(event)
            }
            &&& listener.local_is_controller ==> {
                &&& listener.after_capture(captured).1[0] matches Effect::Send(said)
                &&& said.carried_by(frame, udp_port) ==> connector.after_frame(
                    frame,
                    roles,
                    true,
                    now,
                ).1[0] == Effect::Inject(event)
            }
        }),
{
}

/// A pause takes hold on a connector, whichever side asks for it, except in
/// the middle of a change of roles: it is kept, the peer is told, the keys are
/// let go, the capture is given back, and the audio stops. Nothing else of the
/// session changes.
#[verifier::spinoff_prover]
#[verifier::rlimit(60)]
pub proof fn law_connector_pause_takes_hold(
    session: ConnectorSession,
    roles: Roles,
    accepts_input: bool,
    now: Instant,
)
    ensures
        ({
            let (here, mine) = session.after_tray(TrayCommand::Disconnect, roles, now);
            let (there, theirs) = session.after_frame(
                Frame::Role(RoleEvent::SetPaused { paused: true }),
                roles,
                accepts_input,
                now,
            );
            &&& roles.transitioning ==> here == session && there == session && mine.len() == 0
                && theirs.len() == 0
            &&& !roles.transitioning ==> {
                &&& here == there
                &&& here == (ConnectorSession {
                    session_paused: true,
                    audio: here.audio,
                    ..session
                })
                &&& !here.audio.starting && !here.audio.sender && !here.audio.receiver
                &&& here.audio.generation != session.audio.generation
                &&& pauses_a_connector(session, mine)
                &&& pauses_a_connector(session, theirs)
            }
        }),
{
    broadcast use {lemma_holds_push, lemma_holds_empty};

}

/// What a pause of a connector takes.
pub open spec fn pauses_a_connector(session: ConnectorSession, effects: Seq<Effect>) -> bool {
    &&& effects.contains(Effect::PauseRole(true))
    &&& effects.contains(Effect::RememberPause(true))
    &&& effects.contains(Effect::Send(Message::RolePaused { paused: true }))
    &&& effects.contains(Effect::SuspendInput)
    &&& effects.contains(Effect::TryAllKeysUp)
    &&& effects.contains(Effect::TryRelease) <==> session.has_capture
    &&& effects.contains(Effect::TryDisarm) <==> session.has_capture
    &&& effects.contains(Effect::AbortAudioStart) <==> session.audio.starting
    &&& effects.contains(Effect::StopAudioSender) <==> session.audio.sender
    &&& effects.contains(Effect::DropAudioReceiver) <==> session.audio.receiver
    &&& effects.contains(Effect::Tray(TrayUpdate::SessionPaused(true)))
    &&& effects.contains(
        Effect::Tray(
            TrayUpdate::RoleAssignment {
                local_is_controller: session.local_is_controller,
                switch_available: false,
            },
        ),
    )
}

/// A session goes on, whichever side asks for it: the peer is told, the capture
/// is armed on the side that controls and forwards, the route of the audio is
/// named again, and the computer that the audio comes from offers it.
#[verifier::spinoff_prover]
#[verifier::rlimit(60)]
pub proof fn law_connector_goes_on_from_either_side(
    session: ConnectorSession,
    roles: Roles,
    accepts_input: bool,
    now: Instant,
)
    ensures
        ({
            let (here, mine) = session.after_tray(TrayCommand::Reconnect, roles, now);
            let (there, theirs) = session.after_frame(
                Frame::Role(RoleEvent::SetPaused { paused: false }),
                roles,
                accepts_input,
                now,
            );
            &&& here == (ConnectorSession { session_paused: false, ..session })
            &&& goes_on(session, mine)
            &&& roles.transitioning ==> there == session && theirs.len() == 0
            &&& !roles.transitioning ==> there == here && goes_on(session, theirs)
        }),
{
    broadcast use {lemma_holds_push, lemma_holds_empty};

}

/// What going on takes.
pub open spec fn goes_on(session: ConnectorSession, effects: Seq<Effect>) -> bool {
    &&& effects.contains(Effect::PauseRole(false))
    &&& effects.contains(Effect::RememberPause(false))
    &&& effects.contains(Effect::Send(Message::RolePaused { paused: false }))
    &&& effects.contains(Effect::Arm) <==> session.local_is_controller
        && session.input_forwarding_enabled && session.has_capture
    &&& session.support.audio_route ==> effects.contains(
        Effect::Send(Message::AudioSetRoute { source_fingerprint: session.audio_source }),
    )
    &&& !session.support.audio_route ==> effects.contains(
        Effect::Send(
            Message::AudioSetEnabled {
                enabled: session.audio_source matches Some(source) && source@
                    == session.peer_fingerprint@,
            },
        ),
    )
    &&& effects.contains(Effect::Send(Message::AudioOffer)) <==> (
    session.audio_source matches Some(source) && source@ == session.local_fingerprint@)
    &&& effects.contains(Effect::Tray(TrayUpdate::SessionPaused(false)))
    &&& effects.contains(
        Effect::Tray(
            TrayUpdate::RoleAssignment {
                local_is_controller: session.local_is_controller,
                switch_available: session.support.role_switch && session.support.input_capture
                    && session.support.input_injection,
            },
        ),
    )
}

/// What the user of a listener asks for, where the peer knows roles: a pause
/// stops input and audio here at once and is told the peer, and going on arms
/// the capture again. Where the peer does not know roles, a pause ends the
/// session, behind a release.
#[verifier::spinoff_prover]
#[verifier::rlimit(60)]
pub proof fn law_listener_pause_takes_hold(session: ListenerSession, now: Instant)
    ensures
        ({
            let (after, effects) = session.after_tray(TrayCommand::Disconnect, now);
            &&& after.session_paused == (session.support.role_switch || session.session_paused)
            &&& !after.audio.starting && !after.audio.sender && !after.audio.receiver
            &&& after.role_epoch == session.role_epoch
            &&& after.local_is_controller == session.local_is_controller
            &&& effects.contains(Effect::AbortAudioStart) <==> session.audio.starting
            &&& effects.contains(Effect::StopAudioSender) <==> session.audio.sender
            &&& effects.contains(Effect::DropAudioReceiver) <==> session.audio.receiver
            &&& effects.contains(Effect::TryAllKeysUp)
            &&& session.support.role_switch ==> {
                &&& effects.contains(Effect::Send(Message::RolePaused { paused: true }))
                &&& effects.contains(Effect::Tray(TrayUpdate::SessionPaused(true)))
                &&& effects.contains(Effect::TryRelease) <==> session.has_capture
                &&& effects.contains(Effect::TryDisarm) <==> session.has_capture
                &&& !effects.contains(Effect::Exit(ControllerSessionExit::DisconnectRequested))
            }
            &&& !session.support.role_switch ==> {
                &&& effects.last() == Effect::Exit(ControllerSessionExit::DisconnectRequested)
                &&& effects.contains(
                    Effect::TrySend(
                        Message::Control {
                            role_epoch: session.role_epoch,
                            event: ControlEvent::ReleaseToLocal {
                                reason: ReleaseReason::UserRequest,
                            },
                        },
                    ),
                )
            }
        }),
        ({
            let (after, effects) = session.after_tray(TrayCommand::Reconnect, now);
            &&& !session.support.role_switch ==> after == session && effects.len() == 0
            &&& session.support.role_switch ==> {
                &&& after == (ListenerSession { session_paused: false, ..session })
                &&& effects.contains(Effect::Send(Message::RolePaused { paused: false }))
                &&& effects.contains(Effect::Arm) <==> session.local_is_controller
                    && session.input_forwarding_enabled && session.has_capture
                &&& effects.contains(Effect::Tray(TrayUpdate::SessionPaused(false)))
            }
        }),
{
    broadcast use {lemma_holds_push, lemma_holds_empty};

}

/// What the peer says of a pause holds here: a pause stops input and audio, and
/// going on arms the capture of the side that controls and forwards.
#[verifier::spinoff_prover]
#[verifier::rlimit(60)]
pub proof fn law_listener_follows_a_pause(
    session: ListenerSession,
    paused: bool,
    verdict: Verdict,
    now: Instant,
)
    ensures
        ({
            let (after, effects) = session.after_frame(
                Frame::Role(RoleEvent::SetPaused { paused }),
                verdict,
                now,
            );
            &&& after.session_paused == paused
            &&& after.role_epoch == session.role_epoch
            &&& after.local_is_controller == session.local_is_controller
            &&& after.input_forwarding_enabled == session.input_forwarding_enabled
            &&& effects.contains(Effect::Tray(TrayUpdate::SessionPaused(paused)))
            &&& effects.contains(
                Effect::Tray(
                    TrayUpdate::RoleAssignment {
                        local_is_controller: session.local_is_controller,
                        switch_available: session.support.role_switch
                            && session.support.input_capture && session.support.input_injection
                            && !paused,
                    },
                ),
            )
            &&& paused ==> {
                &&& !after.capture_input_active
                &&& !after.audio.starting && !after.audio.sender && !after.audio.receiver
                &&& effects.contains(Effect::SuspendInput)
                &&& effects.contains(Effect::TryAllKeysUp)
                &&& effects.contains(Effect::TryDisarm) <==> session.has_capture
                &&& effects.contains(Effect::AbortAudioStart) <==> session.audio.starting
                &&& effects.contains(Effect::StopAudioSender) <==> session.audio.sender
                &&& effects.contains(Effect::DropAudioReceiver) <==> session.audio.receiver
            }
            &&& !paused ==> {
                &&& after.capture_input_active == session.capture_input_active
                &&& after.audio == session.audio
            }
            &&& effects.contains(Effect::Arm) <==> !paused && session.local_is_controller
                && session.input_forwarding_enabled && session.has_capture
        }),
{
    broadcast use {lemma_holds_push, lemma_holds_empty};

}

/// A pause that either side carries out holds on the other: what is told is
/// what the other side then does.
#[verifier::spinoff_prover]
#[verifier::rlimit(60)]
pub proof fn law_pause_is_shared(
    connector: ConnectorSession,
    listener: ListenerSession,
    paused: bool,
    roles: Roles,
    verdict: Verdict,
    accepts_input: bool,
    now: Instant,
    udp_port: u16,
    frame: Frame,
)
    requires
        !roles.transitioning,
        listener.support.role_switch,
        (Message::RolePaused { paused }).carried_by(frame, udp_port),
    ensures
        ({
            let command = if paused {
                TrayCommand::Disconnect
            } else {
                TrayCommand::Reconnect
            };
            let told = Effect::Send(Message::RolePaused { paused });
            &&& connector.after_tray(command, roles, now).1.contains(told)
            &&& connector.after_tray(command, roles, now).0.session_paused == paused
            &&& listener.after_frame(frame, verdict, now).0.session_paused == paused
            &&& listener.after_tray(command, now).1.contains(told)
            &&& listener.after_tray(command, now).0.session_paused == paused
            &&& connector.after_frame(frame, roles, accepts_input, now).0.session_paused == paused
        }),
{
    broadcast use {lemma_holds_push, lemma_holds_empty};

}

/// The user turns forwarding off and on: unless the session is paused, roles
/// change, or nobody controls, it is the other way round from then on, the peer
/// is told in the committed epoch, and the tray shows it. The side that has the
/// pointer arms or disarms its capture; the other lets go of the keys.
pub proof fn law_connector_toggle_turns_forwarding(
    session: ConnectorSession,
    roles: Roles,
    now: Instant,
)
    ensures
        ({
            let may = !session.session_paused && !roles.transitioning
                && roles.controller_fingerprint is Some;
            let enabled = !session.input_forwarding_enabled;
            let captures = session.local_is_controller && session.has_capture;
            let (after, effects) = session.after_tray(
                TrayCommand::ToggleInputForwarding,
                roles,
                now,
            );
            &&& !may ==> after == session && effects.len() == 0
            &&& may ==> {
                &&& after == (ConnectorSession {
                    input_forwarding_enabled: enabled,
                    input_active: false,
                    ..session
                })
                &&& effects.contains(
                    Effect::Send(
                        Message::Control {
                            role_epoch: session.role_epoch,
                            event: ControlEvent::SetInputForwarding { enabled },
                        },
                    ),
                )
                &&& effects.contains(Effect::Tray(TrayUpdate::InputForwarding(enabled)))
                &&& effects.contains(Effect::Arm) <==> captures && enabled
                &&& effects.contains(Effect::Disarm) <==> captures && !enabled
                &&& effects.contains(Effect::TryAllKeysUp) <==> !captures && !enabled
            }
        }),
{
    broadcast use {lemma_holds_push, lemma_holds_empty};

}

/// The same of a listener, except while it is told to prepare a change of
/// roles. A peer that cannot be told of forwarding is released instead.
pub proof fn law_listener_toggle_turns_forwarding(session: ListenerSession, now: Instant)
    ensures
        ({
            let enabled = !session.input_forwarding_enabled;
            let (after, effects) = session.after_tray(TrayCommand::ToggleInputForwarding, now);
            &&& session.prepared_role is Some ==> after == session && effects.len() == 0
            &&& session.prepared_role is None ==> {
                &&& after == (ListenerSession { input_forwarding_enabled: enabled, ..session })
                &&& effects.contains(
                    Effect::Send(
                        Message::Control {
                            role_epoch: session.role_epoch,
                            event: ControlEvent::SetInputForwarding { enabled },
                        },
                    ),
                ) <==> session.support.input_toggle
                &&& effects.contains(
                    Effect::Send(
                        Message::Control {
                            role_epoch: session.role_epoch,
                            event: ControlEvent::ReleaseToLocal {
                                reason: ReleaseReason::BackendFailure,
                            },
                        },
                    ),
                ) <==> !session.support.input_toggle && !enabled
                &&& effects.contains(Effect::Tray(TrayUpdate::InputForwarding(enabled)))
                &&& effects.contains(Effect::Arm) <==> enabled && session.local_is_controller
                    && !session.session_paused && session.has_capture
                &&& effects.contains(Effect::TryDisarm) <==> !enabled && session.has_capture
                &&& effects.contains(Effect::TryAllKeysUp) <==> !enabled
                &&& effects.contains(
                    Effect::RecordControl(ControlEvent::SetInputForwarding { enabled: false }),
                ) <==> !enabled
            }
        }),
{
    broadcast use {lemma_holds_push, lemma_holds_empty};

}

/// What the peer says of forwarding holds here, in the committed epoch: it is
/// shown, the capture is armed or disarmed, and with forwarding off the keys
/// are let go.
pub proof fn law_connector_follows_forwarding(
    session: ConnectorSession,
    enabled: bool,
    roles: Roles,
    accepts_input: bool,
    now: Instant,
)
    ensures
        ({
            let captures = session.local_is_controller && session.has_capture;
            let (after, effects) = session.after_frame(
                Frame::Control(
                    ControlFrame {
                        role_epoch: session.role_epoch,
                        event: ControlEvent::SetInputForwarding { enabled },
                    },
                ),
                roles,
                accepts_input,
                now,
            );
            &&& after == (ConnectorSession {
                input_forwarding_enabled: enabled,
                input_active: false,
                ..session
            })
            &&& effects.contains(Effect::Tray(TrayUpdate::InputForwarding(enabled)))
            &&& effects.contains(Effect::Arm) <==> captures && enabled && !session.session_paused
            &&& effects.contains(Effect::Disarm) <==> captures && !enabled
            &&& effects.contains(Effect::SuspendInput) <==> !captures && !enabled
            &&& effects.contains(Effect::TryAllKeysUp) <==> !captures && !enabled
        }),
{
    broadcast use {lemma_holds_push, lemma_holds_empty};

}

/// The same of a listener, where the peer knows of forwarding.
pub proof fn law_listener_follows_forwarding(
    session: ListenerSession,
    enabled: bool,
    verdict: Verdict,
    now: Instant,
)
    requires
        session.support.input_toggle,
    ensures
        ({
            let (after, effects) = session.after_frame(
                Frame::Control(
                    ControlFrame {
                        role_epoch: session.role_epoch,
                        event: ControlEvent::SetInputForwarding { enabled },
                    },
                ),
                verdict,
                now,
            );
            &&& after.input_forwarding_enabled == enabled
            &&& after.capture_input_active == (enabled && session.capture_input_active)
            &&& after.role_epoch == session.role_epoch
            &&& after.local_is_controller == session.local_is_controller
            &&& after.session_paused == session.session_paused
            &&& effects.contains(Effect::Tray(TrayUpdate::InputForwarding(enabled)))
            &&& effects.contains(
                Effect::RecordControl(ControlEvent::SetInputForwarding { enabled }),
            )
            &&& effects.contains(Effect::Arm) <==> enabled && session.local_is_controller
                && !session.session_paused && session.has_capture
            &&& effects.contains(Effect::TryDisarm) <==> !enabled && session.has_capture
            &&& effects.contains(Effect::SuspendInput) <==> !enabled
            &&& effects.contains(Effect::TryAllKeysUp) <==> !enabled
        }),
{
    broadcast use {lemma_holds_push, lemma_holds_empty};

}

/// Frames of another epoch do nothing: neither input nor control.
pub proof fn law_other_epochs_do_nothing(
    connector: ConnectorSession,
    listener: ListenerSession,
    input: InputFrame,
    control: ControlFrame,
    roles: Roles,
    verdict: Verdict,
    accepts_input: bool,
    now: Instant,
)
    ensures
        input.role_epoch != connector.role_epoch ==> connector.after_frame(
            Frame::Input(input),
            roles,
            accepts_input,
            now,
        ) == (connector, Seq::<Effect>::empty()),
        control.role_epoch != connector.role_epoch ==> connector.after_frame(
            Frame::Control(control),
            roles,
            accepts_input,
            now,
        ) == (connector, Seq::<Effect>::empty()),
        input.role_epoch != listener.role_epoch ==> listener.after_frame(
            Frame::Input(input),
            verdict,
            now,
        ) == (listener, Seq::<Effect>::empty()),
        control.role_epoch != listener.role_epoch ==> listener.after_frame(
            Frame::Control(control),
            verdict,
            now,
        ) == (listener, Seq::<Effect>::empty()),
{
}

/// What the peer says of the clipboard is taken in, the very event, and a
/// change of the clipboard here is offered, on each side whenever the session
/// is not paused, whoever controls.
pub proof fn law_clipboard_is_shared(
    connector: ConnectorSession,
    listener: ListenerSession,
    event: ClipboardEvent,
    roles: Roles,
    verdict: Verdict,
    accepts_input: bool,
    now: Instant,
)
    ensures
        ({
            let (here, one) = connector.after_frame(
                Frame::Clipboard(event),
                roles,
                accepts_input,
                now,
            );
            let (there, other) = listener.after_frame(Frame::Clipboard(event), verdict, now);
            &&& here == connector
            &&& there == listener
            &&& !connector.session_paused ==> one =~= seq![Effect::SyncClipboard(event)]
            &&& connector.session_paused ==> one.len() == 0
            &&& !listener.session_paused ==> other =~= seq![Effect::SyncClipboard(event)]
            &&& listener.session_paused ==> other.len() == 0
        }),
        !connector.session_paused ==> connector.after_clipboard_watch(true) =~= seq![
            Effect::OfferClipboard,
        ],
        !listener.session_paused ==> listener.after_clipboard_watch(true) =~= seq![
            Effect::OfferClipboard,
        ],
        connector.after_clipboard_watch(false) =~= seq![Effect::WatchClipboardAnew],
        listener.after_clipboard_watch(false) =~= seq![Effect::WatchClipboardAnew],
{
}

/// Each sign of life is sent, with a number that the one before did not have.
/// A listener gives up first an image that makes no progress, and tells the
/// peer which.
pub proof fn law_signs_of_life_are_sent(
    connector: ConnectorSession,
    listener: ListenerSession,
    expired: Option<u64>,
)
    requires
        listener.heartbeat_sequence < u64::MAX,
    ensures
        ({
            let (after, effects) = connector.after_heartbeat();
            &&& after == (ConnectorSession {
                heartbeat_sequence: after.heartbeat_sequence,
                ..connector
            })
            &&& after.heartbeat_sequence != connector.heartbeat_sequence
            &&& connector.heartbeat_sequence < u64::MAX ==> after.heartbeat_sequence
                == connector.heartbeat_sequence + 1
            &&& effects =~= seq![
                Effect::Send(Message::Heartbeat { sequence: after.heartbeat_sequence }),
            ]
        }),
        ({
            let (after, effects) = listener.after_heartbeat(expired);
            &&& after.heartbeat_sequence == listener.heartbeat_sequence + 1
            &&& effects.last() == Effect::Send(
                Message::Heartbeat { sequence: after.heartbeat_sequence },
            )
            &&& expired matches Some(transfer_id) ==> effects.len() == 2 && effects[0]
                == Effect::Send(
                Message::ClipboardCancel {
                    transfer_id,
                    reason: crate::protocol::ClipboardCancelReason::TimedOut,
                },
            )
            &&& expired is None ==> effects.len() == 1
        }),
{
}

/// Quitting ends the session, and the settings are opened, whatever else is
/// going on. A peer that says that it failed ends a connector's session with
/// its words.
pub proof fn law_user_is_obeyed(
    connector: ConnectorSession,
    listener: ListenerSession,
    error: crate::protocol::RemoteError,
    roles: Roles,
    accepts_input: bool,
    now: Instant,
)
    ensures
        connector.after_tray(TrayCommand::Quit, roles, now).1.contains(
            Effect::Exit(ControllerSessionExit::QuitRequested),
        ),
        listener.after_tray(TrayCommand::Quit, now).1.contains(
            Effect::Exit(ControllerSessionExit::QuitRequested),
        ),
        connector.after_tray(TrayCommand::OpenSettings, roles, now).1 =~= seq![
            Effect::OpenSettings,
        ],
        listener.after_tray(TrayCommand::OpenSettings, now).1 =~= seq![Effect::OpenSettings],
        connector.after_tray(TrayCommand::OpenSettings, roles, now).0 == connector,
        listener.after_tray(TrayCommand::OpenSettings, now).0 == listener,
        connector.after_tray(TrayCommand::ArmPairing, roles, now) == (
            connector,
            Seq::<Effect>::empty(),
        ),
        listener.after_tray(TrayCommand::ArmPairing, now) == (listener, Seq::<Effect>::empty()),
        connector.after_frame(Frame::Error(error), roles, accepts_input, now).1 =~= seq![
            Effect::Fail(
                SessionFailure::PeerError { code: error.code, message: error.message },
            ),
        ],
{
    broadcast use {lemma_holds_push, lemma_holds_empty};

}

/// The user of a listener asks the connector for a change of controller,
/// wherever one may begin: the very computer chosen is asked for, the tray
/// shows that roles change, and the answer is waited for only so long.
pub proof fn law_listener_choice_is_asked_for(
    session: ListenerSession,
    choice: ControllerChoice,
    now: Instant,
)
    ensures
        ({
            let chosen = match choice {
                ControllerChoice::Local => session.local_fingerprint,
                ControllerChoice::Peer => session.peer_fingerprint,
            };
            let may = !session.session_paused && session.support.role_switch
                && session.support.input_capture && session.support.input_injection
                && session.prepared_role is None && session.role_request_deadline is None && !(
            session.role_state.controller_fingerprint matches Some(controller) && controller@
                == chosen@);
            let (after, effects) = session.after_tray(TrayCommand::SetController(choice), now);
            &&& !may ==> after == session && effects.len() == 0
            &&& may ==> {
                &&& effects =~= seq![
                    Effect::Send(Message::RoleRequest { controller_fingerprint: chosen }),
                    Effect::Tray(TrayUpdate::RoleSwitching(true)),
                ]
                &&& after.role_request_deadline matches Some(deadline) && (now.nanos
                    + 5_000_000_000 <= u64::MAX ==> deadline.nanos == now.nanos + 5_000_000_000)
                &&& after == (ListenerSession {
                    role_request_deadline: after.role_request_deadline,
                    ..session
                })
            }
        }),
{
}

/// A listener that is told to prepare answers: where the session is paused or
/// roles cannot change, that it is not ready; where the change is valid, that
/// it is, or, where it is to control and has no capture yet, it sets one up
/// first, at the edge opposite to where it stands. Input stops on the side that
/// has it. The roles do not change yet.
#[verifier::spinoff_prover]
#[verifier::rlimit(60)]
pub proof fn law_listener_answers_a_prepare(
    session: ListenerSession,
    prepare: RoleState,
    verdict: Verdict,
    now: Instant,
)
    ensures
        ({
            let can = !session.session_paused && session.support.role_switch
                && session.support.input_capture && session.support.input_injection;
            let needs_capture = (prepare.controller_fingerprint matches Some(controller)
                && controller@ == session.local_fingerprint@) && !session.has_capture;
            let (after, effects) = session.after_frame(
                Frame::Role(RoleEvent::Prepare(prepare)),
                verdict,
                now,
            );
            &&& after.role_epoch == session.role_epoch
            &&& after.local_is_controller == session.local_is_controller
            &&& after.role_state == session.role_state
            &&& !can ==> after == session && effects =~= seq![
                Effect::Send(
                    Message::RoleReady {
                        role_epoch: prepare.role_epoch,
                        capture_ready: false,
                        inject_ready: false,
                        failure: Some(Detail::RoleSwitchUnavailable),
                    },
                ),
            ]
            &&& can && !verdict.role_event_valid ==> after == session && effects.len() == 0
            &&& can && verdict.role_event_valid ==> {
                &&& after.prepared_role == Some(prepare)
                &&& if session.local_is_controller {
                    &&& !after.capture_input_active
                    &&& effects.contains(
                        Effect::TrySend(
                            Message::Input {
                                role_epoch: session.role_epoch,
                                event: InputEvent::AllKeysUp,
                            },
                        ),
                    )
                    &&& effects.contains(Effect::TryRelease) <==> session.has_capture
                    &&& effects.contains(Effect::TryDisarm) <==> session.has_capture
                } else {
                    effects.contains(Effect::SuspendInput) && effects.contains(Effect::TryAllKeysUp)
                }
                &&& effects.contains(
                    Effect::Send(
                        Message::RoleReady {
                            role_epoch: prepare.role_epoch,
                            capture_ready: true,
                            inject_ready: true,
                            failure: None,
                        },
                    ),
                ) <==> !needs_capture
                &&& needs_capture ==> effects.last() == (Effect::TryPreflight {
                    edge: match prepare.listener_position {
                        Edge::Left => Edge::Right,
                        Edge::Right => Edge::Left,
                        Edge::Top => Edge::Bottom,
                        Edge::Bottom => Edge::Top,
                    },
                })
                &&& !needs_capture ==> effects.contains(
                    Effect::Tray(TrayUpdate::RoleSwitching(true)),
                ) && (after.role_request_deadline matches Some(deadline) && (now.nanos
                    + 5_000_000_000 <= u64::MAX ==> deadline.nanos == now.nanos + 5_000_000_000))
            }
        }),
{
    broadcast use {lemma_holds_push, lemma_holds_empty};

}

/// A listener that set up a capture for a change of roles says that it is
/// ready, and keeps the capture; one that could not says so, and why.
pub proof fn law_listener_preflight_decides_readiness(
    session: ListenerSession,
    result: Result<(), String>,
    now: Instant,
)
    requires
        session.prepared_role is Some,
    ensures
        ({
            let (after, effects) = session.after_preflight(result, now);
            &&& after.has_capture == (result is Ok || session.has_capture)
            &&& after.prepared_role == session.prepared_role
            &&& after.role_epoch == session.role_epoch
            &&& after.local_is_controller == session.local_is_controller
            &&& after.role_request_deadline matches Some(deadline) && (now.nanos + 5_000_000_000
                <= u64::MAX ==> deadline.nanos == now.nanos + 5_000_000_000)
            &&& effects =~= seq![
                Effect::Tray(TrayUpdate::RoleSwitching(true)),
                Effect::Send(
                    Message::RoleReady {
                        role_epoch: session.prepared_role->Some_0.role_epoch,
                        capture_ready: result is Ok,
                        inject_ready: true,
                        failure: match result {
                            Ok(_) => None,
                            Err(error) => Some(Detail::ListenerPreflightFailed(error)),
                        },
                    },
                ),
            ]
        }),
{
}

/// A commit that a listener cannot follow changes nothing: one that was not
/// prepared and one that names no controller end the session, and one that is
/// not valid is passed over.
pub proof fn law_listener_refuses_other_commits(
    session: ListenerSession,
    commit: RoleState,
    verdict: Verdict,
    now: Instant,
)
    ensures
        ({
            let (after, effects) = session.after_frame(
                Frame::Role(RoleEvent::Commit(commit)),
                verdict,
                now,
            );
            &&& session.prepared_role is None ==> after == session && effects =~= seq![
                Effect::Fail(SessionFailure::CommitWithoutPrepare),
            ]
            &&& session.prepared_role is Some && !verdict.role_event_valid ==> after == session
                && effects.len() == 0
            &&& session.prepared_role is Some && verdict.role_event_valid
                && commit.controller_fingerprint is None ==> after == session && effects =~= seq![
                Effect::Fail(SessionFailure::CommitWithoutController),
            ]
        }),
{
}

/// A change of roles that is given up leaves a listener's roles as they are:
/// nothing is prepared any more, the tray shows the roles and why, and the side
/// that controls goes on. Only an abort that names the roles as they are counts.
pub proof fn law_listener_goes_on_after_an_abort(
    session: ListenerSession,
    abort: RoleState,
    verdict: Verdict,
    now: Instant,
)
    ensures
        ({
            let same_controller = match (
                abort.controller_fingerprint,
                session.role_state.controller_fingerprint,
            ) {
                (Some(a), Some(b)) => a@ == b@,
                (None, None) => true,
                _ => false,
            };
            let counts = session.prepared_role is Some && abort.role_epoch
                == session.role_state.role_epoch && same_controller;
            let (after, effects) = session.after_frame(
                Frame::Role(RoleEvent::Abort(abort)),
                verdict,
                now,
            );
            &&& !counts ==> after == session && effects.len() == 0
            &&& counts ==> {
                &&& after == (ListenerSession {
                    prepared_role: None,
                    role_request_deadline: None,
                    ..session
                })
                &&& effects.contains(Effect::Arm) <==> session.local_is_controller
                    && session.input_forwarding_enabled && !session.session_paused
                    && session.has_capture
                &&& effects.contains(
                    Effect::Tray(
                        TrayUpdate::RoleAssignment {
                            local_is_controller: session.local_is_controller,
                            switch_available: session.support.role_switch
                                && session.support.input_capture && session.support.input_injection
                                && !session.session_paused,
                        },
                    ),
                )
                &&& abort.failure_detail matches Some(words) ==> effects.contains(
                    Effect::Tray(TrayUpdate::RoleFailure(Detail::Other(words))),
                )
            }
        }),
{
    broadcast use {lemma_holds_push, lemma_holds_empty};

}

/// A listener takes over the roles that the connector says a session has: it
/// controls exactly where its own fingerprint is named, in the epoch and the
/// pause that were named. A side that controls has a capture, set up at the
/// edge opposite to where it stands where it had none, and arms it where it
/// forwards; any other side gives its capture back. The selection is saved.
#[verifier::spinoff_prover]
#[verifier::rlimit(60)]
pub proof fn law_listener_takes_over_the_roles(
    session: ListenerSession,
    state: RoleState,
    verdict: Verdict,
    now: Instant,
)
    requires
        state.controller_fingerprint matches Some(controller) ==> controller@
            == session.peer_fingerprint@ || controller@ == session.local_fingerprint@,
        state.role_epoch != 0,
        state.transition == RoleTransitionState::Stable,
    ensures
        ({
            let controls = state.controller_fingerprint matches Some(controller) && controller@
                == session.local_fingerprint@;
            let (after, effects) = session.after_frame(
                Frame::Role(RoleEvent::SessionState(state)),
                verdict,
                now,
            );
            &&& after.local_is_controller == controls
            &&& after.role_epoch == state.role_epoch
            &&& after.session_paused == state.paused
            &&& after.role_state == state
            &&& after.has_capture == (controls || session.has_capture)
            &&& after.prepared_role is None
            &&& after.role_request_deadline is None
            &&& !after.capture_input_active
            &&& after.input_forwarding_enabled == session.input_forwarding_enabled
            &&& effects.contains(Effect::Arm) <==> controls && session.input_forwarding_enabled
                && !state.paused
            &&& effects.contains(
                Effect::Preflight {
                    edge: match state.listener_position {
                        Edge::Left => Edge::Right,
                        Edge::Right => Edge::Left,
                        Edge::Top => Edge::Bottom,
                        Edge::Bottom => Edge::Top,
                    },
                },
            ) <==> controls && !session.has_capture
            &&& effects.contains(Effect::TryRelease) <==> !controls && session.has_capture
            &&& effects.contains(Effect::TryDisarm) <==> !controls && session.has_capture
            &&& controls || state.paused || state.controller_fingerprint is None
                ==> effects.contains(Effect::TryAllKeysUp)
            &&& effects.contains(Effect::SuspendInput) <==> state.paused
                || state.controller_fingerprint is None
            &&& state.controller_fingerprint matches Some(controller_fingerprint)
                ==> effects.contains(Effect::SaveRole { controller_fingerprint })
            &&& effects.contains(
                Effect::Tray(TrayUpdate::InputForwarding(session.input_forwarding_enabled)),
            )
            &&& effects.contains(Effect::Tray(TrayUpdate::SessionPaused(state.paused)))
            &&& effects.contains(
                Effect::Tray(
                    TrayUpdate::RoleAssignment {
                        local_is_controller: controls,
                        switch_available: session.support.role_switch
                            && session.support.input_capture && session.support.input_injection
                            && !state.paused,
                    },
                ),
            )
        }),
{
    broadcast use {lemma_holds_push, lemma_holds_empty};

}

/// Roles that name a third computer, no epoch or a change under way end a
/// listener's session, and nothing of them is taken over.
pub proof fn law_listener_refuses_strange_roles(
    session: ListenerSession,
    state: RoleState,
    verdict: Verdict,
    now: Instant,
)
    ensures
        ({
            let foreign = state.controller_fingerprint matches Some(controller) && controller@
                != session.peer_fingerprint@ && controller@ != session.local_fingerprint@;
            let odd = state.role_epoch == 0 || state.transition != RoleTransitionState::Stable;
            let (after, effects) = session.after_frame(
                Frame::Role(RoleEvent::SessionState(state)),
                verdict,
                now,
            );
            &&& foreign || odd ==> after == session
            &&& foreign ==> effects =~= seq![Effect::Fail(SessionFailure::ForeignController)]
            &&& !foreign && odd ==> effects =~= seq![Effect::Fail(SessionFailure::InvalidRoleEpoch)]
        }),
{
}

/// The peer can do all that a computer with Linux can, as this one can: audio
/// between two of them is not offered.
pub open spec fn both_are_linux(support: PeerSupport) -> bool {
    &&& support.role_switch
    &&& support.input_capture
    &&& support.input_injection
    &&& support.audio_capture
    &&& support.audio_playback
}

/// The user of a connector chooses where the audio comes from: nowhere, here
/// where the peer can play and routes it, or there where the peer can capture.
/// The choice is saved, told the peer, and shown; what ran before stops, and
/// a computer that the audio comes from offers it. A choice that cannot be met
/// changes nothing.
#[verifier::spinoff_prover]
#[verifier::rlimit(60)]
pub proof fn law_connector_audio_choice_is_met(
    session: ConnectorSession,
    choice: AudioChoice,
    roles: Roles,
    now: Instant,
)
    requires
        session.local_fingerprint@ != session.peer_fingerprint@,
    ensures
        ({
            let may = match choice {
                AudioChoice::Off => true,
                AudioChoice::Local => session.support.audio_playback && session.support.audio_route,
                AudioChoice::Peer => session.support.audio_capture,
            };
            let source = match choice {
                AudioChoice::Off => None,
                AudioChoice::Local => Some(session.local_fingerprint),
                AudioChoice::Peer => Some(session.peer_fingerprint),
            };
            let (after, effects) = session.after_tray(TrayCommand::SetAudio(choice), roles, now);
            &&& !may ==> after == session && effects.len() == 0
            &&& may ==> {
                &&& after.audio_source == source
                &&& after == (ConnectorSession {
                    audio_source: source,
                    audio: after.audio,
                    ..session
                })
                &&& !after.audio.starting && !after.audio.sender && !after.audio.receiver
                &&& after.audio.generation != session.audio.generation
                &&& effects.contains(Effect::AbortAudioStart) <==> session.audio.starting
                &&& effects.contains(Effect::StopAudioSender) <==> session.audio.sender
                &&& effects.contains(Effect::DropAudioReceiver) <==> session.audio.receiver
                &&& effects.contains(Effect::SaveAudioRoute { source_fingerprint: source })
                &&& session.support.audio_route ==> effects.contains(
                    Effect::Send(Message::AudioSetRoute { source_fingerprint: source }),
                )
                &&& !session.support.audio_route ==> effects.contains(
                    Effect::Send(Message::AudioSetEnabled { enabled: choice == AudioChoice::Peer }),
                )
                &&& effects.contains(Effect::Send(Message::AudioOffer)) <==> choice
                    == AudioChoice::Local && !session.session_paused
                &&& effects.last() == Effect::Tray(
                    TrayUpdate::AudioRoute {
                        choice,
                        local_available: session.support.audio_playback
                            && session.support.audio_route && !both_are_linux(session.support),
                        peer_available: session.support.audio_capture && !both_are_linux(
                            session.support,
                        ),
                    },
                )
            }
        }),
{
    broadcast use {lemma_holds_push, lemma_holds_empty};

}

/// What a listener asks of the audio is met by the connector where its own user
/// could have chosen it, and to the same end. What cannot be met is answered
/// with the route as it is.
pub proof fn law_connector_meets_audio_requests(
    session: ConnectorSession,
    choice: AudioChoice,
    roles: Roles,
    accepts_input: bool,
    now: Instant,
)
    requires
        session.local_fingerprint@ != session.peer_fingerprint@,
    ensures
        ({
            let may = match choice {
                AudioChoice::Off => true,
                AudioChoice::Local => session.support.audio_playback && session.support.audio_route,
                AudioChoice::Peer => session.support.audio_capture,
            };
            let source_fingerprint = match choice {
                AudioChoice::Off => None,
                AudioChoice::Local => Some(session.local_fingerprint),
                AudioChoice::Peer => Some(session.peer_fingerprint),
            };
            let asked = session.after_frame(
                Frame::Audio(AudioControl::RequestRoute { source_fingerprint }),
                roles,
                accepts_input,
                now,
            );
            &&& may ==> asked == session.after_tray(TrayCommand::SetAudio(choice), roles, now)
            &&& !may ==> asked.0 == session
            &&& !may && session.support.audio_route ==> asked.1 =~= seq![
                Effect::Send(Message::AudioSetRoute { source_fingerprint: session.audio_source }),
            ]
            &&& !may && !session.support.audio_route ==> asked.1 =~= seq![
                Effect::Send(
                    Message::AudioSetEnabled {
                        enabled: session.audio_source matches Some(source) && source@
                            == session.peer_fingerprint@,
                    },
                ),
            ]
        }),
{
    broadcast use {lemma_holds_push, lemma_holds_empty};

}

/// A peer that only turns audio on or off has it come from the peer, or not at
/// all; it is saved and told.
pub proof fn law_connector_audio_is_turned_by_the_peer(
    session: ConnectorSession,
    enabled: bool,
    roles: Roles,
    accepts_input: bool,
    now: Instant,
)
    ensures
        ({
            let (after, effects) = session.after_frame(
                Frame::Audio(AudioControl::SetEnabled { enabled }),
                roles,
                accepts_input,
                now,
            );
            &&& enabled ==> after.audio_source == Some(session.peer_fingerprint)
            &&& !enabled ==> after.audio_source is None
            &&& !after.audio.starting && !after.audio.sender && !after.audio.receiver
            &&& effects.contains(Effect::AbortAudioStart) <==> session.audio.starting
            &&& effects.contains(Effect::StopAudioSender) <==> session.audio.sender
            &&& effects.contains(Effect::DropAudioReceiver) <==> session.audio.receiver
            &&& effects.contains(Effect::SaveAudioRoute { source_fingerprint: after.audio_source })
            &&& session.support.audio_route ==> effects.contains(
                Effect::Send(Message::AudioSetRoute { source_fingerprint: after.audio_source }),
            )
            &&& !session.support.audio_route ==> effects.contains(
                Effect::Send(Message::AudioSetEnabled { enabled }),
            )
        }),
{
    broadcast use {lemma_holds_push, lemma_holds_empty};

}

/// The user of a listener asks the connector for the audio that they choose,
/// where it can be met: by naming the computer, or, where the connector knows
/// no routes, by turning the listener's audio on or off. Nothing changes here
/// until the connector answers.
pub proof fn law_listener_audio_choice_is_asked_for(
    session: ListenerSession,
    choice: AudioChoice,
    now: Instant,
)
    requires
        session.local_fingerprint@ != session.peer_fingerprint@,
    ensures
        ({
            let may = match choice {
                AudioChoice::Off => true,
                AudioChoice::Local => session.support.audio_playback,
                AudioChoice::Peer => session.support.audio_capture && session.support.audio_route,
            };
            let source_fingerprint = match choice {
                AudioChoice::Off => None,
                AudioChoice::Local => Some(session.local_fingerprint),
                AudioChoice::Peer => Some(session.peer_fingerprint),
            };
            let (after, effects) = session.after_tray(TrayCommand::SetAudio(choice), now);
            &&& after == session
            &&& !may ==> effects.len() == 0
            &&& may && session.support.audio_route ==> effects =~= seq![
                Effect::Send(Message::AudioRequestRoute { source_fingerprint }),
            ]
            &&& may && !session.support.audio_route ==> effects =~= seq![
                Effect::Send(Message::AudioSetEnabled { enabled: choice == AudioChoice::Local }),
            ]
        }),
{
}

/// A listener takes over the route that the connector names, where the peer
/// can do its part: what ran before stops, the tray shows it, and a listener
/// that the audio comes from offers it. Any other route ends the session.
#[verifier::spinoff_prover]
#[verifier::rlimit(60)]
pub proof fn law_listener_takes_over_the_route(
    session: ListenerSession,
    source_fingerprint: Option<String>,
    verdict: Verdict,
    now: Instant,
)
    requires
        session.local_fingerprint@ != session.peer_fingerprint@,
    ensures
        ({
            let from_here = source_fingerprint matches Some(source) && source@
                == session.local_fingerprint@;
            let from_there = source_fingerprint matches Some(source) && source@
                == session.peer_fingerprint@;
            let may = source_fingerprint is None || from_here && session.support.audio_playback
                || from_there && session.support.audio_capture && session.support.audio_route;
            let (after, effects) = session.after_frame(
                Frame::Audio(AudioControl::SetRoute { source_fingerprint }),
                verdict,
                now,
            );
            &&& !may ==> after == session && effects =~= seq![
                Effect::Fail(SessionFailure::UnsupportedAudioRoute),
            ]
            &&& may ==> {
                &&& after.audio_source == source_fingerprint
                &&& !after.audio.starting && !after.audio.sender && !after.audio.receiver
                &&& after.audio.generation != session.audio.generation
                &&& effects.contains(Effect::AbortAudioStart) <==> session.audio.starting
                &&& effects.contains(Effect::StopAudioSender) <==> session.audio.sender
                &&& effects.contains(Effect::DropAudioReceiver) <==> session.audio.receiver
                &&& effects.contains(Effect::Send(Message::AudioOffer)) <==> from_here
                    && !session.session_paused
                &&& effects.contains(
                    Effect::Send(
                        Message::AudioState {
                            state: AudioStreamState::Disabled,
                            detail: None,
                        },
                    ),
                ) <==> source_fingerprint is None
                &&& effects.contains(
                    Effect::Tray(
                        TrayUpdate::AudioRoute {
                            choice: if from_here {
                                AudioChoice::Local
                            } else if from_there {
                                AudioChoice::Peer
                            } else {
                                AudioChoice::Off
                            },
                            local_available: session.support.audio_playback && !both_are_linux(
                                session.support,
                            ),
                            peer_available: session.support.audio_capture
                                && session.support.audio_route && !both_are_linux(session.support),
                        },
                    ),
                )
            }
        }),
{
    broadcast use {lemma_holds_push, lemma_holds_empty};

}

/// A listener whose audio is turned on is the computer that it comes from, and
/// offers it unless the session is paused; turned off, it says so.
pub proof fn law_listener_audio_is_turned(
    session: ListenerSession,
    enabled: bool,
    verdict: Verdict,
    now: Instant,
)
    ensures
        ({
            let (after, effects) = session.after_frame(
                Frame::Audio(AudioControl::SetEnabled { enabled }),
                verdict,
                now,
            );
            &&& enabled ==> after.audio_source == Some(session.local_fingerprint)
            &&& !enabled ==> after.audio_source is None
            &&& !after.audio.starting && !after.audio.sender && !after.audio.receiver
            &&& effects.contains(Effect::AbortAudioStart) <==> session.audio.starting
            &&& effects.contains(Effect::StopAudioSender) <==> session.audio.sender
            &&& effects.contains(Effect::DropAudioReceiver) <==> session.audio.receiver
            &&& effects.contains(Effect::Send(Message::AudioOffer)) <==> enabled
                && !session.session_paused
            &&& effects.contains(
                Effect::Send(
                    Message::AudioState { state: AudioStreamState::Disabled, detail: None },
                ),
            ) <==> !enabled || session.session_paused
            &&& effects.contains(
                Effect::Tray(
                    TrayUpdate::AudioRoute {
                        choice: if enabled {
                            AudioChoice::Local
                        } else {
                            AudioChoice::Off
                        },
                        local_available: session.support.audio_playback && !both_are_linux(
                            session.support,
                        ),
                        peer_available: false,
                    },
                ),
            )
        }),
{
    broadcast use {lemma_holds_push, lemma_holds_empty};

}

/// An offer of audio is answered, on the port that it names, exactly where the
/// audio is to come from the peer and it offers what can be played here.
pub proof fn law_audio_offer_is_answered(
    connector: ConnectorSession,
    listener: ListenerSession,
    udp_port: u16,
    codecs: Vec<AudioCodec>,
    roles: Roles,
    verdict: Verdict,
    accepts_input: bool,
    now: Instant,
)
    ensures
        ({
            let frame = Frame::Audio(AudioControl::Offer { udp_port, codecs });
            let (here, one) = connector.after_frame(frame, roles, accepts_input, now);
            let (there, other) = listener.after_frame(frame, verdict, now);
            let playable = exists|i: int|
                0 <= i < codecs@.len() && codecs@[i] == AudioCodec::PcmS16Stereo48Khz;
            let expected_here = connector.audio_source matches Some(source) && source@
                == connector.peer_fingerprint@;
            let expected_there = listener.audio_source matches Some(source) && source@
                == listener.peer_fingerprint@;
            &&& here == connector
            &&& there == listener
            &&& expected_here && playable ==> one =~= seq![Effect::AnswerAudioOffer { udp_port }]
            &&& !(expected_here && playable) ==> one.len() == 0
            &&& expected_there && playable ==> other =~= seq![
                Effect::AnswerAudioOffer { udp_port },
            ]
            &&& !(expected_there && playable) ==> other.len() == 0
        }),
{
    let wanted = AudioCodec::PcmS16Stereo48Khz;
    assert(codecs@.contains(wanted) <==> exists|i: int|
        0 <= i < codecs@.len() && codecs@[i] == wanted);
}

/// A peer that answers an offer of audio has it sent: with the port and the
/// secrets that it named, from the computer that the audio is to come from,
/// where the format is known. What was being sent or started is given up.
#[verifier::spinoff_prover]
#[verifier::rlimit(60)]
pub proof fn law_audio_start_is_carried_out(
    connector: ConnectorSession,
    listener: ListenerSession,
    udp_port: u16,
    session_id: [u8; 16],
    session_salt: [u8; 4],
    session_key: [u8; 32],
    jitter_target_ms: u16,
    roles: Roles,
    verdict: Verdict,
    accepts_input: bool,
    now: Instant,
)
    requires
        udp_port != 0,
    ensures
        ({
            let frame = Frame::Audio(
                AudioControl::Start {
                    udp_port,
                    session_id,
                    session_salt,
                    session_key,
                    codec: AudioCodec::PcmS16Stereo48Khz,
                    frame_ms: 5,
                    jitter_target_ms,
                },
            );
            let (here, one) = connector.after_frame(frame, roles, accepts_input, now);
            let (there, other) = listener.after_frame(frame, verdict, now);
            let from_here = connector.audio_source matches Some(source) && source@
                == connector.local_fingerprint@;
            let from_there = listener.audio_source matches Some(source) && source@
                == listener.local_fingerprint@;
            &&& !from_here ==> here == connector && one.len() == 0
            &&& from_here ==> {
                &&& here.audio.starting
                &&& !here.audio.sender
                &&& here.audio.receiver == connector.audio.receiver
                &&& here.audio.generation != connector.audio.generation
                &&& one.contains(Effect::StopAudioSender) <==> connector.audio.sender
                &&& one.contains(Effect::AbortAudioStart) <==> connector.audio.starting
                &&& one.last() == (Effect::StartAudioSender {
                    generation: here.audio.generation,
                    udp_port,
                    session_id,
                    session_salt,
                    session_key,
                })
            }
            &&& !from_there ==> there == listener && other.len() == 0
            &&& from_there ==> {
                &&& there.audio.starting
                &&& !there.audio.sender
                &&& there.audio.receiver == listener.audio.receiver
                &&& there.audio.generation != listener.audio.generation
                &&& other.contains(Effect::StopAudioSender) <==> listener.audio.sender
                &&& other.contains(Effect::AbortAudioStart) <==> listener.audio.starting
                &&& other.contains(
                    Effect::Send(
                        Message::AudioState {
                            state: AudioStreamState::WaitingForUdp,
                            detail: None,
                        },
                    ),
                )
                &&& other.last() == (Effect::StartAudioSender {
                    generation: there.audio.generation,
                    udp_port,
                    session_id,
                    session_salt,
                    session_key,
                })
            }
        }),
{
    broadcast use {lemma_holds_push, lemma_holds_empty};

}

/// Audio in another format is not sent. A listener says so, where it is the
/// computer that the audio comes from.
pub proof fn law_other_audio_is_refused(
    connector: ConnectorSession,
    listener: ListenerSession,
    udp_port: u16,
    session_id: [u8; 16],
    session_salt: [u8; 4],
    session_key: [u8; 32],
    codec: AudioCodec,
    frame_ms: u16,
    jitter_target_ms: u16,
    roles: Roles,
    verdict: Verdict,
    accepts_input: bool,
    now: Instant,
)
    requires
        udp_port == 0 || codec != AudioCodec::PcmS16Stereo48Khz || frame_ms != 5,
    ensures
        ({
            let frame = Frame::Audio(
                AudioControl::Start {
                    udp_port,
                    session_id,
                    session_salt,
                    session_key,
                    codec,
                    frame_ms,
                    jitter_target_ms,
                },
            );
            let from_there = listener.audio_source matches Some(source) && source@
                == listener.local_fingerprint@;
            let (there, other) = listener.after_frame(frame, verdict, now);
            &&& connector.after_frame(frame, roles, accepts_input, now) == (
                connector,
                Seq::<Effect>::empty(),
            )
            &&& there == listener
            &&& from_there ==> other =~= seq![
                Effect::Send(
                    Message::AudioState {
                        state: AudioStreamState::Error,
                        detail: Some(Detail::UnsupportedAudioFormat),
                    },
                ),
            ]
            &&& !from_there ==> other.len() == 0
        }),
{
}

/// A peer that stops the audio has all of it stopped here.
pub proof fn law_audio_stop_stops_everything(
    connector: ConnectorSession,
    listener: ListenerSession,
    reason: AudioStopReason,
    roles: Roles,
    verdict: Verdict,
    accepts_input: bool,
    now: Instant,
)
    ensures
        ({
            let frame = Frame::Audio(AudioControl::Stop { reason });
            let (here, one) = connector.after_frame(frame, roles, accepts_input, now);
            let (there, other) = listener.after_frame(frame, verdict, now);
            &&& !here.audio.starting && !here.audio.sender && !here.audio.receiver
            &&& here.audio_source == connector.audio_source
            &&& here.audio.generation != connector.audio.generation
            &&& one.contains(Effect::AbortAudioStart) <==> connector.audio.starting
            &&& one.contains(Effect::StopAudioSender) <==> connector.audio.sender
            &&& one.contains(Effect::DropAudioReceiver) <==> connector.audio.receiver
            &&& !there.audio.starting && !there.audio.sender && !there.audio.receiver
            &&& there.audio_source == listener.audio_source
            &&& there.audio.generation != listener.audio.generation
            &&& other.contains(Effect::AbortAudioStart) <==> listener.audio.starting
            &&& other.contains(Effect::StopAudioSender) <==> listener.audio.sender
            &&& other.contains(Effect::DropAudioReceiver) <==> listener.audio.receiver
            &&& other.contains(
                Effect::Send(
                    Message::AudioState { state: AudioStreamState::Disabled, detail: None },
                ),
            )
        }),
{
    broadcast use {lemma_holds_push, lemma_holds_empty};

}

/// A sender that was started, and is still wanted, counts and is reported; one
/// that could not be is reported with the reason. The same holds of what an
/// answered offer brings.
pub proof fn law_started_audio_is_reported(
    connector: ConnectorSession,
    listener: ListenerSession,
    error: String,
)
    ensures
        ({
            let streams = seq![
                Effect::Send(
                    Message::AudioState { state: AudioStreamState::Streaming, detail: None },
                ),
            ];
            let fails = seq![
                Effect::Send(
                    Message::AudioState {
                        state: AudioStreamState::Error,
                        detail: Some(Detail::Other(error)),
                    },
                ),
            ];
            let one = connector.audio.generation;
            let other = listener.audio.generation;
            &&& connector.after_audio_started(one, Ok(())).0.audio.sender
            &&& !connector.after_audio_started(one, Ok(())).0.audio.starting
            &&& connector.after_audio_started(one, Ok(())).1 =~= streams
            &&& connector.after_audio_started(one, Err(error)).0.audio == (AudioTransport {
                starting: false,
                ..connector.audio
            })
            &&& connector.after_audio_started(one, Err(error)).1 =~= fails
            &&& connector.after_offer_answered(Ok(())).0.audio.receiver
            &&& connector.after_offer_answered(Ok(())).1 =~= streams
            &&& connector.after_offer_answered(Err(error)).0 == connector
            &&& connector.after_offer_answered(Err(error)).1 =~= fails
            &&& listener.after_audio_started(other, Ok(())).0.audio.sender
            &&& !listener.after_audio_started(other, Ok(())).0.audio.starting
            &&& listener.after_audio_started(other, Ok(())).1 =~= streams
            &&& listener.after_audio_started(other, Err(error)).0.audio == (AudioTransport {
                starting: false,
                ..listener.audio
            })
            &&& listener.after_audio_started(other, Err(error)).1 =~= fails
            &&& listener.after_offer_answered(Ok(())).0.audio.receiver
            &&& listener.after_offer_answered(Ok(())).1 =~= streams
            &&& listener.after_offer_answered(Err(error)).0 == listener
            &&& listener.after_offer_answered(Err(error)).1 =~= fails
        }),
{
}

/// Audio that ended by itself is taken down and reported: a sender that
/// finished, and a receiver that failed, with its reason.
pub proof fn law_ended_audio_is_reported(
    connector: ConnectorSession,
    listener: ListenerSession,
    sender_finished: bool,
    failure: Option<String>,
)
    ensures
        ({
            let stopped = Effect::TrySend(
                Message::AudioState {
                    state: AudioStreamState::Error,
                    detail: Some(Detail::AudioCaptureStopped),
                },
            );
            let (here, one) = connector.after_audio_check(sender_finished, failure);
            let (there, other) = listener.after_status(sender_finished, failure);
            &&& here.audio.sender == (connector.audio.sender && !sender_finished)
            &&& here.audio.receiver == (connector.audio.receiver && failure is None)
            &&& one.contains(Effect::StopAudioSender) <==> connector.audio.sender && sender_finished
            &&& one.contains(stopped) <==> connector.audio.sender && sender_finished
            &&& failure matches Some(words) ==> (one.contains(
                Effect::TrySend(
                    Message::AudioState {
                        state: AudioStreamState::Error,
                        detail: Some(Detail::Other(words)),
                    },
                ),
            ) <==> connector.audio.receiver)
            &&& there.audio.sender == (listener.audio.sender && !sender_finished)
            &&& there.audio.receiver == (listener.audio.receiver && failure is None)
            &&& other.contains(Effect::LogStatus)
            &&& other.contains(Effect::StopAudioSender) <==> listener.audio.sender
                && sender_finished
            &&& other.contains(stopped) <==> listener.audio.sender && sender_finished
            &&& failure matches Some(words) ==> (other.contains(
                Effect::TrySend(
                    Message::AudioState {
                        state: AudioStreamState::Error,
                        detail: Some(Detail::Other(words)),
                    },
                ),
            ) <==> listener.audio.receiver)
        }),
{
    broadcast use {lemma_holds_push, lemma_holds_empty};

}

/// A connector begins as the roles say: it controls exactly where it is named,
/// forwards exactly where somebody controls, and is paused as they say. It sets
/// its capture up at the edge where the peer stands and arms it, where it
/// controls a peer that takes input and the session is not paused. It names the
/// route of the audio, offers audio where it comes from here, saves a route
/// that is new, and shows all of it.
#[verifier::spinoff_prover]
#[verifier::rlimit(60)]
pub proof fn law_connector_begins_as_the_roles_say(
    support: PeerSupport,
    local_fingerprint: String,
    peer_fingerprint: String,
    roles: RoleState,
    audio_source: Option<String>,
    route_is_stored: bool,
)
    ensures
        ({
            let session = ConnectorSession::initial(
                support,
                local_fingerprint,
                peer_fingerprint,
                roles,
                audio_source,
            );
            let controls = roles.controller_fingerprint matches Some(controller) && controller@
                == local_fingerprint@;
            let effects = session.beginning(route_is_stored);
            &&& session.local_is_controller == controls
            &&& session.has_capture == (controls && support.input_injection)
            &&& session.role_epoch == roles.role_epoch
            &&& session.session_paused == roles.paused
            &&& session.input_forwarding_enabled == (roles.controller_fingerprint is Some)
            &&& session.audio_source == audio_source
            &&& session.edge == roles.listener_position
            &&& !session.input_active
            &&& session.pending_readiness is None
            &&& session.transition_deadline is None
            &&& !session.audio.starting && !session.audio.sender && !session.audio.receiver
            &&& effects.contains(Effect::Preflight { edge: roles.listener_position })
                <==> controls && support.input_injection
            &&& effects.contains(Effect::Arm) <==> controls && support.input_injection
                && !roles.paused
            &&& effects.contains(Effect::SaveAudioRoute { source_fingerprint: audio_source })
                <==> !route_is_stored
            &&& support.audio_route ==> effects.contains(
                Effect::Send(Message::AudioSetRoute { source_fingerprint: audio_source }),
            )
            &&& !support.audio_route ==> effects.contains(
                Effect::Send(
                    Message::AudioSetEnabled {
                        enabled: audio_source matches Some(source) && source@ == peer_fingerprint@,
                    },
                ),
            )
            &&& effects.contains(Effect::Send(Message::AudioOffer)) <==> (
            audio_source matches Some(source) && source@ == local_fingerprint@) && !roles.paused
            &&& effects.contains(
                Effect::Tray(TrayUpdate::InputForwarding(roles.controller_fingerprint is Some)),
            )
            &&& effects.contains(
                Effect::Tray(
                    TrayUpdate::AudioRoute {
                        choice: if audio_source matches Some(source) && source@
                            == local_fingerprint@ {
                            AudioChoice::Local
                        } else if audio_source matches Some(source) && source@
                            == peer_fingerprint@ {
                            AudioChoice::Peer
                        } else {
                            AudioChoice::Off
                        },
                        local_available: support.audio_playback && support.audio_route
                            && !both_are_linux(support),
                        peer_available: support.audio_capture && !both_are_linux(support),
                    },
                ),
            )
            &&& effects.contains(Effect::Tray(TrayUpdate::SessionPaused(roles.paused)))
            &&& effects.contains(
                Effect::Tray(
                    TrayUpdate::RoleAssignment {
                        local_is_controller: controls,
                        switch_available: support.role_switch && support.input_capture
                            && support.input_injection && !roles.paused,
                    },
                ),
            )
        }),
{
    broadcast use {lemma_holds_push, lemma_holds_empty};

}

/// A session of a connector never ends with anything left running or held: the
/// peer is asked to let go of its keys, the capture is given back, the audio is
/// stopped, and the keys here are let go.
pub proof fn law_connector_ends_clean(session: ConnectorSession)
    ensures
        ({
            let effects = session.ending();
            &&& effects.contains(
                Effect::TrySend(
                    Message::Input { role_epoch: session.role_epoch, event: InputEvent::AllKeysUp },
                ),
            )
            &&& effects.contains(Effect::TryRelease) <==> session.has_capture
            &&& effects.contains(Effect::TryDisarm) <==> session.has_capture
            &&& effects.contains(Effect::AbortAudioStart) <==> session.audio.starting
            &&& effects.contains(Effect::StopAudioSender) <==> session.audio.sender
            &&& effects.contains(Effect::DropAudioReceiver) <==> session.audio.receiver
            &&& effects.contains(Effect::TryAllKeysUp)
        }),
{
    broadcast use {lemma_holds_push, lemma_holds_empty};

}

/// Where the audio comes from when a session begins: what was saved before
/// comes first, the preference next, and else the peer where audio is on. A
/// source whose part the peer cannot do is dropped, and only such a one.
pub proof fn law_first_audio_source(
    stored: Option<Option<String>>,
    preference: Option<AudioRoutePreference>,
    enabled: bool,
    support: PeerSupport,
    local: String,
    peer: String,
)
    requires
        local@ != peer@,
    ensures
        ({
            let source = first_source(stored, preference, enabled, support, local, peer);
            let here = Some(local);
            let there = Some(peer);
            let plays = support.audio_playback && support.audio_route;
            &&& stored == Some(None::<String>) ==> source is None
            &&& stored == Some(here) ==> source == if plays {
                here
            } else {
                None
            }
            &&& stored == Some(there) ==> source == if support.audio_capture {
                there
            } else {
                None
            }
            &&& stored is None && preference == Some(AudioRoutePreference::Disabled)
                ==> source is None
            &&& stored is None && preference == Some(AudioRoutePreference::LocalToPeer) ==> source
                == if plays {
                here
            } else {
                None
            }
            &&& stored is None && preference == Some(AudioRoutePreference::PeerToLocal) ==> source
                == if support.audio_capture {
                there
            } else {
                None
            }
            &&& stored is None && preference is None ==> source == if enabled
                && support.audio_capture {
                there
            } else {
                None
            }
        }),
{
}

/// A listener begins as the controlled one: the peer controls in the first
/// epoch, input is forwarded, nothing is paused or prepared, and no audio runs.
/// What it shows is that.
pub proof fn law_listener_begins_controlled(
    support: PeerSupport,
    local_fingerprint: String,
    peer_fingerprint: String,
    position: Edge,
)
    ensures
        ({
            let session = ListenerSession::initial(
                support,
                local_fingerprint,
                peer_fingerprint,
                position,
            );
            let effects = session.beginning();
            &&& !session.local_is_controller
            &&& session.input_forwarding_enabled
            &&& !session.session_paused
            &&& session.role_epoch == 1
            &&& session.role_state.controller_fingerprint == Some(peer_fingerprint)
            &&& session.role_state.role_epoch == 1
            &&& session.role_state.listener_position == position
            &&& !session.has_capture
            &&& session.prepared_role is None
            &&& session.role_request_deadline is None
            &&& session.audio_source is None
            &&& !session.audio.starting && !session.audio.sender && !session.audio.receiver
            &&& effects.contains(Effect::Tray(TrayUpdate::InputForwarding(true)))
            &&& effects.last() == Effect::Tray(
                TrayUpdate::AudioRoute {
                    choice: AudioChoice::Off,
                    local_available: support.audio_playback && !both_are_linux(support),
                    peer_available: support.audio_capture && support.audio_route
                        && !both_are_linux(support),
                },
            )
        }),
{
    broadcast use {lemma_holds_push, lemma_holds_empty};

}

/// Input counts as active on a listener where it goes: to the peer while it is
/// captured here, or here while it is taken from the peer.
pub proof fn law_listener_input_is_active_where_it_goes(
    session: ListenerSession,
    accepts_input: bool,
)
    ensures
        session.local_is_controller ==> session.is_input_active(accepts_input)
            == session.capture_input_active,
        !session.local_is_controller ==> session.is_input_active(accepts_input) == accepts_input,
{
}

/// A clipboard that went over is counted and shown; one that did not changes
/// nothing.
pub proof fn law_listener_counts_clipboards(session: ListenerSession)
    requires
        session.stats.clipboard < u64::MAX,
    ensures
        session.after_clipboard_synced(true).0.stats.clipboard == session.stats.clipboard + 1,
        session.after_clipboard_synced(true).1 =~= seq![Effect::Tray(TrayUpdate::ClipboardEvent)],
        session.after_clipboard_synced(false).0 == session,
        session.after_clipboard_synced(false).1.len() == 0,
{
}

/// A peer that cannot be told of forwarding is sent back when its pointer comes
/// in with forwarding off; any other is not.
pub proof fn law_older_peer_is_sent_back(
    session: ListenerSession,
    edge: Edge,
    normalized_position: F32Bits,
    verdict: Verdict,
    now: Instant,
)
    requires
        !session.local_is_controller,
    ensures
        session.after_frame(
            Frame::Control(
                ControlFrame {
                    role_epoch: session.role_epoch,
                    event: ControlEvent::EnterRemote { edge, normalized_position },
                },
            ),
            verdict,
            now,
        ).1.contains(
            Effect::Send(
                Message::Control {
                    role_epoch: session.role_epoch,
                    event: ControlEvent::ReleaseToLocal { reason: ReleaseReason::BackendFailure },
                },
            ),
        ) <==> !session.input_forwarding_enabled && !session.support.input_toggle,
{
    broadcast use {lemma_holds_push, lemma_holds_empty};

}

} // verus!
