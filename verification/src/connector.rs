//! The session of the computer that opened the connection.
//!
//! The connector decides who controls whom. A coordinator keeps the roles;
//! what it says of them comes in with each event.

use crate::audio::FRAME_MS;
use crate::clock::{millis, Instant};
use crate::listener::{audio_state, keys_up, offers_pcm, ROLE_CHANGE_MILLIS};
use crate::protocol::{
    AudioCodec, AudioControl, AudioStopReason, AudioStreamState, ControlEvent, ControlFrame, Edge,
    Frame, InputEvent, InputFrame, RoleEvent, RoleState,
};
use crate::session::{
    audio_choice, copy_text, is_named, linux_audio_choice, names, next_generation, nothing, only_if,
    push_when, shows_audio, AudioChoice, AudioTransport, CaptureEvent, ControllerChoice, ControllerSessionExit,
    Detail, Effect, EffectList, LivenessEvent, Message, PeerSupport, SessionFailure, TrayCommand,
    TrayUpdate,
};
use vstd::prelude::*;

verus! {

/// Which way the audio goes where no route was committed.
#[derive(Clone, Copy, Debug, PartialEq, Eq, Structural)]
pub enum AudioRoutePreference {
    Disabled,
    LocalToPeer,
    PeerToLocal,
}

/// What the coordinator says of the roles.
#[derive(Clone, Debug, PartialEq, Eq)]
pub struct Roles {
    pub controller_fingerprint: Option<String>,
    pub role_epoch: u64,
    pub transitioning: bool,
}

/// What the coordinator decides when both sides have answered.
#[derive(Clone, Debug, PartialEq, Eq)]
pub enum ReadyOutcome {
    Commit(RoleState),
    Abort(RoleState),
    /// The answer is to another change of roles.
    UnexpectedEpoch,
}

/// Whether this side is ready for a change of roles.
#[derive(Clone, Debug, PartialEq, Eq)]
pub struct ConnectorRoleReadiness {
    pub capture_ready: bool,
    pub inject_ready: bool,
    pub failure: Option<Detail>,
}

/// The state of a connector's session.
#[derive(Debug)]
pub struct ConnectorSession {
    pub support: PeerSupport,
    pub local_fingerprint: String,
    pub peer_fingerprint: String,
    /// The edge that the pointer leaves this computer over.
    pub edge: Edge,
    pub role_epoch: u64,
    pub local_is_controller: bool,
    pub session_paused: bool,
    pub input_forwarding_enabled: bool,
    /// The capture of local input is set up.
    pub has_capture: bool,
    pub input_active: bool,
    pub pending_readiness: Option<ConnectorRoleReadiness>,
    pub transition_deadline: Option<Instant>,
    pub audio_source: Option<String>,
    pub audio: AudioTransport,
    pub heartbeat_sequence: u64,
}

/// The source of audio that a session begins with: the one that was
/// committed, else the one that is preferred, else the peer where audio is
/// enabled; and none where the peer cannot do its part.
pub open spec fn first_source(
    stored: Option<Option<String>>,
    preference: Option<AudioRoutePreference>,
    enabled: bool,
    support: PeerSupport,
    local: String,
    peer: String,
) -> Option<String> {
    let wanted = match (stored, preference) {
        (Some(source), _) => source,
        (None, Some(AudioRoutePreference::Disabled)) => None,
        (None, Some(AudioRoutePreference::LocalToPeer)) => Some(local),
        (None, Some(AudioRoutePreference::PeerToLocal)) => Some(peer),
        (None, None) => if enabled {
            Some(peer)
        } else {
            None
        },
    };
    if is_named(wanted, local) && !(support.audio_playback && support.audio_route) || is_named(
        wanted,
        peer,
    ) && !support.audio_capture {
        None
    } else {
        wanted
    }
}

/// The source of audio that a session begins with.
pub fn initial_audio_source(
    stored: Option<Option<String>>,
    preference: Option<AudioRoutePreference>,
    enabled: bool,
    support: &PeerSupport,
    local: &String,
    peer: &String,
) -> (source: Option<String>)
    ensures
        source == first_source(stored, preference, enabled, *support, *local, *peer),
{
    let wanted: Option<String> = match stored {
        Some(source) => source,
        None => match preference {
            Some(AudioRoutePreference::Disabled) => None,
            Some(AudioRoutePreference::LocalToPeer) => Some(local.clone()),
            Some(AudioRoutePreference::PeerToLocal) => Some(peer.clone()),
            None => if enabled {
                Some(peer.clone())
            } else {
                None
            },
        },
    };
    if names(&wanted, local) && !(support.audio_playback && support.audio_route) || names(
        &wanted,
        peer,
    ) && !support.audio_capture {
        None
    } else {
        wanted
    }
}

impl ConnectorSession {
    /// Local input goes to the peer.
    pub open spec fn forwards(self) -> bool {
        self.local_is_controller && self.input_forwarding_enabled && !self.session_paused
    }

    /// The capture of local input is to be armed.
    pub open spec fn arms(self) -> bool {
        self.forwards() && self.has_capture
    }

    fn is_armed(&self) -> (arms: bool)
        ensures
            arms == self.arms(),
    {
        self.local_is_controller && self.input_forwarding_enabled && !self.session_paused
            && self.has_capture
    }

    /// This computer is the source of the audio.
    pub open spec fn is_source(self) -> bool {
        is_named(self.audio_source, self.local_fingerprint)
    }

    /// What the tray shows of the roles.
    pub open spec fn shown_roles(self) -> Effect {
        Effect::Tray(
            TrayUpdate::RoleAssignment {
                local_is_controller: self.local_is_controller,
                switch_available: self.support.can_switch_roles() && !self.session_paused,
            },
        )
    }

    fn show_roles(&self) -> (effect: Effect)
        ensures
            effect == self.shown_roles(),
    {
        Effect::Tray(
            TrayUpdate::RoleAssignment {
                local_is_controller: self.local_is_controller,
                switch_available: self.support.role_switch_available() && !self.session_paused,
            },
        )
    }

    /// What the tray shows of the audio: that of a Linux node is not available
    /// in either direction.
    pub open spec fn shown_audio(self, choice: AudioChoice) -> Effect {
        Effect::Tray(
            TrayUpdate::AudioRoute {
                choice,
                local_available: self.support.audio_playback && self.support.audio_route
                    && !self.support.is_linux_node(),
                peer_available: self.support.audio_capture && !self.support.is_linux_node(),
            },
        )
    }

    fn show_audio(&self, choice: AudioChoice) -> (effect: Effect)
        ensures
            effect == self.shown_audio(choice),
    {
        Effect::Tray(
            TrayUpdate::AudioRoute {
                choice,
                local_available: self.support.audio_playback && self.support.audio_route
                    && !self.support.linux_node(),
                peer_available: self.support.audio_capture && !self.support.linux_node(),
            },
        )
    }

    /// What the peer is told of the route: the source, or to a peer that knows
    /// no sources whether it is one.
    pub open spec fn route(self) -> Message {
        if self.support.audio_route {
            Message::AudioSetRoute { source_fingerprint: self.audio_source }
        } else {
            Message::AudioSetEnabled { enabled: is_named(self.audio_source, self.peer_fingerprint) }
        }
    }

    fn tell_route(&self) -> (message: Message)
        ensures
            message == self.route(),
    {
        if self.support.audio_route {
            Message::AudioSetRoute { source_fingerprint: copy_text(&self.audio_source) }
        } else {
            Message::AudioSetEnabled { enabled: names(&self.audio_source, &self.peer_fingerprint) }
        }
    }

    fn send_keys_up(&self) -> (message: Message)
        ensures
            message == keys_up(self.role_epoch),
    {
        Message::Input { role_epoch: self.role_epoch, event: InputEvent::AllKeysUp }
    }

    /// The state that a session begins in.
    pub open spec fn initial(
        support: PeerSupport,
        local_fingerprint: String,
        peer_fingerprint: String,
        roles: RoleState,
        audio_source: Option<String>,
    ) -> Self {
        let local_is_controller = is_named(roles.controller_fingerprint, local_fingerprint);
        ConnectorSession {
            support,
            local_fingerprint,
            peer_fingerprint,
            edge: roles.listener_position,
            role_epoch: roles.role_epoch,
            local_is_controller,
            session_paused: roles.paused,
            input_forwarding_enabled: roles.controller_fingerprint is Some,
            has_capture: local_is_controller && support.input_injection,
            input_active: false,
            pending_readiness: None,
            transition_deadline: None,
            audio_source,
            audio: AudioTransport::idle(),
            heartbeat_sequence: 0,
        }
    }

    /// What the beginning of a session takes: the capture where this side
    /// controls, the route where none was committed, what the tray shows, and
    /// what the peer is told of the audio.
    pub open spec fn beginning(self, route_is_stored: bool) -> Seq<Effect> {
        nothing()
            .push_if(self.has_capture, Effect::Preflight { edge: self.edge })
            .push_if(self.arms(), Effect::Arm)
            .push_if(
                !route_is_stored,
                Effect::SaveAudioRoute { source_fingerprint: self.audio_source },
            )
            .push(Effect::Tray(TrayUpdate::InputForwarding(self.input_forwarding_enabled)))
            .push(
                self.shown_audio(
                    audio_choice(
                        self.audio_source,
                        self.local_fingerprint,
                        self.peer_fingerprint,
                    ),
                ),
            )
            .push(Effect::Tray(TrayUpdate::SessionPaused(self.session_paused)))
            .push(self.shown_roles())
            .push(Effect::Send(self.route()))
            .push_if(self.is_source() && !self.session_paused, Effect::Send(Message::AudioOffer))
    }

    /// A session that begins, and what that takes.
    pub fn start(
        support: PeerSupport,
        local_fingerprint: String,
        peer_fingerprint: String,
        roles: &RoleState,
        audio_source: Option<String>,
        route_is_stored: bool,
    ) -> (begun: (Self, Vec<Effect>))
        ensures
            begun.0 == Self::initial(
                support,
                local_fingerprint,
                peer_fingerprint,
                *roles,
                audio_source,
            ),
            begun.1@ == begun.0.beginning(route_is_stored),
            support.is_linux_node() ==> !exists|i: int|
                0 <= i < begun.1@.len() && shows_audio(#[trigger] begun.1@[i]),
    {
        let local_is_controller: bool = names(&roles.controller_fingerprint, &local_fingerprint);
        let session = ConnectorSession {
            support,
            local_fingerprint,
            peer_fingerprint,
            edge: roles.listener_position,
            role_epoch: roles.role_epoch,
            local_is_controller,
            session_paused: roles.paused,
            input_forwarding_enabled: roles.controller_fingerprint.is_some(),
            has_capture: local_is_controller && support.input_injection,
            input_active: false,
            pending_readiness: None,
            transition_deadline: None,
            audio_source,
            audio: AudioTransport::new(),
            heartbeat_sequence: 0,
        };
        let mut out: Vec<Effect> = Vec::new();
        push_when(&mut out, session.has_capture, Effect::Preflight { edge: session.edge });
        let arms: bool = session.is_armed();
        push_when(&mut out, arms, Effect::Arm);
        push_when(
            &mut out,
            !route_is_stored,
            Effect::SaveAudioRoute { source_fingerprint: copy_text(&session.audio_source) },
        );
        out.push(Effect::Tray(TrayUpdate::InputForwarding(session.input_forwarding_enabled)));
        let choice: AudioChoice = linux_audio_choice(
            &session.audio_source,
            &session.local_fingerprint,
            &session.peer_fingerprint,
        );
        out.push(session.show_audio(choice));
        out.push(Effect::Tray(TrayUpdate::SessionPaused(session.session_paused)));
        out.push(session.show_roles());
        out.push(Effect::Send(session.tell_route()));
        let is_source: bool = names(&session.audio_source, &session.local_fingerprint);
        push_when(&mut out, is_source && !session.session_paused, Effect::Send(Message::AudioOffer));
        (session, out)
    }

    /// What the end of a session takes: no key stays pressed on either side,
    /// and nothing is captured or played any more.
    pub open spec fn ending(self) -> Seq<Effect> {
        self.audio.stopping(
            nothing()
                .push(Effect::TrySend(keys_up(self.role_epoch)))
                .push_if(self.has_capture, Effect::TryRelease)
                .push_if(self.has_capture, Effect::TryDisarm),
        ).push(Effect::TryAllKeysUp)
    }

    /// Ends the session.
    pub fn finish(&mut self) -> (out: Vec<Effect>)
        ensures
            out@ == old(self).ending(),
            *final(self) == (ConnectorSession { audio: old(self).audio.stopped(), ..*old(self) }),
    {
        let mut out: Vec<Effect> = Vec::new();
        out.push(Effect::TrySend(self.send_keys_up()));
        push_when(&mut out, self.has_capture, Effect::TryRelease);
        push_when(&mut out, self.has_capture, Effect::TryDisarm);
        self.audio.stop(&mut out);
        out.push(Effect::TryAllKeysUp);
        out
    }

    /// Whether heartbeats come at the fast rate.
    pub fn heartbeat_is_fast(&self, transitioning: bool) -> (fast: bool)
        ensures
            fast == (self.input_active || transitioning),
    {
        self.input_active || transitioning
    }

    /// Whether the next piece of an image may be sent: not in a paused session.
    pub fn may_send_images(&self) -> (may: bool)
        ensures
            may == !self.session_paused,
    {
        !self.session_paused
    }

    /// The peer has not answered a change of roles in time.
    pub open spec fn transition_timed_out(self, now: Instant, transitioning: bool) -> bool {
        transitioning && (self.transition_deadline matches Some(deadline) && now.nanos
            >= deadline.nanos)
    }

    /// A change of roles that was not answered is given up, and the committed
    /// roles stay. A silent peer loses the input first and the session later.
    pub open spec fn after_watchdog(
        self,
        now: Instant,
        transitioning: bool,
        liveness: Option<LivenessEvent>,
    ) -> (Self, Seq<Effect>) {
        let (s, given_up) = if self.transition_timed_out(now, transitioning) {
            (
                ConnectorSession { transition_deadline: None, pending_readiness: None, ..self },
                nothing()
                    .push(Effect::TryAbortRole(Detail::RolePreflightTimedOut))
                    .push_if(self.arms(), Effect::TryArm)
                    .push(Effect::Tray(TrayUpdate::RoleFailure(Detail::RoleSwitchTimedOut))),
            )
        } else {
            (self, nothing())
        };
        let captures = s.local_is_controller && s.has_capture;
        match liveness {
            Some(LivenessEvent::SoftInputTimeout) => (
                ConnectorSession { input_active: false, ..s },
                given_up
                    .push_if(captures, Effect::TryRelease)
                    .push_if(!captures, Effect::SuspendInput)
                    .push_if(!captures, Effect::TryAllKeysUp)
                    .push(Effect::TrySend(keys_up(s.role_epoch))),
            ),
            Some(LivenessEvent::HardSessionTimeout) => (
                s,
                given_up.push(Effect::Fail(SessionFailure::PeerSilent)),
            ),
            None => (s, given_up),
        }
    }

    /// The regular look at the clock.
    pub fn on_watchdog(
        &mut self,
        now: Instant,
        transitioning: bool,
        liveness: Option<LivenessEvent>,
    ) -> (out: Vec<Effect>)
        ensures
            (*final(self), out@) == old(self).after_watchdog(now, transitioning, liveness),
    {
        let mut out: Vec<Effect> = Vec::new();
        let overdue: bool = match self.transition_deadline {
            Some(deadline) => now.nanos >= deadline.nanos,
            None => false,
        };
        if overdue && transitioning {
            self.transition_deadline = None;
            self.pending_readiness = None;
            out.push(Effect::TryAbortRole(Detail::RolePreflightTimedOut));
            let arms: bool = self.is_armed();
            push_when(&mut out, arms, Effect::TryArm);
            out.push(Effect::Tray(TrayUpdate::RoleFailure(Detail::RoleSwitchTimedOut)));
        }
        let captures: bool = self.local_is_controller && self.has_capture;
        match liveness {
            Some(LivenessEvent::SoftInputTimeout) => {
                push_when(&mut out, captures, Effect::TryRelease);
                push_when(&mut out, !captures, Effect::SuspendInput);
                push_when(&mut out, !captures, Effect::TryAllKeysUp);
                self.input_active = false;
                out.push(Effect::TrySend(self.send_keys_up()));
            },
            Some(LivenessEvent::HardSessionTimeout) => {
                out.push(Effect::Fail(SessionFailure::PeerSilent));
            },
            None => {},
        }
        out
    }

    /// Streams that have ended by themselves are put away and reported.
    pub open spec fn after_audio_check(
        self,
        sender_finished: bool,
        receiver_failure: Option<String>,
    ) -> (Self, Seq<Effect>) {
        let sender_ended = self.audio.sender && sender_finished;
        let receiver_ended = self.audio.receiver && receiver_failure is Some;
        (
            ConnectorSession {
                audio: AudioTransport {
                    sender: self.audio.sender && !sender_finished,
                    receiver: self.audio.receiver && receiver_failure is None,
                    ..self.audio
                },
                ..self
            },
            nothing()
                .push_if(sender_ended, Effect::StopAudioSender)
                .push_if(
                    sender_ended,
                    Effect::TrySend(
                        Message::AudioState {
                            state: AudioStreamState::Error,
                            detail: Some(Detail::AudioCaptureStopped),
                        },
                    ),
                )
                .push_if(
                    receiver_ended,
                    Effect::TrySend(
                        Message::AudioState {
                            state: AudioStreamState::Error,
                            detail: Some(Detail::Other(receiver_failure->Some_0)),
                        },
                    ),
                ),
        )
    }

    /// The regular look at the streams. `receiver_failure` says why the
    /// receiving stream has ended, where it has.
    pub fn on_audio_check(
        &mut self,
        sender_finished: bool,
        receiver_failure: Option<String>,
    ) -> (out: Vec<Effect>)
        ensures
            (*final(self), out@) == old(self).after_audio_check(sender_finished, receiver_failure),
    {
        let mut out: Vec<Effect> = Vec::new();
        if self.audio.sender && sender_finished {
            self.audio.sender = false;
            out.push(Effect::StopAudioSender);
            out.push(
                Effect::TrySend(
                    Message::AudioState {
                        state: AudioStreamState::Error,
                        detail: Some(Detail::AudioCaptureStopped),
                    },
                ),
            );
        }
        if self.audio.receiver {
            if let Some(failure) = receiver_failure {
                self.audio.receiver = false;
                out.push(
                    Effect::TrySend(
                        Message::AudioState {
                            state: AudioStreamState::Error,
                            detail: Some(Detail::Other(failure)),
                        },
                    ),
                );
            }
        }
        out
    }

    /// The next sign of life, each with a number of its own.
    pub open spec fn after_heartbeat(self) -> (Self, Seq<Effect>) {
        let sequence = next_generation(self.heartbeat_sequence);
        (
            ConnectorSession { heartbeat_sequence: sequence, ..self },
            nothing().push(Effect::Send(Message::Heartbeat { sequence })),
        )
    }

    /// It is time for a sign of life.
    pub fn on_heartbeat(&mut self) -> (out: Vec<Effect>)
        ensures
            (*final(self), out@) == old(self).after_heartbeat(),
    {
        let mut out: Vec<Effect> = Vec::new();
        self.heartbeat_sequence = if self.heartbeat_sequence == u64::MAX {
            0
        } else {
            self.heartbeat_sequence + 1
        };
        out.push(Effect::Send(Message::Heartbeat { sequence: self.heartbeat_sequence }));
        out
    }

    /// Local input goes to the peer while this side controls, forwards and is
    /// not paused. A change of the monitors ends a change of roles that is
    /// under way, and the capture is armed again.
    pub open spec fn after_capture(self, event: Option<CaptureEvent>, transitioning: bool) -> (
        Self,
        Seq<Effect>,
    ) {
        match event {
            Some(CaptureEvent::Activated { edge, normalized_position, .. }) => if self.forwards() {
                (
                    ConnectorSession { input_active: true, ..self },
                    nothing().push(
                        Effect::Send(
                            Message::Control {
                                role_epoch: self.role_epoch,
                                event: ControlEvent::EnterRemote { edge, normalized_position },
                            },
                        ),
                    ),
                )
            } else {
                (self, nothing())
            },
            Some(CaptureEvent::Input(event)) => if self.forwards() {
                (
                    self,
                    nothing()
                        .push(Effect::Send(Message::Input { role_epoch: self.role_epoch, event }))
                        .push(Effect::Tray(TrayUpdate::InputEvent)),
                )
            } else {
                (self, nothing())
            },
            Some(CaptureEvent::Deactivated) => (
                ConnectorSession { input_active: false, ..self },
                nothing().push(Effect::Send(keys_up(self.role_epoch))),
            ),
            Some(CaptureEvent::EmergencyReleased) => (
                ConnectorSession { input_active: false, ..self },
                nothing().push(Effect::TrySend(keys_up(self.role_epoch))),
            ),
            Some(CaptureEvent::LayoutChanged { .. }) => if transitioning {
                (
                    ConnectorSession {
                        input_active: false,
                        pending_readiness: None,
                        transition_deadline: None,
                        ..self
                    },
                    nothing()
                        .push(Effect::AbortRole(Detail::LayoutChangedDuringPreflight))
                        .push(Effect::Tray(TrayUpdate::RoleSwitching(false)))
                        .push_if(self.arms(), Effect::Arm),
                )
            } else {
                (
                    ConnectorSession { input_active: false, ..self },
                    only_if(self.arms(), Effect::Arm),
                )
            },
            Some(CaptureEvent::BackendFailed(error)) => (
                self,
                nothing()
                    .push(Effect::TrySend(keys_up(self.role_epoch)))
                    .push(Effect::Fail(SessionFailure::CaptureFailed(error))),
            ),
            None => (
                self,
                only_if(self.has_capture, Effect::Fail(SessionFailure::CaptureStopped)),
            ),
        }
    }

    /// What the capture of local input reports; `None` where it has ended.
    pub fn on_capture(&mut self, event: Option<CaptureEvent>, transitioning: bool) -> (out: Vec<
        Effect,
    >)
        ensures
            (*final(self), out@) == old(self).after_capture(event, transitioning),
    {
        let mut out: Vec<Effect> = Vec::new();
        let forwards: bool = self.local_is_controller && self.input_forwarding_enabled
            && !self.session_paused;
        match event {
            Some(CaptureEvent::Activated { edge, normalized_position, .. }) => {
                if forwards {
                    self.input_active = true;
                    out.push(
                        Effect::Send(
                            Message::Control {
                                role_epoch: self.role_epoch,
                                event: ControlEvent::EnterRemote { edge, normalized_position },
                            },
                        ),
                    );
                }
            },
            Some(CaptureEvent::Input(event)) => {
                if forwards {
                    out.push(Effect::Send(Message::Input { role_epoch: self.role_epoch, event }));
                    out.push(Effect::Tray(TrayUpdate::InputEvent));
                }
            },
            Some(CaptureEvent::Deactivated) => {
                self.input_active = false;
                out.push(Effect::Send(self.send_keys_up()));
            },
            Some(CaptureEvent::EmergencyReleased) => {
                self.input_active = false;
                out.push(Effect::TrySend(self.send_keys_up()));
            },
            Some(CaptureEvent::LayoutChanged { .. }) => {
                self.input_active = false;
                if transitioning {
                    self.pending_readiness = None;
                    self.transition_deadline = None;
                    out.push(Effect::AbortRole(Detail::LayoutChangedDuringPreflight));
                    out.push(Effect::Tray(TrayUpdate::RoleSwitching(false)));
                }
                push_when(&mut out, forwards && self.has_capture, Effect::Arm);
            },
            Some(CaptureEvent::BackendFailed(error)) => {
                out.push(Effect::TrySend(self.send_keys_up()));
                out.push(Effect::Fail(SessionFailure::CaptureFailed(error)));
            },
            None => {
                push_when(
                    &mut out,
                    self.has_capture,
                    Effect::Fail(SessionFailure::CaptureStopped),
                );
            },
        }
        out
    }

    /// A sender of an older route is stopped at once; one of this route runs.
    pub open spec fn after_audio_started(self, generation: u64, result: Result<(), String>) -> (
        Self,
        Seq<Effect>,
    ) {
        if generation != self.audio.generation {
            (self, only_if(result is Ok, Effect::StopStaleAudioSender))
        } else {
            let audio = AudioTransport { starting: false, ..self.audio };
            match result {
                Ok(_) => (
                    ConnectorSession { audio: AudioTransport { sender: true, ..audio }, ..self },
                    nothing().push(audio_state(AudioStreamState::Streaming)),
                ),
                Err(error) => (
                    ConnectorSession { audio, ..self },
                    nothing().push(
                        Effect::Send(
                            Message::AudioState {
                                state: AudioStreamState::Error,
                                detail: Some(Detail::Other(error)),
                            },
                        ),
                    ),
                ),
            }
        }
    }

    /// The start of a sender has come to an end.
    pub fn on_audio_started(&mut self, generation: u64, result: Result<(), String>) -> (out: Vec<
        Effect,
    >)
        requires
            old(self).audio.starting,
        ensures
            (*final(self), out@) == old(self).after_audio_started(generation, result),
    {
        let mut out: Vec<Effect> = Vec::new();
        if generation != self.audio.generation {
            push_when(&mut out, result.is_ok(), Effect::StopStaleAudioSender);
        } else {
            self.audio.starting = false;
            match result {
                Ok(_) => {
                    self.audio.sender = true;
                    out.push(
                        Effect::Send(
                            Message::AudioState { state: AudioStreamState::Streaming, detail: None },
                        ),
                    );
                },
                Err(error) => {
                    out.push(
                        Effect::Send(
                            Message::AudioState {
                                state: AudioStreamState::Error,
                                detail: Some(Detail::Other(error)),
                            },
                        ),
                    );
                },
            }
        }
        out
    }

    /// A receiver that has started runs; one that has not is reported.
    pub open spec fn after_offer_answered(self, result: Result<(), String>) -> (
        Self,
        Seq<Effect>,
    ) {
        match result {
            Ok(_) => (
                ConnectorSession {
                    audio: AudioTransport { receiver: true, ..self.audio },
                    ..self
                },
                nothing().push(audio_state(AudioStreamState::Streaming)),
            ),
            Err(error) => (
                self,
                nothing().push(
                    Effect::Send(
                        Message::AudioState {
                            state: AudioStreamState::Error,
                            detail: Some(Detail::Other(error)),
                        },
                    ),
                ),
            ),
        }
    }

    /// An offer of audio was answered.
    pub fn on_offer_answered(&mut self, result: Result<(), String>) -> (out: Vec<Effect>)
        ensures
            (*final(self), out@) == old(self).after_offer_answered(result),
    {
        let mut out: Vec<Effect> = Vec::new();
        match result {
            Ok(_) => {
                self.audio.receiver = true;
                out.push(
                    Effect::Send(
                        Message::AudioState { state: AudioStreamState::Streaming, detail: None },
                    ),
                );
            },
            Err(error) => {
                out.push(
                    Effect::Send(
                        Message::AudioState {
                            state: AudioStreamState::Error,
                            detail: Some(Detail::Other(error)),
                        },
                    ),
                );
            },
        }
        out
    }

    /// A change of the local clipboard is offered, unless the session is
    /// paused. A watch that has ended begins anew.
    pub open spec fn after_clipboard_watch(self, changed: bool) -> Seq<Effect> {
        if changed {
            only_if(!self.session_paused, Effect::OfferClipboard)
        } else {
            nothing().push(Effect::WatchClipboardAnew)
        }
    }

    /// The local clipboard has changed, or the watch of it has ended.
    pub fn on_clipboard_watch(&self, changed: bool) -> (out: Vec<Effect>)
        ensures
            out@ == self.after_clipboard_watch(changed),
    {
        let mut out: Vec<Effect> = Vec::new();
        if changed {
            push_when(&mut out, !self.session_paused, Effect::OfferClipboard);
        } else {
            out.push(Effect::WatchClipboardAnew);
        }
        out
    }

    /// The clipboards were compared; `moved` where one went over.
    pub fn on_clipboard_synced(&self, moved: bool) -> (out: Vec<Effect>)
        ensures
            out@ == only_if(moved, Effect::Tray(TrayUpdate::ClipboardEvent)),
    {
        let mut out: Vec<Effect> = Vec::new();
        push_when(&mut out, moved, Effect::Tray(TrayUpdate::ClipboardEvent));
        out
    }
}

impl ConnectorSession {
    /// A change of roles cannot begin, or has nothing to change.
    pub open spec fn keeps_roles(self, requested: String, roles: Roles) -> bool {
        ||| self.session_paused
        ||| !self.support.can_switch_roles()
        ||| is_named(roles.controller_fingerprint, requested)
        ||| roles.transitioning
    }

    /// A change of roles needs a capture that is not set up.
    pub open spec fn needs_preflight(self, requested: String) -> bool {
        requested@ == self.local_fingerprint@ && !self.has_capture
    }

    /// A change of roles begins: the side that controlled lets go of all keys,
    /// the peer is asked to prepare, and where this side is to control, its
    /// capture is set up before the peer is waited for.
    pub open spec fn after_switch(self, requested: String, roles: Roles, now: Instant) -> (
        Self,
        Seq<Effect>,
    ) {
        if self.keeps_roles(requested, roles) {
            (self, nothing())
        } else {
            let controlled = is_named(roles.controller_fingerprint, self.local_fingerprint);
            let begun = nothing()
                .push(Effect::SuspendInput)
                .push_if(controlled && self.has_capture, Effect::TryRelease)
                .push_if(controlled && self.has_capture, Effect::TryDisarm)
                .push_if(controlled, Effect::TrySend(keys_up(roles.role_epoch)))
                .push_if(!controlled, Effect::TryAllKeysUp)
                .push(Effect::PrepareRole { controller_fingerprint: requested });
            if self.needs_preflight(requested) {
                (
                    ConnectorSession {
                        input_active: false,
                        pending_readiness: None,
                        transition_deadline: None,
                        ..self
                    },
                    begun.push(Effect::TryPreflight { edge: self.edge }),
                )
            } else {
                (
                    ConnectorSession {
                        input_active: false,
                        pending_readiness: Some(
                            ConnectorRoleReadiness {
                                capture_ready: true,
                                inject_ready: true,
                                failure: None,
                            },
                        ),
                        transition_deadline: Some(now.later(millis(ROLE_CHANGE_MILLIS as int))),
                        ..self
                    },
                    begun.push(Effect::Tray(TrayUpdate::RoleSwitching(true))),
                )
            }
        }
    }

    fn switch(&mut self, requested: String, roles: &Roles, now: Instant) -> (out: Vec<Effect>)
        ensures
            (*final(self), out@) == old(self).after_switch(requested, *roles, now),
    {
        let mut out: Vec<Effect> = Vec::new();
        if self.session_paused || !self.support.role_switch_available() || names(
            &roles.controller_fingerprint,
            &requested,
        ) || roles.transitioning {
            return out;
        }
        let controlled: bool = names(&roles.controller_fingerprint, &self.local_fingerprint);
        let preflights: bool = requested == self.local_fingerprint && !self.has_capture;
        out.push(Effect::SuspendInput);
        push_when(&mut out, controlled && self.has_capture, Effect::TryRelease);
        push_when(&mut out, controlled && self.has_capture, Effect::TryDisarm);
        push_when(
            &mut out,
            controlled,
            Effect::TrySend(
                Message::Input { role_epoch: roles.role_epoch, event: InputEvent::AllKeysUp },
            ),
        );
        push_when(&mut out, !controlled, Effect::TryAllKeysUp);
        out.push(Effect::PrepareRole { controller_fingerprint: requested });
        self.input_active = false;
        if preflights {
            self.pending_readiness = None;
            self.transition_deadline = None;
            out.push(Effect::TryPreflight { edge: self.edge });
        } else {
            self.pending_readiness = Some(
                ConnectorRoleReadiness { capture_ready: true, inject_ready: true, failure: None },
            );
            self.transition_deadline = Some(now.plus_millis(ROLE_CHANGE_MILLIS));
            out.push(Effect::Tray(TrayUpdate::RoleSwitching(true)));
        }
        out
    }

    /// The capture was set up for a change of roles, or was not; either way
    /// the peer is waited for.
    pub open spec fn after_preflight(self, result: Result<(), String>, now: Instant) -> (
        Self,
        Seq<Effect>,
    ) {
        let (has_capture, failure) = match result {
            Ok(_) => (true, None),
            Err(error) => (self.has_capture, Some(Detail::ConnectorPreflightFailed(error))),
        };
        (
            ConnectorSession {
                has_capture,
                pending_readiness: Some(
                    ConnectorRoleReadiness {
                        capture_ready: result is Ok,
                        inject_ready: true,
                        failure,
                    },
                ),
                transition_deadline: Some(now.later(millis(ROLE_CHANGE_MILLIS as int))),
                ..self
            },
            nothing().push(Effect::Tray(TrayUpdate::RoleSwitching(true))),
        )
    }

    /// The capture was set up for a change of roles, or was not.
    pub fn on_preflight(&mut self, result: Result<(), String>, now: Instant) -> (out: Vec<Effect>)
        ensures
            (*final(self), out@) == old(self).after_preflight(result, now),
    {
        let mut out: Vec<Effect> = Vec::new();
        match result {
            Ok(_) => {
                self.has_capture = true;
                self.pending_readiness = Some(
                    ConnectorRoleReadiness {
                        capture_ready: true,
                        inject_ready: true,
                        failure: None,
                    },
                );
            },
            Err(error) => {
                self.pending_readiness = Some(
                    ConnectorRoleReadiness {
                        capture_ready: false,
                        inject_ready: true,
                        failure: Some(Detail::ConnectorPreflightFailed(error)),
                    },
                );
            },
        }
        self.transition_deadline = Some(now.plus_millis(ROLE_CHANGE_MILLIS));
        out.push(Effect::Tray(TrayUpdate::RoleSwitching(true)));
        out
    }

    /// An answer that is waited for goes to the coordinator, with this side's
    /// own. The peer's reason for a failure comes before this side's.
    pub open spec fn after_ready(
        self,
        role_epoch: u64,
        capture_ready: bool,
        inject_ready: bool,
        failure_detail: Option<String>,
    ) -> Seq<Effect> {
        match self.pending_readiness {
            None => nothing(),
            Some(local) => nothing().push(
                Effect::FinishReady {
                    role_epoch,
                    local_capture_ready: local.capture_ready,
                    local_inject_ready: local.inject_ready,
                    peer_capture_ready: capture_ready,
                    peer_inject_ready: inject_ready,
                    failure: match failure_detail {
                        Some(words) => Some(Detail::Other(words)),
                        None => local.failure,
                    },
                },
            ),
        }
    }

    fn on_ready(
        &self,
        role_epoch: u64,
        capture_ready: bool,
        inject_ready: bool,
        failure_detail: Option<String>,
    ) -> (out: Vec<Effect>)
        ensures
            out@ == self.after_ready(role_epoch, capture_ready, inject_ready, failure_detail),
    {
        let mut out: Vec<Effect> = Vec::new();
        if let Some(local) = &self.pending_readiness {
            let failure: Option<Detail> = match failure_detail {
                Some(words) => Some(Detail::Other(words)),
                None => match &local.failure {
                    Some(detail) => Some(detail.copy()),
                    None => None,
                },
            };
            out.push(
                Effect::FinishReady {
                    role_epoch,
                    local_capture_ready: local.capture_ready,
                    local_inject_ready: local.inject_ready,
                    peer_capture_ready: capture_ready,
                    peer_inject_ready: inject_ready,
                    failure,
                },
            );
        }
        out
    }

    /// What the coordinator decided. A commit is saved before the peer is
    /// told, and takes effect when both are done. An answer to another change is
    /// passed over, and the right one waited for anew.
    pub open spec fn after_decision(self, outcome: ReadyOutcome, now: Instant) -> (
        Self,
        Seq<Effect>,
    ) {
        let s = ConnectorSession { pending_readiness: None, transition_deadline: None, ..self };
        match outcome {
            ReadyOutcome::UnexpectedEpoch => (
                ConnectorSession {
                    transition_deadline: Some(now.later(millis(ROLE_CHANGE_MILLIS as int))),
                    ..self
                },
                nothing(),
            ),
            ReadyOutcome::Commit(commit) => match commit.controller_fingerprint {
                None => (
                    s,
                    nothing().push(Effect::Fail(SessionFailure::CommitWithoutController)),
                ),
                Some(controller) => (
                    s,
                    nothing()
                        .push(Effect::SaveRole { controller_fingerprint: controller })
                        .push(Effect::Send(Message::RoleCommit(commit)))
                        .push(
                            Effect::EnterRole {
                                controller_fingerprint: controller,
                                role_epoch: commit.role_epoch,
                            },
                        ),
                ),
            },
            ReadyOutcome::Abort(abort) => {
                let told = nothing()
                    .push(Effect::Send(Message::RoleAbort(abort)))
                    .push_if(s.arms(), Effect::Arm)
                    .push(Effect::Tray(TrayUpdate::RoleSwitching(false)));
                (
                    s,
                    match abort.failure_detail {
                        Some(detail) => told.push(
                            Effect::Tray(TrayUpdate::RoleFailure(Detail::Other(detail))),
                        ),
                        None => told,
                    },
                )
            },
        }
    }

    /// The coordinator has decided on a change of roles.
    pub fn on_decision(&mut self, outcome: ReadyOutcome, now: Instant) -> (out: Vec<Effect>)
        ensures
            (*final(self), out@) == old(self).after_decision(outcome, now),
    {
        let mut out: Vec<Effect> = Vec::new();
        match outcome {
            ReadyOutcome::UnexpectedEpoch => {
                self.transition_deadline = Some(now.plus_millis(ROLE_CHANGE_MILLIS));
            },
            ReadyOutcome::Commit(commit) => {
                self.pending_readiness = None;
                self.transition_deadline = None;
                match copy_text(&commit.controller_fingerprint) {
                    None => {
                        out.push(Effect::Fail(SessionFailure::CommitWithoutController));
                    },
                    Some(controller) => {
                        let role_epoch: u64 = commit.role_epoch;
                        out.push(Effect::SaveRole { controller_fingerprint: controller.clone() });
                        out.push(Effect::Send(Message::RoleCommit(commit)));
                        out.push(
                            Effect::EnterRole { controller_fingerprint: controller, role_epoch },
                        );
                    },
                }
            },
            ReadyOutcome::Abort(abort) => {
                self.pending_readiness = None;
                self.transition_deadline = None;
                let detail: Option<String> = copy_text(&abort.failure_detail);
                out.push(Effect::Send(Message::RoleAbort(abort)));
                let arms: bool = self.is_armed();
                push_when(&mut out, arms, Effect::Arm);
                out.push(Effect::Tray(TrayUpdate::RoleSwitching(false)));
                if let Some(detail) = detail {
                    out.push(Effect::Tray(TrayUpdate::RoleFailure(Detail::Other(detail))));
                }
            },
        }
        out
    }

    /// A commit takes effect: the new epoch begins with no key pressed.
    pub open spec fn after_commit(self, controller_fingerprint: String, role_epoch: u64) -> (
        Self,
        Seq<Effect>,
    ) {
        let s = ConnectorSession {
            role_epoch,
            local_is_controller: controller_fingerprint@ == self.local_fingerprint@,
            ..self
        };
        (
            s,
            nothing()
                .push(Effect::SuspendInput)
                .push(Effect::TryAllKeysUp)
                .push_if(s.arms(), Effect::Arm)
                .push(s.shown_roles()),
        )
    }

    /// A commit was saved, and the peer was told of it.
    pub fn on_commit(&mut self, controller_fingerprint: String, role_epoch: u64) -> (out: Vec<
        Effect,
    >)
        ensures
            (*final(self), out@) == old(self).after_commit(controller_fingerprint, role_epoch),
    {
        let mut out: Vec<Effect> = Vec::new();
        self.role_epoch = role_epoch;
        self.local_is_controller = controller_fingerprint == self.local_fingerprint;
        out.push(Effect::SuspendInput);
        out.push(Effect::TryAllKeysUp);
        let arms: bool = self.is_armed();
        push_when(&mut out, arms, Effect::Arm);
        out.push(self.show_roles());
        out
    }

    /// A pause stops the input and the audio of both directions; the end of a
    /// pause starts them again. The peer is told either way.
    pub open spec fn after_pause(self, paused: bool) -> (Self, Seq<Effect>) {
        let s = ConnectorSession {
            session_paused: paused,
            audio: if paused {
                self.audio.stopped()
            } else {
                self.audio
            },
            ..self
        };
        let decided = nothing().push(Effect::PauseRole(paused)).push(Effect::RememberPause(paused));
        let stopped = if paused {
            self.audio.stopping(
                decided
                    .push_if(self.has_capture, Effect::TryRelease)
                    .push_if(self.has_capture, Effect::TryDisarm)
                    .push(Effect::SuspendInput)
                    .push(Effect::TryAllKeysUp),
            )
        } else {
            decided.push_if(s.arms(), Effect::Arm)
        };
        (
            s,
            stopped
                .push(Effect::Send(Message::RolePaused { paused }))
                .push_if(!paused, Effect::Send(s.route()))
                .push_if(!paused && s.is_source(), Effect::Send(Message::AudioOffer))
                .push(Effect::Tray(TrayUpdate::SessionPaused(paused)))
                .push(s.shown_roles()),
        )
    }

    fn pause(&mut self, paused: bool) -> (out: Vec<Effect>)
        ensures
            (*final(self), out@) == old(self).after_pause(paused),
    {
        let mut out: Vec<Effect> = Vec::new();
        self.session_paused = paused;
        out.push(Effect::PauseRole(paused));
        out.push(Effect::RememberPause(paused));
        if paused {
            push_when(&mut out, self.has_capture, Effect::TryRelease);
            push_when(&mut out, self.has_capture, Effect::TryDisarm);
            out.push(Effect::SuspendInput);
            out.push(Effect::TryAllKeysUp);
            self.audio.stop(&mut out);
        } else {
            let arms: bool = self.is_armed();
            push_when(&mut out, arms, Effect::Arm);
        }
        out.push(Effect::Send(Message::RolePaused { paused }));
        let is_source: bool = names(&self.audio_source, &self.local_fingerprint);
        let route: Message = self.tell_route();
        push_when(&mut out, !paused, Effect::Send(route));
        push_when(&mut out, !paused && is_source, Effect::Send(Message::AudioOffer));
        out.push(Effect::Tray(TrayUpdate::SessionPaused(paused)));
        out.push(self.show_roles());
        out
    }

    /// The user pauses the session: as when the peer does, and the peer is
    /// also told to stop its audio.
    pub open spec fn after_disconnect(self) -> (Self, Seq<Effect>) {
        let s = ConnectorSession { session_paused: true, audio: self.audio.stopped(), ..self };
        (
            s,
            self.audio.stopping(
                nothing()
                    .push(Effect::PauseRole(true))
                    .push(Effect::RememberPause(true))
                    .push_if(self.has_capture, Effect::TryRelease)
                    .push_if(self.has_capture, Effect::TryDisarm)
                    .push(Effect::SuspendInput)
                    .push(Effect::TryAllKeysUp),
            )
                .push(Effect::TrySend(Message::AudioStop { reason: AudioStopReason::UserRequest }))
                .push(Effect::Send(Message::RolePaused { paused: true }))
                .push(Effect::Tray(TrayUpdate::SessionPaused(true)))
                .push(s.shown_roles()),
        )
    }

    fn disconnect(&mut self) -> (out: Vec<Effect>)
        ensures
            (*final(self), out@) == old(self).after_disconnect(),
    {
        let mut out: Vec<Effect> = Vec::new();
        self.session_paused = true;
        out.push(Effect::PauseRole(true));
        out.push(Effect::RememberPause(true));
        push_when(&mut out, self.has_capture, Effect::TryRelease);
        push_when(&mut out, self.has_capture, Effect::TryDisarm);
        out.push(Effect::SuspendInput);
        out.push(Effect::TryAllKeysUp);
        self.audio.stop(&mut out);
        out.push(Effect::TrySend(Message::AudioStop { reason: AudioStopReason::UserRequest }));
        out.push(Effect::Send(Message::RolePaused { paused: true }));
        out.push(Effect::Tray(TrayUpdate::SessionPaused(true)));
        out.push(self.show_roles());
        out
    }

    /// The user ends a pause: the peer is told, the audio starts again and
    /// then the input.
    pub open spec fn after_reconnect(self) -> (Self, Seq<Effect>) {
        let s = ConnectorSession { session_paused: false, ..self };
        (
            s,
            nothing()
                .push(Effect::PauseRole(false))
                .push(Effect::RememberPause(false))
                .push(Effect::Send(Message::RolePaused { paused: false }))
                .push(Effect::Send(s.route()))
                .push_if(s.is_source(), Effect::Send(Message::AudioOffer))
                .push_if(s.arms(), Effect::Arm)
                .push(Effect::Tray(TrayUpdate::SessionPaused(false)))
                .push(s.shown_roles()),
        )
    }

    fn reconnect(&mut self) -> (out: Vec<Effect>)
        ensures
            (*final(self), out@) == old(self).after_reconnect(),
    {
        let mut out: Vec<Effect> = Vec::new();
        self.session_paused = false;
        out.push(Effect::PauseRole(false));
        out.push(Effect::RememberPause(false));
        out.push(Effect::Send(Message::RolePaused { paused: false }));
        out.push(Effect::Send(self.tell_route()));
        let is_source: bool = names(&self.audio_source, &self.local_fingerprint);
        push_when(&mut out, is_source, Effect::Send(Message::AudioOffer));
        let arms: bool = self.is_armed();
        push_when(&mut out, arms, Effect::Arm);
        out.push(Effect::Tray(TrayUpdate::SessionPaused(false)));
        out.push(self.show_roles());
        out
    }

    /// The user switches forwarding, where there is a controller and its role
    /// is not in question.
    pub open spec fn after_toggle(self, roles: Roles) -> (Self, Seq<Effect>) {
        if self.session_paused || roles.transitioning || roles.controller_fingerprint is None {
            (self, nothing())
        } else {
            let enabled = !self.input_forwarding_enabled;
            let captures = self.local_is_controller && self.has_capture;
            (
                ConnectorSession { input_forwarding_enabled: enabled, input_active: false, ..self },
                nothing()
                    .push_if(captures && enabled, Effect::Arm)
                    .push_if(captures && !enabled, Effect::Disarm)
                    .push_if(!captures && !enabled, Effect::TryAllKeysUp)
                    .push(
                        Effect::Send(
                            Message::Control {
                                role_epoch: self.role_epoch,
                                event: ControlEvent::SetInputForwarding { enabled },
                            },
                        ),
                    )
                    .push(Effect::Tray(TrayUpdate::InputForwarding(enabled))),
            )
        }
    }

    fn toggle(&mut self, roles: &Roles) -> (out: Vec<Effect>)
        ensures
            (*final(self), out@) == old(self).after_toggle(*roles),
    {
        let mut out: Vec<Effect> = Vec::new();
        if self.session_paused || roles.transitioning || roles.controller_fingerprint.is_none() {
            return out;
        }
        let enabled: bool = !self.input_forwarding_enabled;
        let captures: bool = self.local_is_controller && self.has_capture;
        self.input_forwarding_enabled = enabled;
        self.input_active = false;
        push_when(&mut out, captures && enabled, Effect::Arm);
        push_when(&mut out, captures && !enabled, Effect::Disarm);
        push_when(&mut out, !captures && !enabled, Effect::TryAllKeysUp);
        out.push(
            Effect::Send(
                Message::Control {
                    role_epoch: self.role_epoch,
                    event: ControlEvent::SetInputForwarding { enabled },
                },
            ),
        );
        out.push(Effect::Tray(TrayUpdate::InputForwarding(enabled)));
        out
    }

    /// Another source of audio: what ran stops, the route is saved, and the
    /// peer is told. `offers` where this side then offers its audio.
    pub open spec fn after_source(self, source: Option<String>, offers: bool, shown: AudioChoice)
        -> (Self, Seq<Effect>) {
        let s = ConnectorSession { audio_source: source, audio: self.audio.stopped(), ..self };
        (
            s,
            self.audio.stopping(nothing())
                .push(Effect::SaveAudioRoute { source_fingerprint: source })
                .push(Effect::Send(s.route()))
                .push_if(
                    offers && s.is_source() && !self.session_paused,
                    Effect::Send(Message::AudioOffer),
                )
                .push(self.shown_audio(shown)),
        )
    }

    fn set_source(&mut self, source: Option<String>, offers: bool, shown: AudioChoice) -> (out: Vec<
        Effect,
    >)
        ensures
            (*final(self), out@) == old(self).after_source(source, offers, shown),
    {
        let mut out: Vec<Effect> = Vec::new();
        self.audio.stop(&mut out);
        self.audio_source = source;
        out.push(Effect::SaveAudioRoute { source_fingerprint: copy_text(&self.audio_source) });
        out.push(Effect::Send(self.tell_route()));
        let is_source: bool = names(&self.audio_source, &self.local_fingerprint);
        push_when(
            &mut out,
            offers && is_source && !self.session_paused,
            Effect::Send(Message::AudioOffer),
        );
        out.push(self.show_audio(shown));
        out
    }

    /// The source of audio that the user chose; `None` where the peer cannot
    /// do its part.
    pub open spec fn chosen_source(self, choice: AudioChoice) -> Option<Option<String>> {
        match choice {
            AudioChoice::Off => Some(None),
            AudioChoice::Local => if self.support.audio_playback && self.support.audio_route {
                Some(Some(self.local_fingerprint))
            } else {
                None
            },
            AudioChoice::Peer => if self.support.audio_capture {
                Some(Some(self.peer_fingerprint))
            } else {
                None
            },
        }
    }

    fn choose_source(&self, choice: AudioChoice) -> (source: Option<Option<String>>)
        ensures
            source == self.chosen_source(choice),
    {
        match choice {
            AudioChoice::Off => Some(None),
            AudioChoice::Local => if self.support.audio_playback && self.support.audio_route {
                Some(Some(self.local_fingerprint.clone()))
            } else {
                None
            },
            AudioChoice::Peer => if self.support.audio_capture {
                Some(Some(self.peer_fingerprint.clone()))
            } else {
                None
            },
        }
    }

    /// What the user asked for.
    pub open spec fn after_tray(self, command: TrayCommand, roles: Roles, now: Instant) -> (
        Self,
        Seq<Effect>,
    ) {
        match command {
            TrayCommand::OpenSettings => (self, nothing().push(Effect::OpenSettings)),
            TrayCommand::ToggleInputForwarding => self.after_toggle(roles),
            TrayCommand::SetController(choice) => self.after_switch(
                match choice {
                    ControllerChoice::Local => self.local_fingerprint,
                    ControllerChoice::Peer => self.peer_fingerprint,
                },
                roles,
                now,
            ),
            TrayCommand::SetAudio(choice) => match self.chosen_source(choice) {
                Some(source) => self.after_source(source, true, choice),
                None => (self, nothing()),
            },
            TrayCommand::Disconnect => if roles.transitioning {
                (self, nothing())
            } else {
                self.after_disconnect()
            },
            TrayCommand::Reconnect => self.after_reconnect(),
            TrayCommand::Quit => (
                self,
                nothing().push(Effect::Exit(ControllerSessionExit::QuitRequested)),
            ),
            TrayCommand::ArmPairing => (self, nothing()),
        }
    }

    /// The user has asked for something.
    pub fn on_tray(&mut self, command: TrayCommand, roles: &Roles, now: Instant) -> (out: Vec<
        Effect,
    >)
        ensures
            (*final(self), out@) == old(self).after_tray(command, *roles, now),
    {
        let mut out: Vec<Effect> = Vec::new();
        match command {
            TrayCommand::OpenSettings => {
                out.push(Effect::OpenSettings);
                out
            },
            TrayCommand::ToggleInputForwarding => self.toggle(roles),
            TrayCommand::SetController(choice) => {
                let requested: String = match choice {
                    ControllerChoice::Local => self.local_fingerprint.clone(),
                    ControllerChoice::Peer => self.peer_fingerprint.clone(),
                };
                self.switch(requested, roles, now)
            },
            TrayCommand::SetAudio(choice) => match self.choose_source(choice) {
                Some(source) => self.set_source(source, true, choice),
                None => out,
            },
            TrayCommand::Disconnect => {
                if roles.transitioning {
                    out
                } else {
                    self.disconnect()
                }
            },
            TrayCommand::Reconnect => self.reconnect(),
            TrayCommand::Quit => {
                out.push(Effect::Exit(ControllerSessionExit::QuitRequested));
                out
            },
            TrayCommand::ArmPairing => out,
        }
    }
}

impl ConnectorSession {
    /// Input of the peer is done here only in the committed epoch, while the
    /// peer controls, forwards, is not paused and its pointer has entered.
    pub open spec fn takes_input(self, input: InputFrame) -> bool {
        input.role_epoch == self.role_epoch && !self.local_is_controller
            && self.input_forwarding_enabled && !self.session_paused
    }

    /// Input of the peer. A release of all keys also keeps what follows out
    /// until the pointer enters again.
    pub open spec fn after_input(self, input: InputFrame, accepts_input: bool) -> Seq<Effect> {
        if !self.takes_input(input) {
            nothing()
        } else if input.event == InputEvent::AllKeysUp {
            nothing().push(Effect::SuspendInput).push(Effect::AllKeysUp)
        } else if !accepts_input {
            nothing()
        } else {
            nothing().push(Effect::Inject(input.event)).push(
                if input.event is PointerMotion {
                    Effect::CheckReturnEdge
                } else {
                    Effect::Tray(TrayUpdate::InputEvent)
                },
            )
        }
    }

    fn on_input(&self, input: InputFrame, accepts_input: bool) -> (out: Vec<Effect>)
        ensures
            out@ == self.after_input(input, accepts_input),
    {
        let mut out: Vec<Effect> = Vec::new();
        if input.role_epoch == self.role_epoch && !self.local_is_controller
            && self.input_forwarding_enabled && !self.session_paused {
            if input.event == InputEvent::AllKeysUp {
                out.push(Effect::SuspendInput);
                out.push(Effect::AllKeysUp);
            } else if accepts_input {
                out.push(Effect::Inject(input.event));
                match input.event {
                    InputEvent::PointerMotion { .. } => {
                        out.push(Effect::CheckReturnEdge);
                    },
                    _ => {
                        out.push(Effect::Tray(TrayUpdate::InputEvent));
                    },
                }
            }
        }
        out
    }

    /// What is done when the pointer was looked at where it may return: where
    /// it does, input stops and the peer is told.
    pub open spec fn after_return_edge(self, left: Option<ControlEvent>) -> Seq<Effect> {
        (match left {
            Some(event) => nothing()
                .push(Effect::SuspendInput)
                .push(Effect::TryAllKeysUp)
                .push(Effect::Send(Message::Control { role_epoch: self.role_epoch, event })),
            None => nothing(),
        }).push(Effect::Tray(TrayUpdate::InputEvent))
    }

    /// The pointer was looked for at the edge that it returns over. Where it
    /// has come there, its input is suspended and the peer is told.
    pub fn on_return_edge(&self, left: Option<ControlEvent>) -> (out: Vec<Effect>)
        ensures
            out@ == self.after_return_edge(left),
    {
        let mut out: Vec<Effect> = Vec::new();
        if let Some(event) = left {
            out.push(Effect::SuspendInput);
            out.push(Effect::TryAllKeysUp);
            out.push(Effect::Send(Message::Control { role_epoch: self.role_epoch, event }));
        }
        out.push(Effect::Tray(TrayUpdate::InputEvent));
        out
    }

    /// The peer switches forwarding.
    pub open spec fn after_forwarding_set(self, enabled: bool) -> (Self, Seq<Effect>) {
        let captures = self.local_is_controller && self.has_capture;
        (
            ConnectorSession { input_forwarding_enabled: enabled, input_active: false, ..self },
            nothing()
                .push_if(captures && enabled && !self.session_paused, Effect::Arm)
                .push_if(captures && !enabled, Effect::Disarm)
                .push_if(!captures && !enabled, Effect::SuspendInput)
                .push_if(!captures && !enabled, Effect::TryAllKeysUp)
                .push(Effect::Tray(TrayUpdate::InputForwarding(enabled))),
        )
    }

    fn set_forwarding(&mut self, enabled: bool) -> (out: Vec<Effect>)
        ensures
            (*final(self), out@) == old(self).after_forwarding_set(enabled),
    {
        let mut out: Vec<Effect> = Vec::new();
        let captures: bool = self.local_is_controller && self.has_capture;
        self.input_forwarding_enabled = enabled;
        self.input_active = false;
        push_when(&mut out, captures && enabled && !self.session_paused, Effect::Arm);
        push_when(&mut out, captures && !enabled, Effect::Disarm);
        push_when(&mut out, !captures && !enabled, Effect::SuspendInput);
        push_when(&mut out, !captures && !enabled, Effect::TryAllKeysUp);
        out.push(Effect::Tray(TrayUpdate::InputForwarding(enabled)));
        out
    }

    /// Where the pointer goes, in the committed epoch: back to this computer
    /// if it controls, or into it if it does not.
    pub open spec fn after_control(self, control: ControlFrame) -> (Self, Seq<Effect>) {
        if control.role_epoch != self.role_epoch {
            (self, nothing())
        } else {
            match control.event {
                ControlEvent::LeaveRemote { edge, normalized_position } =>
                if self.local_is_controller {
                    (
                        ConnectorSession { input_active: false, ..self },
                        nothing()
                            .push(Effect::Send(keys_up(self.role_epoch)))
                            .push_if(
                                self.has_capture,
                                Effect::Release { edge: Some((edge, normalized_position)) },
                            ),
                    )
                } else {
                    (self, nothing())
                },
                ControlEvent::ReleaseToLocal { .. } => if self.local_is_controller {
                    (
                        ConnectorSession { input_active: false, ..self },
                        only_if(self.has_capture, Effect::Release { edge: None }),
                    )
                } else {
                    (self, nothing())
                },
                ControlEvent::EnterRemote { .. } => if self.local_is_controller {
                    (self, nothing())
                } else {
                    (
                        self,
                        nothing()
                            .push(Effect::ObserveControl(control.event))
                            .push(Effect::RecordControl(control.event)),
                    )
                },
                ControlEvent::SetInputForwarding { enabled } => self.after_forwarding_set(enabled),
            }
        }
    }

    fn on_control(&mut self, control: ControlFrame) -> (out: Vec<Effect>)
        ensures
            (*final(self), out@) == old(self).after_control(control),
    {
        let mut out: Vec<Effect> = Vec::new();
        if control.role_epoch != self.role_epoch {
            return out;
        }
        match control.event {
            ControlEvent::LeaveRemote { edge, normalized_position } => {
                if self.local_is_controller {
                    self.input_active = false;
                    out.push(Effect::Send(self.send_keys_up()));
                    push_when(
                        &mut out,
                        self.has_capture,
                        Effect::Release { edge: Some((edge, normalized_position)) },
                    );
                }
                out
            },
            ControlEvent::ReleaseToLocal { .. } => {
                if self.local_is_controller {
                    self.input_active = false;
                    push_when(&mut out, self.has_capture, Effect::Release { edge: None });
                }
                out
            },
            ControlEvent::EnterRemote { .. } => {
                if !self.local_is_controller {
                    out.push(Effect::ObserveControl(control.event));
                    out.push(Effect::RecordControl(control.event));
                }
                out
            },
            ControlEvent::SetInputForwarding { enabled } => self.set_forwarding(enabled),
        }
    }

    /// The peer asks for a change of roles between the two, answers one, or
    /// pauses. What only the connector decides is passed over.
    pub open spec fn after_role(self, event: RoleEvent, roles: Roles, now: Instant) -> (
        Self,
        Seq<Effect>,
    ) {
        match event {
            RoleEvent::Request { controller_fingerprint } => if controller_fingerprint@
                == self.local_fingerprint@ || controller_fingerprint@ == self.peer_fingerprint@ {
                self.after_switch(controller_fingerprint, roles, now)
            } else {
                (self, nothing())
            },
            RoleEvent::Ready { role_epoch, capture_ready, inject_ready, failure_detail } => (
                self,
                self.after_ready(role_epoch, capture_ready, inject_ready, failure_detail),
            ),
            RoleEvent::SetPaused { paused } => if roles.transitioning {
                (self, nothing())
            } else {
                self.after_pause(paused)
            },
            _ => (self, nothing()),
        }
    }

    fn on_role(&mut self, event: RoleEvent, roles: &Roles, now: Instant) -> (out: Vec<Effect>)
        ensures
            (*final(self), out@) == old(self).after_role(event, *roles, now),
    {
        let out: Vec<Effect> = Vec::new();
        match event {
            RoleEvent::Request { controller_fingerprint } => {
                if controller_fingerprint == self.local_fingerprint || controller_fingerprint
                    == self.peer_fingerprint {
                    self.switch(controller_fingerprint, roles, now)
                } else {
                    out
                }
            },
            RoleEvent::Ready { role_epoch, capture_ready, inject_ready, failure_detail } => {
                self.on_ready(role_epoch, capture_ready, inject_ready, failure_detail)
            },
            RoleEvent::SetPaused { paused } => {
                if roles.transitioning {
                    out
                } else {
                    self.pause(paused)
                }
            },
            _ => out,
        }
    }

    /// A source of audio that the peer can ask for.
    pub open spec fn may_request(self, source: Option<String>) -> bool {
        ||| source is None
        ||| is_named(source, self.local_fingerprint) && self.support.audio_playback
            && self.support.audio_route
        ||| is_named(source, self.peer_fingerprint) && self.support.audio_capture
    }

    /// The peer asks for a source of audio; one that cannot be is answered
    /// with the one that is.
    pub open spec fn after_route_request(self, source: Option<String>) -> (Self, Seq<Effect>) {
        if self.may_request(source) {
            self.after_source(
                source,
                true,
                audio_choice(source, self.local_fingerprint, self.peer_fingerprint),
            )
        } else {
            (self, nothing().push(Effect::Send(self.route())))
        }
    }

    fn on_route_request(&mut self, source: Option<String>) -> (out: Vec<Effect>)
        ensures
            (*final(self), out@) == old(self).after_route_request(source),
    {
        let mut out: Vec<Effect> = Vec::new();
        if source.is_none() || names(&source, &self.local_fingerprint)
            && self.support.audio_playback && self.support.audio_route || names(
            &source,
            &self.peer_fingerprint,
        ) && self.support.audio_capture {
            let shown: AudioChoice = linux_audio_choice(
                &source,
                &self.local_fingerprint,
                &self.peer_fingerprint,
            );
            self.set_source(source, true, shown)
        } else {
            out.push(Effect::Send(self.tell_route()));
            out
        }
    }

    /// A peer that knows no sources switches its own audio.
    pub open spec fn after_audio_enabled(self, enabled: bool) -> (Self, Seq<Effect>) {
        let source = if enabled {
            Some(self.peer_fingerprint)
        } else {
            None
        };
        self.after_source(
            source,
            false,
            audio_choice(source, self.local_fingerprint, self.peer_fingerprint),
        )
    }

    fn on_audio_enabled(&mut self, enabled: bool) -> (out: Vec<Effect>)
        ensures
            (*final(self), out@) == old(self).after_audio_enabled(enabled),
    {
        let source: Option<String> = if enabled {
            Some(self.peer_fingerprint.clone())
        } else {
            None
        };
        let shown: AudioChoice = linux_audio_choice(
            &source,
            &self.local_fingerprint,
            &self.peer_fingerprint,
        );
        self.set_source(source, false, shown)
    }

    /// The peer starts to take this side's audio: what ran before is stopped.
    pub open spec fn after_audio_start(
        self,
        udp_port: u16,
        session_id: [u8; 16],
        session_salt: [u8; 4],
        session_key: [u8; 32],
        codec: AudioCodec,
        frame_ms: u16,
    ) -> (Self, Seq<Effect>) {
        if !self.is_source() || udp_port == 0 || codec != AudioCodec::PcmS16Stereo48Khz || frame_ms
            != FRAME_MS {
            (self, nothing())
        } else {
            let generation = next_generation(self.audio.generation);
            (
                ConnectorSession {
                    audio: AudioTransport {
                        starting: true,
                        generation,
                        sender: false,
                        ..self.audio
                    },
                    ..self
                },
                nothing()
                    .push_if(self.audio.sender, Effect::StopAudioSender)
                    .push_if(self.audio.starting, Effect::AbortAudioStart)
                    .push(
                        Effect::StartAudioSender {
                            generation,
                            udp_port,
                            session_id,
                            session_salt,
                            session_key,
                        },
                    ),
            )
        }
    }

    fn on_audio_start(
        &mut self,
        udp_port: u16,
        session_id: [u8; 16],
        session_salt: [u8; 4],
        session_key: [u8; 32],
        codec: AudioCodec,
        frame_ms: u16,
    ) -> (out: Vec<Effect>)
        ensures
            (*final(self), out@) == old(self).after_audio_start(
                udp_port,
                session_id,
                session_salt,
                session_key,
                codec,
                frame_ms,
            ),
    {
        let mut out: Vec<Effect> = Vec::new();
        let is_source: bool = names(&self.audio_source, &self.local_fingerprint);
        if !is_source || udp_port == 0 || codec != AudioCodec::PcmS16Stereo48Khz || frame_ms
            != FRAME_MS {
            return out;
        }
        push_when(&mut out, self.audio.sender, Effect::StopAudioSender);
        push_when(&mut out, self.audio.starting, Effect::AbortAudioStart);
        self.audio.sender = false;
        self.audio.starting = true;
        self.audio.generation = if self.audio.generation == u64::MAX {
            0
        } else {
            self.audio.generation + 1
        };
        out.push(
            Effect::StartAudioSender {
                generation: self.audio.generation,
                udp_port,
                session_id,
                session_salt,
                session_key,
            },
        );
        out
    }

    /// How the two sides agree on the audio.
    pub open spec fn after_audio(self, control: AudioControl) -> (Self, Seq<Effect>) {
        match control {
            AudioControl::RequestRoute { source_fingerprint } => self.after_route_request(
                source_fingerprint,
            ),
            AudioControl::Offer { udp_port, codecs } => (
                self,
                only_if(
                    is_named(self.audio_source, self.peer_fingerprint) && codecs@.contains(
                        AudioCodec::PcmS16Stereo48Khz,
                    ),
                    Effect::AnswerAudioOffer { udp_port },
                ),
            ),
            AudioControl::Start {
                udp_port,
                session_id,
                session_salt,
                session_key,
                codec,
                frame_ms,
                ..
            } => self.after_audio_start(
                udp_port,
                session_id,
                session_salt,
                session_key,
                codec,
                frame_ms,
            ),
            AudioControl::Stop { .. } => (
                ConnectorSession { audio: self.audio.stopped(), ..self },
                self.audio.stopping(nothing()),
            ),
            AudioControl::SetEnabled { enabled } => self.after_audio_enabled(enabled),
            AudioControl::SetRoute { .. } | AudioControl::State { .. } => (self, nothing()),
        }
    }

    fn on_audio(&mut self, control: AudioControl) -> (out: Vec<Effect>)
        ensures
            (*final(self), out@) == old(self).after_audio(control),
    {
        let mut out: Vec<Effect> = Vec::new();
        match control {
            AudioControl::RequestRoute { source_fingerprint } => {
                self.on_route_request(source_fingerprint)
            },
            AudioControl::Offer { udp_port, codecs } => {
                let wanted: bool = names(&self.audio_source, &self.peer_fingerprint);
                let offered: bool = offers_pcm(&codecs);
                push_when(&mut out, wanted && offered, Effect::AnswerAudioOffer { udp_port });
                out
            },
            AudioControl::Start {
                udp_port,
                session_id,
                session_salt,
                session_key,
                codec,
                frame_ms,
                ..
            } => self.on_audio_start(
                udp_port,
                session_id,
                session_salt,
                session_key,
                codec,
                frame_ms,
            ),
            AudioControl::Stop { .. } => {
                self.audio.stop(&mut out);
                out
            },
            AudioControl::SetEnabled { enabled } => self.on_audio_enabled(enabled),
            AudioControl::SetRoute { .. } | AudioControl::State { .. } => out,
        }
    }

    /// What a frame of the peer does.
    pub open spec fn after_frame(
        self,
        frame: Frame,
        roles: Roles,
        accepts_input: bool,
        now: Instant,
    ) -> (Self, Seq<Effect>) {
        match frame {
            Frame::Input(input) => (self, self.after_input(input, accepts_input)),
            Frame::Control(control) => self.after_control(control),
            Frame::Role(event) => self.after_role(event, roles, now),
            Frame::Audio(control) => self.after_audio(control),
            Frame::Clipboard(event) => (
                self,
                only_if(!self.session_paused, Effect::SyncClipboard(event)),
            ),
            Frame::Error(error) => (
                self,
                nothing().push(
                    Effect::Fail(
                        SessionFailure::PeerError { code: error.code, message: error.message },
                    ),
                ),
            ),
            _ => (self, nothing()),
        }
    }

    /// A frame of the peer has come.
    pub fn on_frame(&mut self, frame: Frame, roles: &Roles, accepts_input: bool, now: Instant)
        -> (out: Vec<Effect>)
        ensures
            (*final(self), out@) == old(self).after_frame(frame, *roles, accepts_input, now),
    {
        let mut out: Vec<Effect> = Vec::new();
        match frame {
            Frame::Input(input) => self.on_input(input, accepts_input),
            Frame::Control(control) => self.on_control(control),
            Frame::Role(event) => self.on_role(event, roles, now),
            Frame::Audio(control) => self.on_audio(control),
            Frame::Clipboard(event) => {
                push_when(&mut out, !self.session_paused, Effect::SyncClipboard(event));
                out
            },
            Frame::Error(error) => {
                out.push(
                    Effect::Fail(
                        SessionFailure::PeerError { code: error.code, message: error.message },
                    ),
                );
                out
            },
            _ => out,
        }
    }
}

} // verus!
