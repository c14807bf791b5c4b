//! The session of the computer that was connected to.
//!
//! The connector decides who controls whom; the listener follows, asks for
//! changes, and answers when it is ready for one.

use crate::audio::FRAME_MS;
use crate::clock::{millis, Instant};
use crate::protocol::{
    AudioCodec, AudioControl, AudioStreamState, ClipboardCancelReason, ControlEvent, ControlFrame,
    Edge, Frame, InputEvent, InputFrame, ReleaseReason, RoleEvent, RoleState, RoleTransitionState,
    INITIAL_ROLE_EPOCH,
};
use crate::session::{
    audio_choice, copy_text, is_named, linux_audio_choice, names, next_generation, nothing,
    only_if, opposite, opposite_edge, push_when, shows_audio, AudioChoice, AudioTransport, CaptureEvent,
    ControllerChoice, ControllerSessionExit, Detail, Effect, EffectList, LivenessEvent, Message,
    PeerSupport, SessionFailure, TrayCommand, TrayUpdate,
};
use crate::stats::{bump, bumped, ReceiverInputStats};
use vstd::prelude::*;

verus! {

/// How long a change of roles may take, in milliseconds.
pub const ROLE_CHANGE_MILLIS: u64 = 5_000;

/// The state of a listener's session.
#[derive(Debug)]
pub struct ListenerSession {
    pub support: PeerSupport,
    pub local_fingerprint: String,
    pub peer_fingerprint: String,
    pub input_forwarding_enabled: bool,
    pub session_paused: bool,
    pub role_epoch: u64,
    /// What the connector last committed.
    pub role_state: RoleState,
    pub local_is_controller: bool,
    /// The local pointer is at the peer's.
    pub capture_input_active: bool,
    /// The capture of local input is set up.
    pub has_capture: bool,
    /// The change of roles that this side has answered.
    pub prepared_role: Option<RoleState>,
    pub role_request_deadline: Option<Instant>,
    pub audio_source: Option<String>,
    pub audio: AudioTransport,
    pub heartbeat_sequence: u64,
    pub stats: ReceiverInputStats,
}

/// What is found out about a frame beside what it says.
#[derive(Clone, Copy, Debug, PartialEq, Eq, Structural)]
pub struct Verdict {
    /// The pointer has entered in this epoch and not left since.
    pub accepts_input: bool,
    /// A prepare follows from the committed roles, or a commit from the
    /// prepare that was answered.
    pub role_event_valid: bool,
}

/// Whether some codecs hold the one that this crate speaks.
pub fn offers_pcm(codecs: &Vec<AudioCodec>) -> (offered: bool)
    ensures
        offered == codecs@.contains(AudioCodec::PcmS16Stereo48Khz),
{
    let mut i: usize = 0;
    while i < codecs.len()
        invariant
            i <= codecs@.len(),
            forall|k: int|
                0 <= k < i ==> #[trigger] codecs@[k] != AudioCodec::PcmS16Stereo48Khz,
        decreases codecs@.len() - i,
    {
        if codecs[i] == AudioCodec::PcmS16Stereo48Khz {
            return true;
        }
        i = i + 1;
    }
    false
}

/// Whether two optional texts are both missing or the same.
pub open spec fn same_text(a: Option<String>, b: Option<String>) -> bool {
    match (a, b) {
        (Some(a), Some(b)) => a@ == b@,
        (None, None) => true,
        _ => false,
    }
}

/// Whether two optional texts are both missing or the same.
pub fn is_same_text(a: &Option<String>, b: &Option<String>) -> (same: bool)
    ensures
        same == same_text(*a, *b),
{
    match a {
        Some(a) => match b {
            Some(b) => *a == *b,
            None => false,
        },
        None => b.is_none(),
    }
}

/// A release of all keys, as said to the peer.
pub open spec fn keys_up(role_epoch: u64) -> Message {
    Message::Input { role_epoch, event: InputEvent::AllKeysUp }
}

/// A state of the audio stream, as said to the peer.
pub open spec fn audio_state(state: AudioStreamState) -> Effect {
    Effect::Send(Message::AudioState { state, detail: None })
}

impl ListenerSession {
    /// Local input goes to the peer.
    pub open spec fn forwards(self) -> bool {
        self.local_is_controller && self.input_forwarding_enabled && !self.session_paused
    }

    /// The capture of local input is to be armed.
    pub open spec fn arms(self) -> bool {
        self.forwards() && self.has_capture
    }

    /// What the tray shows of the roles.
    pub open spec fn shown_roles(self) -> Effect {
        Effect::Tray(
            TrayUpdate::RoleAssignment {
                local_is_controller: self.local_is_controller,
                switch_available: self.support.can_switch_roles() && !self.session_paused,
            },
        )
    }

    /// What the tray shows of the audio: that of a Linux node is not available
    /// in either direction.
    pub open spec fn shown_audio(self, choice: AudioChoice) -> Effect {
        Effect::Tray(
            TrayUpdate::AudioRoute {
                choice,
                local_available: self.support.audio_playback && !self.support.is_linux_node(),
                peer_available: self.support.audio_capture && self.support.audio_route
                    && !self.support.is_linux_node(),
            },
        )
    }

    fn is_armed(&self) -> (arms: bool)
        ensures
            arms == self.arms(),
    {
        self.local_is_controller && self.input_forwarding_enabled && !self.session_paused
            && self.has_capture
    }

    fn show_roles(&self) -> (effect: Effect)
        ensures
            effect == self.shown_roles(),
    {
        Effect::Tray(
            TrayUpdate::RoleAssignment {
                local_is_controller: self.local_is_controller,
                switch_available: self.support.role_switch_available() && !self.session_paused,
            },
        )
    }

    fn show_audio(&self, choice: AudioChoice) -> (effect: Effect)
        ensures
            effect == self.shown_audio(choice),
    {
        Effect::Tray(
            TrayUpdate::AudioRoute {
                choice,
                local_available: self.support.audio_playback && !self.support.linux_node(),
                peer_available: self.support.audio_capture && self.support.audio_route
                    && !self.support.linux_node(),
            },
        )
    }

    fn send_keys_up(&self) -> (message: Message)
        ensures
            message == keys_up(self.role_epoch),
    {
        Message::Input { role_epoch: self.role_epoch, event: InputEvent::AllKeysUp }
    }

    /// The peer controls, in the first epoch, until it says otherwise.
    pub open spec fn initial(
        support: PeerSupport,
        local_fingerprint: String,
        peer_fingerprint: String,
        listener_position: Edge,
    ) -> Self {
        ListenerSession {
            support,
            local_fingerprint,
            peer_fingerprint,
            input_forwarding_enabled: true,
            session_paused: false,
            role_epoch: INITIAL_ROLE_EPOCH,
            role_state: RoleState {
                controller_fingerprint: Some(peer_fingerprint),
                role_epoch: INITIAL_ROLE_EPOCH,
                transition: RoleTransitionState::Stable,
                listener_position,
                paused: false,
                failure_detail: None,
            },
            local_is_controller: false,
            capture_input_active: false,
            has_capture: false,
            prepared_role: None,
            role_request_deadline: None,
            audio_source: None,
            audio: AudioTransport::idle(),
            heartbeat_sequence: 0,
            stats: ReceiverInputStats::zero(),
        }
    }

    /// What a session begins with: the tray shows forwarding, and no audio.
    pub open spec fn beginning(self) -> Seq<Effect> {
        nothing()
            .push(Effect::Tray(TrayUpdate::InputForwarding(self.input_forwarding_enabled)))
            .push(self.shown_audio(AudioChoice::Off))
    }

    /// A session that begins, and what the tray shows of it.
    pub fn start(
        support: PeerSupport,
        local_fingerprint: String,
        peer_fingerprint: String,
        listener_position: Edge,
    ) -> (begun: (Self, Vec<Effect>))
        ensures
            begun.0 == Self::initial(
                support,
                local_fingerprint,
                peer_fingerprint,
                listener_position,
            ),
            begun.1@ == begun.0.beginning(),
            support.is_linux_node() ==> !exists|i: int|
                0 <= i < begun.1@.len() && shows_audio(#[trigger] begun.1@[i]),
    {
        let session = ListenerSession {
            support,
            local_fingerprint,
            peer_fingerprint: peer_fingerprint.clone(),
            input_forwarding_enabled: true,
            session_paused: false,
            role_epoch: INITIAL_ROLE_EPOCH,
            role_state: RoleState {
                controller_fingerprint: Some(peer_fingerprint),
                role_epoch: INITIAL_ROLE_EPOCH,
                transition: RoleTransitionState::Stable,
                listener_position,
                paused: false,
                failure_detail: None,
            },
            local_is_controller: false,
            capture_input_active: false,
            has_capture: false,
            prepared_role: None,
            role_request_deadline: None,
            audio_source: None,
            audio: AudioTransport::new(),
            heartbeat_sequence: 0,
            stats: ReceiverInputStats::new(),
        };
        let mut out: Vec<Effect> = Vec::new();
        out.push(Effect::Tray(TrayUpdate::InputForwarding(true)));
        out.push(session.show_audio(AudioChoice::Off));
        (session, out)
    }

    /// Input flows in the direction that the roles give it.
    pub open spec fn is_input_active(self, accepts_input: bool) -> bool {
        if self.local_is_controller {
            self.capture_input_active
        } else {
            accepts_input
        }
    }

    /// Whether input flows in the direction that the roles give it; this
    /// shortens the time that a silent peer is given.
    pub fn input_active(&self, accepts_input: bool) -> (active: bool)
        ensures
            active == self.is_input_active(accepts_input),
    {
        if self.local_is_controller {
            self.capture_input_active
        } else {
            accepts_input
        }
    }

    /// Whether heartbeats come at the fast rate.
    pub fn heartbeat_is_fast(&self, accepts_input: bool) -> (fast: bool)
        ensures
            fast == (self.is_input_active(accepts_input) || self.prepared_role is Some),
    {
        self.input_active(accepts_input) || self.prepared_role.is_some()
    }

    /// Whether the next piece of an image may be sent: not in a paused session.
    pub fn may_send_images(&self) -> (may: bool)
        ensures
            may == !self.session_paused,
    {
        !self.session_paused
    }

    /// The request for a change of roles has not been answered in time.
    pub open spec fn request_timed_out(self, now: Instant) -> bool {
        self.role_request_deadline matches Some(deadline) && now.nanos >= deadline.nanos
    }

    /// A request that was not answered is given up, and the committed roles
    /// stay. A silent peer loses the input first and the session later.
    pub open spec fn after_watchdog(self, now: Instant, liveness: Option<LivenessEvent>) -> (
        Self,
        Seq<Effect>,
    ) {
        let (s, given_up) = if self.request_timed_out(now) {
            (
                ListenerSession { role_request_deadline: None, prepared_role: None, ..self },
                nothing().push_if(self.arms(), Effect::TryArm).push(self.shown_roles()),
            )
        } else {
            (self, Seq::empty())
        };
        match liveness {
            Some(LivenessEvent::SoftInputTimeout) => (
                ListenerSession { capture_input_active: false, ..s },
                given_up
                    .push(Effect::SuspendInput)
                    .push(Effect::TryAllKeysUp)
                    .push_if(s.has_capture, Effect::TryRelease)
                    .push(
                        Effect::TrySend(
                            Message::Control {
                                role_epoch: s.role_epoch,
                                event: ControlEvent::ReleaseToLocal {
                                    reason: ReleaseReason::HeartbeatTimeout,
                                },
                            },
                        ),
                    ),
            ),
            Some(LivenessEvent::HardSessionTimeout) => (
                s,
                given_up.push(Effect::Fail(SessionFailure::PeerSilent)),
            ),
            None => (s, given_up),
        }
    }

    /// The regular look at the clock.
    pub fn on_watchdog(&mut self, now: Instant, liveness: Option<LivenessEvent>) -> (out: Vec<
        Effect,
    >)
        ensures
            (*final(self), out@) == old(self).after_watchdog(now, liveness),
    {
        let mut out: Vec<Effect> = Vec::new();
        let timed_out: bool = match self.role_request_deadline {
            Some(deadline) => now.nanos >= deadline.nanos,
            None => false,
        };
        if timed_out {
            self.role_request_deadline = None;
            self.prepared_role = None;
            let arms: bool = self.is_armed();
            push_when(&mut out, arms, Effect::TryArm);
            out.push(self.show_roles());
        }
        match liveness {
            Some(LivenessEvent::SoftInputTimeout) => {
                self.capture_input_active = false;
                out.push(Effect::SuspendInput);
                out.push(Effect::TryAllKeysUp);
                push_when(&mut out, self.has_capture, Effect::TryRelease);
                out.push(
                    Effect::TrySend(
                        Message::Control {
                            role_epoch: self.role_epoch,
                            event: ControlEvent::ReleaseToLocal {
                                reason: ReleaseReason::HeartbeatTimeout,
                            },
                        },
                    ),
                );
            },
            Some(LivenessEvent::HardSessionTimeout) => {
                out.push(Effect::Fail(SessionFailure::PeerSilent));
            },
            None => {},
        }
        out
    }

    /// Local input goes to the peer while this side controls, forwards and is
    /// not paused. A change of the monitors spoils a capture that was just set
    /// up; otherwise it is armed again.
    pub open spec fn after_capture(self, event: Option<CaptureEvent>) -> (Self, Seq<Effect>) {
        match event {
            Some(CaptureEvent::Activated { edge, normalized_position, .. }) => if self.forwards() {
                (
                    ListenerSession { capture_input_active: true, ..self },
                    nothing().push(Effect::Send(
                            Message::Control {
                                role_epoch: self.role_epoch,
                                event: ControlEvent::EnterRemote { edge, normalized_position },
                            },
                        )),
                )
            } else {
                (self, Seq::empty())
            },
            Some(CaptureEvent::Input(event)) => if self.forwards() {
                (
                    self,
                    nothing()
                        .push(Effect::Send(Message::Input { role_epoch: self.role_epoch, event }))
                        .push(Effect::Tray(TrayUpdate::InputEvent)),
                )
            } else {
                (self, Seq::empty())
            },
            Some(CaptureEvent::Deactivated) | Some(CaptureEvent::EmergencyReleased) => (
                ListenerSession { capture_input_active: false, ..self },
                nothing().push(Effect::TrySend(keys_up(self.role_epoch))),
            ),
            Some(CaptureEvent::LayoutChanged { .. }) => match self.prepared_role {
                Some(prepared) => (
                    ListenerSession {
                        capture_input_active: false,
                        prepared_role: None,
                        role_request_deadline: None,
                        ..self
                    },
                    nothing().push(Effect::TrySend(
                            Message::RoleReady {
                                role_epoch: prepared.role_epoch,
                                capture_ready: false,
                                inject_ready: true,
                                failure: Some(Detail::LayoutChangedDuringPreflight),
                            },
                        )),
                ),
                None => (
                    ListenerSession { capture_input_active: false, ..self },
                    only_if(self.arms(), Effect::Arm),
                ),
            },
            Some(CaptureEvent::BackendFailed(error)) => (
                self,
                nothing()
                    .push(Effect::TrySend(keys_up(self.role_epoch)))
                    .push(Effect::Fail(SessionFailure::CaptureFailed(error))),
            ),
            None => (
                self,
                only_if(
                    self.has_capture && self.local_is_controller,
                    Effect::Fail(SessionFailure::CaptureStopped),
                ),
            ),
        }
    }

    /// What the capture of local input reports; `None` where it has ended.
    pub fn on_capture(&mut self, event: Option<CaptureEvent>) -> (out: Vec<Effect>)
        ensures
            (*final(self), out@) == old(self).after_capture(event),
    {
        let mut out: Vec<Effect> = Vec::new();
        let forwards: bool = self.local_is_controller && self.input_forwarding_enabled
            && !self.session_paused;
        match event {
            Some(CaptureEvent::Activated { edge, normalized_position, .. }) => {
                if forwards {
                    self.capture_input_active = true;
                    out.push(
                        Effect::Send(
                            Message::Control {
                                role_epoch: self.role_epoch,
                                event: ControlEvent::EnterRemote { edge, normalized_position },
                            },
                        ),
                    );
                }
            },
            Some(CaptureEvent::Input(event)) => {
                if forwards {
                    out.push(Effect::Send(Message::Input { role_epoch: self.role_epoch, event }));
                    out.push(Effect::Tray(TrayUpdate::InputEvent));
                }
            },
            Some(CaptureEvent::Deactivated) | Some(CaptureEvent::EmergencyReleased) => {
                self.capture_input_active = false;
                out.push(Effect::TrySend(self.send_keys_up()));
            },
            Some(CaptureEvent::LayoutChanged { .. }) => {
                self.capture_input_active = false;
                match self.prepared_role.take() {
                    Some(prepared) => {
                        self.role_request_deadline = None;
                        out.push(
                            Effect::TrySend(
                                Message::RoleReady {
                                    role_epoch: prepared.role_epoch,
                                    capture_ready: false,
                                    inject_ready: true,
                                    failure: Some(Detail::LayoutChangedDuringPreflight),
                                },
                            ),
                        );
                    },
                    None => {
                        push_when(&mut out, forwards && self.has_capture, Effect::Arm);
                    },
                }
            },
            Some(CaptureEvent::BackendFailed(error)) => {
                out.push(Effect::TrySend(self.send_keys_up()));
                out.push(Effect::Fail(SessionFailure::CaptureFailed(error)));
            },
            None => {
                push_when(
                    &mut out,
                    self.has_capture && self.local_is_controller,
                    Effect::Fail(SessionFailure::CaptureStopped),
                );
            },
        }
        out
    }

    /// A sign of life goes out, behind the end of an image that came no further.
    pub open spec fn after_heartbeat(self, expired_transfer: Option<u64>) -> (Self, Seq<Effect>) {
        let sequence = (self.heartbeat_sequence + 1) as u64;
        let cancelled = match expired_transfer {
            Some(transfer_id) => nothing().push(Effect::Send(
                    Message::ClipboardCancel {
                        transfer_id,
                        reason: ClipboardCancelReason::TimedOut,
                    },
                )),
            None => Seq::empty(),
        };
        (
            ListenerSession {
                heartbeat_sequence: sequence,
                stats: ReceiverInputStats {
                    heartbeats: bumped(self.stats.heartbeats),
                    ..self.stats
                },
                ..self
            },
            cancelled.push(Effect::Send(Message::Heartbeat { sequence })),
        )
    }

    /// It is time for a sign of life.
    pub fn on_heartbeat(&mut self, expired_transfer: Option<u64>) -> (out: Vec<Effect>)
        requires
            old(self).heartbeat_sequence < u64::MAX,
        ensures
            (*final(self), out@) == old(self).after_heartbeat(expired_transfer),
    {
        let mut out: Vec<Effect> = Vec::new();
        if let Some(transfer_id) = expired_transfer {
            out.push(
                Effect::Send(
                    Message::ClipboardCancel {
                        transfer_id,
                        reason: ClipboardCancelReason::TimedOut,
                    },
                ),
            );
        }
        self.heartbeat_sequence = self.heartbeat_sequence + 1;
        out.push(Effect::Send(Message::Heartbeat { sequence: self.heartbeat_sequence }));
        self.stats.heartbeats = bump(self.stats.heartbeats);
        out
    }

    /// Streams that have ended by themselves are put away and reported.
    pub open spec fn after_status(self, sender_finished: bool, receiver_failure: Option<String>) -> (
        Self,
        Seq<Effect>,
    ) {
        let sender_ended = self.audio.sender && sender_finished;
        let receiver_ended = self.audio.receiver && receiver_failure is Some;
        (
            ListenerSession {
                audio: AudioTransport {
                    sender: self.audio.sender && !sender_finished,
                    receiver: self.audio.receiver && receiver_failure is None,
                    ..self.audio
                },
                ..self
            },
            nothing()
                .push(Effect::LogStatus)
                .push_if(sender_ended, Effect::StopAudioSender)
                .push_if(
                    sender_ended,
                    Effect::TrySend(
                        Message::AudioState {
                            state: AudioStreamState::Error,
                            detail: Some(Detail::AudioCaptureStopped),
                        },
                    ),
                )
                .push_if(
                    receiver_ended,
                    Effect::TrySend(
                        Message::AudioState {
                            state: AudioStreamState::Error,
                            detail: Some(Detail::Other(receiver_failure->Some_0)),
                        },
                    ),
                ),
        )
    }

    /// The regular report. `receiver_failure` says why the receiving stream
    /// has ended, where it has.
    pub fn on_status(&mut self, sender_finished: bool, receiver_failure: Option<String>) -> (out:
        Vec<Effect>)
        ensures
            (*final(self), out@) == old(self).after_status(sender_finished, receiver_failure),
    {
        let mut out: Vec<Effect> = Vec::new();
        out.push(Effect::LogStatus);
        if self.audio.sender && sender_finished {
            self.audio.sender = false;
            out.push(Effect::StopAudioSender);
            out.push(
                Effect::TrySend(
                    Message::AudioState {
                        state: AudioStreamState::Error,
                        detail: Some(Detail::AudioCaptureStopped),
                    },
                ),
            );
        }
        if self.audio.receiver {
            if let Some(failure) = receiver_failure {
                self.audio.receiver = false;
                out.push(
                    Effect::TrySend(
                        Message::AudioState {
                            state: AudioStreamState::Error,
                            detail: Some(Detail::Other(failure)),
                        },
                    ),
                );
            }
        }
        out
    }

    /// A sender of an older route is stopped at once; one of this route runs.
    pub open spec fn after_audio_started(self, generation: u64, result: Result<(), String>) -> (
        Self,
        Seq<Effect>,
    ) {
        if generation != self.audio.generation {
            (self, only_if(result is Ok, Effect::StopStaleAudioSender))
        } else {
            let audio = AudioTransport { starting: false, ..self.audio };
            match result {
                Ok(_) => (
                    ListenerSession { audio: AudioTransport { sender: true, ..audio }, ..self },
                    nothing().push(audio_state(AudioStreamState::Streaming)),
                ),
                Err(error) => (
                    ListenerSession { audio, ..self },
                    nothing().push(Effect::Send(
                            Message::AudioState {
                                state: AudioStreamState::Error,
                                detail: Some(Detail::Other(error)),
                            },
                        )),
                ),
            }
        }
    }

    /// The start of a sender has come to an end.
    pub fn on_audio_started(&mut self, generation: u64, result: Result<(), String>) -> (out: Vec<
        Effect,
    >)
        requires
            old(self).audio.starting,
        ensures
            (*final(self), out@) == old(self).after_audio_started(generation, result),
    {
        let mut out: Vec<Effect> = Vec::new();
        if generation != self.audio.generation {
            push_when(&mut out, result.is_ok(), Effect::StopStaleAudioSender);
        } else {
            self.audio.starting = false;
            match result {
                Ok(_) => {
                    self.audio.sender = true;
                    out.push(
                        Effect::Send(
                            Message::AudioState { state: AudioStreamState::Streaming, detail: None },
                        ),
                    );
                },
                Err(error) => {
                    out.push(
                        Effect::Send(
                            Message::AudioState {
                                state: AudioStreamState::Error,
                                detail: Some(Detail::Other(error)),
                            },
                        ),
                    );
                },
            }
        }
        out
    }

    /// A receiver that has started runs; one that has not is reported.
    pub open spec fn after_offer_answered(self, result: Result<(), String>) -> (
        Self,
        Seq<Effect>,
    ) {
        match result {
            Ok(_) => (
                ListenerSession {
                    audio: AudioTransport { receiver: true, ..self.audio },
                    ..self
                },
                nothing().push(audio_state(AudioStreamState::Streaming)),
            ),
            Err(error) => (
                self,
                nothing().push(Effect::Send(
                        Message::AudioState {
                            state: AudioStreamState::Error,
                            detail: Some(Detail::Other(error)),
                        },
                    )),
            ),
        }
    }

    /// An offer of audio was answered, and a receiver started or not.
    pub fn on_offer_answered(&mut self, result: Result<(), String>) -> (out: Vec<Effect>)
        ensures
            (*final(self), out@) == old(self).after_offer_answered(result),
    {
        let mut out: Vec<Effect> = Vec::new();
        match result {
            Ok(_) => {
                self.audio.receiver = true;
                out.push(
                    Effect::Send(
                        Message::AudioState { state: AudioStreamState::Streaming, detail: None },
                    ),
                );
            },
            Err(error) => {
                out.push(
                    Effect::Send(
                        Message::AudioState {
                            state: AudioStreamState::Error,
                            detail: Some(Detail::Other(error)),
                        },
                    ),
                );
            },
        }
        out
    }

    /// A change of the local clipboard is offered, unless the session is
    /// paused. A watch that has ended begins anew.
    pub open spec fn after_clipboard_watch(self, changed: bool) -> Seq<Effect> {
        if changed {
            only_if(!self.session_paused, Effect::OfferClipboard)
        } else {
            nothing().push(Effect::WatchClipboardAnew)
        }
    }

    /// The local clipboard has changed, or the watch of it has ended.
    pub fn on_clipboard_watch(&self, changed: bool) -> (out: Vec<Effect>)
        ensures
            out@ == self.after_clipboard_watch(changed),
    {
        let mut out: Vec<Effect> = Vec::new();
        if changed {
            push_when(&mut out, !self.session_paused, Effect::OfferClipboard);
        } else {
            out.push(Effect::WatchClipboardAnew);
        }
        out
    }

    /// A clipboard that went over is counted and shown.
    pub open spec fn after_clipboard_synced(self, moved: bool) -> (Self, Seq<Effect>) {
        if moved {
            (
                ListenerSession {
                    stats: ReceiverInputStats {
                        clipboard: bumped(self.stats.clipboard),
                        ..self.stats
                    },
                    ..self
                },
                nothing().push(Effect::Tray(TrayUpdate::ClipboardEvent)),
            )
        } else {
            (self, Seq::empty())
        }
    }

    /// The clipboards were compared; `moved` where one went over.
    pub fn on_clipboard_synced(&mut self, moved: bool) -> (out: Vec<Effect>)
        ensures
            (*final(self), out@) == old(self).after_clipboard_synced(moved),
    {
        let mut out: Vec<Effect> = Vec::new();
        if moved {
            self.stats.clipboard = bump(self.stats.clipboard);
            out.push(Effect::Tray(TrayUpdate::ClipboardEvent));
        }
        out
    }
}

impl ListenerSession {
    /// The fingerprint of the computer that the user chose to control.
    pub open spec fn chosen(self, choice: ControllerChoice) -> String {
        match choice {
            ControllerChoice::Local => self.local_fingerprint,
            ControllerChoice::Peer => self.peer_fingerprint,
        }
    }

    /// The source of audio that the user chose; `None` where the peer cannot
    /// do its part.
    pub open spec fn chosen_source(self, choice: AudioChoice) -> Option<Option<String>> {
        match choice {
            AudioChoice::Off => Some(None),
            AudioChoice::Local => if self.support.audio_playback {
                Some(Some(self.local_fingerprint))
            } else {
                None
            },
            AudioChoice::Peer => if self.support.audio_capture && self.support.audio_route {
                Some(Some(self.peer_fingerprint))
            } else {
                None
            },
        }
    }

    /// A change of roles can be asked for: none is under way, and the chosen
    /// computer does not control already.
    pub open spec fn may_request(self, choice: ControllerChoice) -> bool {
        &&& !self.session_paused
        &&& self.support.can_switch_roles()
        &&& self.prepared_role is None
        &&& self.role_request_deadline is None
        &&& !is_named(self.role_state.controller_fingerprint, self.chosen(choice))
    }

    /// Where the peer can switch roles, a disconnect pauses the session; else
    /// it ends it. Either way no key stays pressed and no audio runs.
    pub open spec fn after_disconnect(self) -> (Self, Seq<Effect>) {
        if self.support.role_switch {
            let s = ListenerSession { session_paused: true, audio: self.audio.stopped(), ..self };
            (
                s,
                self.audio.stopping(nothing())
                    .push(Effect::TryAllKeysUp)
                    .push_if(self.has_capture, Effect::TryRelease)
                    .push_if(self.has_capture, Effect::TryDisarm)
                    .push(Effect::Send(Message::RolePaused { paused: true }))
                    .push(Effect::Tray(TrayUpdate::SessionPaused(true)))
                    .push(s.shown_roles()),
            )
        } else {
            (
                ListenerSession { audio: self.audio.stopped(), ..self },
                self.audio.stopping(nothing())
                    .push(Effect::TryAllKeysUp)
                    .push(
                        Effect::TrySend(
                            Message::Control {
                                role_epoch: self.role_epoch,
                                event: ControlEvent::ReleaseToLocal {
                                    reason: ReleaseReason::UserRequest,
                                },
                            },
                        ),
                    )
                    .push(Effect::Exit(ControllerSessionExit::DisconnectRequested)),
            )
        }
    }

    fn disconnect(&mut self) -> (out: Vec<Effect>)
        ensures
            (*final(self), out@) == old(self).after_disconnect(),
    {
        let mut out: Vec<Effect> = Vec::new();
        self.audio.stop(&mut out);
        out.push(Effect::TryAllKeysUp);
        if self.support.role_switch {
            self.session_paused = true;
            push_when(&mut out, self.has_capture, Effect::TryRelease);
            push_when(&mut out, self.has_capture, Effect::TryDisarm);
            out.push(Effect::Send(Message::RolePaused { paused: true }));
            out.push(Effect::Tray(TrayUpdate::SessionPaused(true)));
            out.push(self.show_roles());
        } else {
            out.push(
                Effect::TrySend(
                    Message::Control {
                        role_epoch: self.role_epoch,
                        event: ControlEvent::ReleaseToLocal { reason: ReleaseReason::UserRequest },
                    },
                ),
            );
            out.push(Effect::Exit(ControllerSessionExit::DisconnectRequested));
        }
        out
    }

    /// Where the peer can switch roles, a reconnect resumes the session.
    pub open spec fn after_reconnect(self) -> (Self, Seq<Effect>) {
        let s = ListenerSession { session_paused: false, ..self };
        if self.support.role_switch {
            (
                s,
                nothing()
                    .push(Effect::Send(Message::RolePaused { paused: false }))
                    .push_if(s.arms(), Effect::Arm)
                    .push(Effect::Tray(TrayUpdate::SessionPaused(false)))
                    .push(s.shown_roles()),
            )
        } else {
            (self, Seq::empty())
        }
    }

    fn reconnect(&mut self) -> (out: Vec<Effect>)
        ensures
            (*final(self), out@) == old(self).after_reconnect(),
    {
        let mut out: Vec<Effect> = Vec::new();
        if self.support.role_switch {
            self.session_paused = false;
            out.push(Effect::Send(Message::RolePaused { paused: false }));
            let arms: bool = self.is_armed();
            push_when(&mut out, arms, Effect::Arm);
            out.push(Effect::Tray(TrayUpdate::SessionPaused(false)));
            out.push(self.show_roles());
        }
        out
    }

    /// A change of roles is asked for, and its answer awaited.
    pub open spec fn after_choice(self, choice: ControllerChoice, now: Instant) -> (
        Self,
        Seq<Effect>,
    ) {
        if self.may_request(choice) {
            (
                ListenerSession {
                    role_request_deadline: Some(now.later(millis(ROLE_CHANGE_MILLIS as int))),
                    ..self
                },
                nothing().push(Effect::Send(
                        Message::RoleRequest { controller_fingerprint: self.chosen(choice) },
                    )).push(Effect::Tray(TrayUpdate::RoleSwitching(true))),
            )
        } else {
            (self, Seq::empty())
        }
    }

    fn choose_controller(&mut self, choice: ControllerChoice, now: Instant) -> (out: Vec<Effect>)
        ensures
            (*final(self), out@) == old(self).after_choice(choice, now),
    {
        let mut out: Vec<Effect> = Vec::new();
        let requested: String = match choice {
            ControllerChoice::Local => self.local_fingerprint.clone(),
            ControllerChoice::Peer => self.peer_fingerprint.clone(),
        };
        if !self.session_paused && self.support.role_switch_available()
            && self.prepared_role.is_none() && self.role_request_deadline.is_none() && !names(
            &self.role_state.controller_fingerprint,
            &requested,
        ) {
            out.push(Effect::Send(Message::RoleRequest { controller_fingerprint: requested }));
            self.role_request_deadline = Some(now.plus_millis(ROLE_CHANGE_MILLIS));
            out.push(Effect::Tray(TrayUpdate::RoleSwitching(true)));
        }
        out
    }

    /// What a peer is told when forwarding is switched here: that it was, or,
    /// where it does not know of that, to take its pointer back.
    pub open spec fn told_of_forwarding(self, before: Seq<Effect>, enabled: bool) -> Seq<Effect> {
        before
            .push_if(
                self.support.input_toggle,
                Effect::Send(
                    Message::Control {
                        role_epoch: self.role_epoch,
                        event: ControlEvent::SetInputForwarding { enabled },
                    },
                ),
            )
            .push_if(
                !self.support.input_toggle && !enabled,
                Effect::Send(
                    Message::Control {
                        role_epoch: self.role_epoch,
                        event: ControlEvent::ReleaseToLocal {
                            reason: ReleaseReason::BackendFailure,
                        },
                    },
                ),
            )
    }

    /// Forwarding is switched, unless a change of roles is under way.
    pub open spec fn after_toggle(self) -> (Self, Seq<Effect>) {
        let enabled = !self.input_forwarding_enabled;
        let off = ControlEvent::SetInputForwarding { enabled: false };
        let s = ListenerSession { input_forwarding_enabled: enabled, ..self };
        let switched = if enabled {
            only_if(s.arms(), Effect::Arm)
        } else {
            nothing()
                .push(Effect::TryAllKeysUp)
                .push(Effect::RecordControl(off))
                .push_if(self.has_capture, Effect::TryDisarm)
        };
        if self.prepared_role is Some {
            (self, nothing())
        } else {
            (
                s,
                self.told_of_forwarding(
                    switched.push(Effect::Tray(TrayUpdate::InputForwarding(enabled))),
                    enabled,
                ),
            )
        }
    }

    fn toggle_input_forwarding(&mut self) -> (out: Vec<Effect>)
        ensures
            (*final(self), out@) == old(self).after_toggle(),
    {
        let mut out: Vec<Effect> = Vec::new();
        if self.prepared_role.is_none() {
            let enabled: bool = !self.input_forwarding_enabled;
            self.input_forwarding_enabled = enabled;
            if enabled {
                let arms: bool = self.is_armed();
                push_when(&mut out, arms, Effect::Arm);
            } else {
                out.push(Effect::TryAllKeysUp);
                out.push(
                    Effect::RecordControl(ControlEvent::SetInputForwarding { enabled: false }),
                );
                push_when(&mut out, self.has_capture, Effect::TryDisarm);
            }
            out.push(Effect::Tray(TrayUpdate::InputForwarding(enabled)));
            if self.support.input_toggle {
                out.push(
                    Effect::Send(
                        Message::Control {
                            role_epoch: self.role_epoch,
                            event: ControlEvent::SetInputForwarding { enabled },
                        },
                    ),
                );
            } else if !enabled {
                out.push(
                    Effect::Send(
                        Message::Control {
                            role_epoch: self.role_epoch,
                            event: ControlEvent::ReleaseToLocal {
                                reason: ReleaseReason::BackendFailure,
                            },
                        },
                    ),
                );
            }
        }
        out
    }

    /// The connector is asked for a route that both computers can serve.
    pub open spec fn audio_request(self, choice: AudioChoice) -> Seq<Effect> {
        match self.chosen_source(choice) {
            Some(source_fingerprint) => nothing().push(Effect::Send(
                    if self.support.audio_route {
                        Message::AudioRequestRoute { source_fingerprint }
                    } else {
                        Message::AudioSetEnabled {
                            enabled: is_named(source_fingerprint, self.local_fingerprint),
                        }
                    },
                )),
            None => Seq::empty(),
        }
    }

    fn request_audio(&self, choice: AudioChoice) -> (out: Vec<Effect>)
        ensures
            out@ == self.audio_request(choice),
    {
        let mut out: Vec<Effect> = Vec::new();
        let source: Option<Option<String>> = match choice {
            AudioChoice::Off => Some(None),
            AudioChoice::Local => if self.support.audio_playback {
                Some(Some(self.local_fingerprint.clone()))
            } else {
                None
            },
            AudioChoice::Peer => if self.support.audio_capture && self.support.audio_route {
                Some(Some(self.peer_fingerprint.clone()))
            } else {
                None
            },
        };
        if let Some(source_fingerprint) = source {
            if self.support.audio_route {
                out.push(Effect::Send(Message::AudioRequestRoute { source_fingerprint }));
            } else {
                let enabled: bool = names(&source_fingerprint, &self.local_fingerprint);
                out.push(Effect::Send(Message::AudioSetEnabled { enabled }));
            }
        }
        out
    }

    /// What the user's wish does.
    pub open spec fn after_tray(self, command: TrayCommand, now: Instant) -> (Self, Seq<Effect>) {
        match command {
            TrayCommand::OpenSettings => (self, nothing().push(Effect::OpenSettings)),
            TrayCommand::ArmPairing => (self, Seq::empty()),
            TrayCommand::Quit => (
                ListenerSession { audio: self.audio.stopped(), ..self },
                self.audio.stopping(nothing()).push(
                    Effect::Exit(ControllerSessionExit::QuitRequested),
                ),
            ),
            TrayCommand::Disconnect => self.after_disconnect(),
            TrayCommand::Reconnect => self.after_reconnect(),
            TrayCommand::SetController(choice) => self.after_choice(choice, now),
            TrayCommand::ToggleInputForwarding => self.after_toggle(),
            TrayCommand::SetAudio(choice) => (self, self.audio_request(choice)),
        }
    }

    /// The user's wish.
    pub fn on_tray(&mut self, command: TrayCommand, now: Instant) -> (out: Vec<Effect>)
        ensures
            (*final(self), out@) == old(self).after_tray(command, now),
    {
        match command {
            TrayCommand::OpenSettings => {
                let mut out: Vec<Effect> = Vec::new();
                out.push(Effect::OpenSettings);
                out
            },
            TrayCommand::ArmPairing => Vec::new(),
            TrayCommand::Quit => {
                let mut out: Vec<Effect> = Vec::new();
                self.audio.stop(&mut out);
                out.push(Effect::Exit(ControllerSessionExit::QuitRequested));
                out
            },
            TrayCommand::Disconnect => self.disconnect(),
            TrayCommand::Reconnect => self.reconnect(),
            TrayCommand::SetController(choice) => self.choose_controller(choice, now),
            TrayCommand::ToggleInputForwarding => self.toggle_input_forwarding(),
            TrayCommand::SetAudio(choice) => self.request_audio(choice),
        }
    }

    /// Input of the current epoch is done to the local desktop while the peer
    /// controls, forwards and has its pointer here. A release of all keys is
    /// done even where forwarding is off.
    pub open spec fn after_input(self, input: InputFrame, accepts_input: bool) -> (
        Self,
        Seq<Effect>,
    ) {
        if input.role_epoch != self.role_epoch || self.session_paused || self.local_is_controller {
            (self, Seq::empty())
        } else if input.event == InputEvent::AllKeysUp {
            (
                ListenerSession { stats: self.stats.with_input(input.event), ..self },
                nothing()
                    .push(Effect::SuspendInput)
                    .push(Effect::AllKeysUp)
                    .push(Effect::Tray(TrayUpdate::InputEvent)),
            )
        } else if !self.input_forwarding_enabled || !accepts_input {
            (self, Seq::empty())
        } else {
            (
                ListenerSession { stats: self.stats.with_input(input.event), ..self },
                nothing().push(Effect::Inject(input.event)).push(if input.event is PointerMotion {
                        Effect::CheckReturnEdge
                    } else {
                        Effect::Tray(TrayUpdate::InputEvent)
                    }),
            )
        }
    }

    /// Input of the peer.
    pub fn on_input(&mut self, input: InputFrame, accepts_input: bool) -> (out: Vec<Effect>)
        ensures
            (*final(self), out@) == old(self).after_input(input, accepts_input),
    {
        let mut out: Vec<Effect> = Vec::new();
        if input.role_epoch != self.role_epoch || self.session_paused || self.local_is_controller {
        } else if input.event == InputEvent::AllKeysUp {
            self.stats.record_input(&input.event);
            out.push(Effect::SuspendInput);
            out.push(Effect::AllKeysUp);
            out.push(Effect::Tray(TrayUpdate::InputEvent));
        } else if self.input_forwarding_enabled && accepts_input {
            self.stats.record_input(&input.event);
            out.push(Effect::Inject(input.event));
            match input.event {
                InputEvent::PointerMotion { .. } => {
                    out.push(Effect::CheckReturnEdge);
                },
                _ => {
                    out.push(Effect::Tray(TrayUpdate::InputEvent));
                },
            }
        }
        out
    }

    /// A pointer that has come back to its edge leaves: its input is suspended
    /// and the peer is told.
    pub open spec fn after_return_edge(self, left: Option<ControlEvent>) -> (Self, Seq<Effect>) {
        match left {
            Some(event) => (
                ListenerSession {
                    stats: ReceiverInputStats {
                        return_releases: bumped(self.stats.return_releases),
                        ..self.stats
                    },
                    ..self
                },
                nothing()
                    .push(Effect::SuspendInput)
                    .push(Effect::TryAllKeysUp)
                    .push(Effect::Send(Message::Control { role_epoch: self.role_epoch, event }))
                    .push(Effect::Tray(TrayUpdate::InputEvent)),
            ),
            None => (self, nothing().push(Effect::Tray(TrayUpdate::InputEvent))),
        }
    }

    /// The pointer was looked for at the edge that it returns over.
    pub fn on_return_edge(&mut self, left: Option<ControlEvent>) -> (out: Vec<Effect>)
        ensures
            (*final(self), out@) == old(self).after_return_edge(left),
    {
        let mut out: Vec<Effect> = Vec::new();
        if let Some(event) = left {
            self.stats.return_releases = bump(self.stats.return_releases);
            out.push(Effect::SuspendInput);
            out.push(Effect::TryAllKeysUp);
            out.push(Effect::Send(Message::Control { role_epoch: self.role_epoch, event }));
        }
        out.push(Effect::Tray(TrayUpdate::InputEvent));
        out
    }

    /// Forwarding is switched by a peer that may do so.
    pub open spec fn after_forwarding_set(self, enabled: bool) -> (Self, Seq<Effect>) {
        let s = ListenerSession {
            input_forwarding_enabled: enabled,
            capture_input_active: enabled && self.capture_input_active,
            stats: self.control_counted(),
            ..self
        };
        if self.support.input_toggle {
            (
                s,
                (if enabled {
                    only_if(s.arms(), Effect::Arm)
                } else {
                    nothing()
                        .push(Effect::SuspendInput)
                        .push(Effect::TryAllKeysUp)
                        .push_if(self.has_capture, Effect::TryDisarm)
                })
                    .push(Effect::RecordControl(ControlEvent::SetInputForwarding { enabled }))
                    .push(Effect::Tray(TrayUpdate::InputForwarding(enabled))),
            )
        } else {
            (self, Seq::empty())
        }
    }

    /// The counters with one more control event.
    pub open spec fn control_counted(self) -> ReceiverInputStats {
        ReceiverInputStats { control: bumped(self.stats.control), ..self.stats }
    }

    fn set_forwarding(&mut self, enabled: bool) -> (out: Vec<Effect>)
        ensures
            (*final(self), out@) == old(self).after_forwarding_set(enabled),
    {
        let mut out: Vec<Effect> = Vec::new();
        if self.support.input_toggle {
            self.input_forwarding_enabled = enabled;
            if enabled {
                let arms: bool = self.is_armed();
                push_when(&mut out, arms, Effect::Arm);
            } else {
                self.capture_input_active = false;
                out.push(Effect::SuspendInput);
                out.push(Effect::TryAllKeysUp);
                push_when(&mut out, self.has_capture, Effect::TryDisarm);
            }
            out.push(Effect::RecordControl(ControlEvent::SetInputForwarding { enabled }));
            out.push(Effect::Tray(TrayUpdate::InputForwarding(enabled)));
            self.stats.control = bump(self.stats.control);
        }
        out
    }

    /// The peer's pointer came or went: that is noted, and a pointer that came
    /// while forwarding is off is sent back where the peer does not know of it.
    pub open spec fn after_peer_pointer(self, event: ControlEvent) -> (Self, Seq<Effect>) {
        (
            ListenerSession { stats: self.control_counted(), ..self },
            nothing()
                .push(Effect::ObserveControl(event))
                .push(Effect::RecordControl(event))
                .push_if(
                    releases_legacy_controller(
                        self.input_forwarding_enabled,
                        self.support.input_toggle,
                        event,
                    ),
                    Effect::Send(
                        Message::Control {
                            role_epoch: self.role_epoch,
                            event: ControlEvent::ReleaseToLocal {
                                reason: ReleaseReason::BackendFailure,
                            },
                        },
                    ),
                ),
        )
    }

    fn peer_pointer(&mut self, event: ControlEvent) -> (out: Vec<Effect>)
        ensures
            (*final(self), out@) == old(self).after_peer_pointer(event),
    {
        let mut out: Vec<Effect> = Vec::new();
        self.stats.control = bump(self.stats.control);
        out.push(Effect::ObserveControl(event));
        out.push(Effect::RecordControl(event));
        let release: bool = should_release_legacy_controller(
            self.input_forwarding_enabled,
            self.support.input_toggle,
            &event,
        );
        push_when(
            &mut out,
            release,
            Effect::Send(
                Message::Control {
                    role_epoch: self.role_epoch,
                    event: ControlEvent::ReleaseToLocal { reason: ReleaseReason::BackendFailure },
                },
            ),
        );
        out
    }

    /// The pointer of a controlling listener comes back, at the edge where it
    /// left the peer's screen over one.
    pub open spec fn after_own_pointer(self, event: ControlEvent) -> (Self, Seq<Effect>) {
        let counted = self.control_counted();
        match event {
            ControlEvent::LeaveRemote { edge, normalized_position } => (
                ListenerSession { capture_input_active: false, stats: counted, ..self },
                nothing()
                    .push(Effect::Send(keys_up(self.role_epoch)))
                    .push_if(
                        self.has_capture,
                        Effect::Release { edge: Some((edge, normalized_position)) },
                    ),
            ),
            ControlEvent::ReleaseToLocal { .. } => (
                ListenerSession { capture_input_active: false, stats: counted, ..self },
                only_if(self.has_capture, Effect::Release { edge: None }),
            ),
            _ => (ListenerSession { stats: counted, ..self }, Seq::empty()),
        }
    }

    fn own_pointer(&mut self, event: ControlEvent) -> (out: Vec<Effect>)
        ensures
            (*final(self), out@) == old(self).after_own_pointer(event),
    {
        let mut out: Vec<Effect> = Vec::new();
        self.stats.control = bump(self.stats.control);
        match event {
            ControlEvent::LeaveRemote { edge, normalized_position } => {
                self.capture_input_active = false;
                out.push(Effect::Send(self.send_keys_up()));
                push_when(
                    &mut out,
                    self.has_capture,
                    Effect::Release { edge: Some((edge, normalized_position)) },
                );
            },
            ControlEvent::ReleaseToLocal { .. } => {
                self.capture_input_active = false;
                push_when(&mut out, self.has_capture, Effect::Release { edge: None });
            },
            _ => {},
        }
        out
    }

    /// A control event of another epoch is passed over.
    pub open spec fn after_control(self, control: ControlFrame) -> (Self, Seq<Effect>) {
        if control.role_epoch != self.role_epoch {
            (self, Seq::empty())
        } else {
            match control.event {
                ControlEvent::SetInputForwarding { enabled } => self.after_forwarding_set(enabled),
                event => if self.local_is_controller {
                    self.after_own_pointer(event)
                } else {
                    self.after_peer_pointer(event)
                },
            }
        }
    }

    /// A control event of the peer.
    pub fn on_control(&mut self, control: ControlFrame) -> (out: Vec<Effect>)
        ensures
            (*final(self), out@) == old(self).after_control(control),
    {
        if control.role_epoch != self.role_epoch {
            return Vec::new();
        }
        match control.event {
            ControlEvent::SetInputForwarding { enabled } => self.set_forwarding(enabled),
            event => if self.local_is_controller {
                self.own_pointer(event)
            } else {
                self.peer_pointer(event)
            },
        }
    }

    /// A route that both computers can serve; none at all is one.
    pub open spec fn serves_route(self, source: Option<String>) -> bool {
        ||| source is None
        ||| is_named(source, self.local_fingerprint) && self.support.audio_playback
        ||| is_named(source, self.peer_fingerprint) && self.support.audio_capture
            && self.support.audio_route
    }

    /// A start that this side can serve starts a sender in place of the one
    /// that runs; what an older start still brings is stale from then on.
    pub open spec fn after_audio_start(
        self,
        udp_port: u16,
        session_id: [u8; 16],
        session_salt: [u8; 4],
        session_key: [u8; 32],
        codec: AudioCodec,
        frame_ms: u16,
    ) -> (Self, Seq<Effect>) {
        let generation = next_generation(self.audio.generation);
        if !is_named(self.audio_source, self.local_fingerprint) {
            (self, Seq::empty())
        } else if udp_port == 0 || codec != AudioCodec::PcmS16Stereo48Khz || frame_ms != FRAME_MS {
            (
                self,
                nothing().push(Effect::Send(
                        Message::AudioState {
                            state: AudioStreamState::Error,
                            detail: Some(Detail::UnsupportedAudioFormat),
                        },
                    )),
            )
        } else {
            (
                ListenerSession {
                    audio: AudioTransport { starting: true, generation, sender: false, ..self.audio },
                    ..self
                },
                nothing()
                    .push_if(self.audio.sender, Effect::StopAudioSender)
                    .push_if(self.audio.starting, Effect::AbortAudioStart)
                    .push(audio_state(AudioStreamState::WaitingForUdp))
                    .push(
                        Effect::StartAudioSender {
                            generation,
                            udp_port,
                            session_id,
                            session_salt,
                            session_key,
                        },
                    ),
            )
        }
    }

    fn start_audio(
        &mut self,
        udp_port: u16,
        session_id: [u8; 16],
        session_salt: [u8; 4],
        session_key: [u8; 32],
        codec: AudioCodec,
        frame_ms: u16,
    ) -> (out: Vec<Effect>)
        ensures
            (*final(self), out@) == old(self).after_audio_start(
                udp_port,
                session_id,
                session_salt,
                session_key,
                codec,
                frame_ms,
            ),
    {
        let mut out: Vec<Effect> = Vec::new();
        if !names(&self.audio_source, &self.local_fingerprint) {
            return out;
        }
        if udp_port == 0 || codec != AudioCodec::PcmS16Stereo48Khz || frame_ms != FRAME_MS {
            out.push(
                Effect::Send(
                    Message::AudioState {
                        state: AudioStreamState::Error,
                        detail: Some(Detail::UnsupportedAudioFormat),
                    },
                ),
            );
        } else {
            push_when(&mut out, self.audio.sender, Effect::StopAudioSender);
            push_when(&mut out, self.audio.starting, Effect::AbortAudioStart);
            let generation: u64 = if self.audio.generation == u64::MAX {
                0
            } else {
                self.audio.generation + 1
            };
            self.audio.sender = false;
            self.audio.starting = true;
            self.audio.generation = generation;
            out.push(
                Effect::Send(
                    Message::AudioState { state: AudioStreamState::WaitingForUdp, detail: None },
                ),
            );
            out.push(
                Effect::StartAudioSender {
                    generation,
                    udp_port,
                    session_id,
                    session_salt,
                    session_key,
                },
            );
        }
        out
    }

    /// The connector has committed a route. Whatever ran is stopped; this side
    /// offers audio where it is the source.
    pub open spec fn after_route_set(self, source: Option<String>) -> (Self, Seq<Effect>) {
        if !self.serves_route(source) {
            (self, nothing().push(Effect::Fail(SessionFailure::UnsupportedAudioRoute)))
        } else {
            (
                ListenerSession { audio_source: source, audio: self.audio.stopped(), ..self },
                self.audio.stopping(nothing())
                    .push(
                        self.shown_audio(
                            audio_choice(source, self.local_fingerprint, self.peer_fingerprint),
                        ),
                    )
                    .push_if(
                        is_named(source, self.local_fingerprint) && !self.session_paused,
                        Effect::Send(Message::AudioOffer),
                    )
                    .push_if(source is None, audio_state(AudioStreamState::Disabled)),
            )
        }
    }

    fn set_route(&mut self, source: Option<String>) -> (out: Vec<Effect>)
        ensures
            (*final(self), out@) == old(self).after_route_set(source),
    {
        let mut out: Vec<Effect> = Vec::new();
        let from_local: bool = names(&source, &self.local_fingerprint);
        let from_peer: bool = names(&source, &self.peer_fingerprint);
        let serves: bool = source.is_none() || (from_local && self.support.audio_playback) || (
        from_peer && self.support.audio_capture && self.support.audio_route);
        if !serves {
            out.push(Effect::Fail(SessionFailure::UnsupportedAudioRoute));
        } else {
            let choice = linux_audio_choice(&source, &self.local_fingerprint, &self.peer_fingerprint);
            let none: bool = source.is_none();
            self.audio_source = source;
            self.audio.stop(&mut out);
            out.push(self.show_audio(choice));
            if from_local && !self.session_paused {
                out.push(Effect::Send(Message::AudioOffer));
            } else if none {
                out.push(
                    Effect::Send(
                        Message::AudioState { state: AudioStreamState::Disabled, detail: None },
                    ),
                );
            }
        }
        out
    }

    /// A connector that knows no routes switches this side's audio.
    pub open spec fn after_audio_enabled(self, enabled: bool) -> (Self, Seq<Effect>) {
        (
            ListenerSession {
                audio_source: if enabled {
                    Some(self.local_fingerprint)
                } else {
                    None
                },
                audio: self.audio.stopped(),
                ..self
            },
            self.audio.stopping(nothing())
                .push(
                    Effect::Tray(
                        TrayUpdate::AudioRoute {
                            choice: if enabled {
                                AudioChoice::Local
                            } else {
                                AudioChoice::Off
                            },
                            local_available: self.support.audio_playback
                                && !self.support.is_linux_node(),
                            peer_available: false,
                        },
                    ),
                )
                .push(
                    if enabled && !self.session_paused {
                        Effect::Send(Message::AudioOffer)
                    } else {
                        audio_state(AudioStreamState::Disabled)
                    },
                ),
        )
    }

    fn enable_audio(&mut self, enabled: bool) -> (out: Vec<Effect>)
        ensures
            (*final(self), out@) == old(self).after_audio_enabled(enabled),
    {
        let mut out: Vec<Effect> = Vec::new();
        self.audio_source = if enabled {
            Some(self.local_fingerprint.clone())
        } else {
            None
        };
        self.audio.stop(&mut out);
        out.push(
            Effect::Tray(
                TrayUpdate::AudioRoute {
                    choice: if enabled {
                        AudioChoice::Local
                    } else {
                        AudioChoice::Off
                    },
                    local_available: self.support.audio_playback && !self.support.linux_node(),
                    peer_available: false,
                },
            ),
        );
        if enabled && !self.session_paused {
            out.push(Effect::Send(Message::AudioOffer));
        } else {
            out.push(
                Effect::Send(
                    Message::AudioState { state: AudioStreamState::Disabled, detail: None },
                ),
            );
        }
        out
    }

    /// What the connector says of the audio. An offer is answered where the
    /// peer is the source.
    pub open spec fn after_audio(self, control: AudioControl) -> (Self, Seq<Effect>) {
        match control {
            AudioControl::Start {
                udp_port,
                session_id,
                session_salt,
                session_key,
                codec,
                frame_ms,
                ..
            } => self.after_audio_start(
                udp_port,
                session_id,
                session_salt,
                session_key,
                codec,
                frame_ms,
            ),
            AudioControl::SetRoute { source_fingerprint } => self.after_route_set(
                source_fingerprint,
            ),
            AudioControl::Stop { .. } => (
                ListenerSession { audio: self.audio.stopped(), ..self },
                self.audio.stopping(nothing()).push(audio_state(AudioStreamState::Disabled)),
            ),
            AudioControl::Offer { udp_port, codecs } => (
                self,
                only_if(
                    is_named(self.audio_source, self.peer_fingerprint) && codecs@.contains(
                        AudioCodec::PcmS16Stereo48Khz,
                    ),
                    Effect::AnswerAudioOffer { udp_port },
                ),
            ),
            AudioControl::SetEnabled { enabled } => self.after_audio_enabled(enabled),
            AudioControl::RequestRoute { .. } | AudioControl::State { .. } => (self, Seq::empty()),
        }
    }

    /// What the connector says of the audio.
    pub fn on_audio(&mut self, control: AudioControl) -> (out: Vec<Effect>)
        ensures
            (*final(self), out@) == old(self).after_audio(control),
    {
        match control {
            AudioControl::Start {
                udp_port,
                session_id,
                session_salt,
                session_key,
                codec,
                frame_ms,
                ..
            } => self.start_audio(
                udp_port,
                session_id,
                session_salt,
                session_key,
                codec,
                frame_ms,
            ),
            AudioControl::SetRoute { source_fingerprint } => self.set_route(source_fingerprint),
            AudioControl::Stop { .. } => {
                let mut out: Vec<Effect> = Vec::new();
                self.audio.stop(&mut out);
                out.push(
                    Effect::Send(
                        Message::AudioState { state: AudioStreamState::Disabled, detail: None },
                    ),
                );
                out
            },
            AudioControl::Offer { udp_port, codecs } => {
                let mut out: Vec<Effect> = Vec::new();
                let answers: bool = names(&self.audio_source, &self.peer_fingerprint)
                    && offers_pcm(&codecs);
                push_when(&mut out, answers, Effect::AnswerAudioOffer { udp_port });
                out
            },
            AudioControl::SetEnabled { enabled } => self.enable_audio(enabled),
            AudioControl::RequestRoute { .. } | AudioControl::State { .. } => Vec::new(),
        }
    }

    /// What makes a session state unacceptable: a controller outside the pair,
    /// no epoch, or a change of roles under way.
    pub open spec fn state_failure(self, state: RoleState) -> Option<SessionFailure> {
        if state.controller_fingerprint is Some && !is_named(
            state.controller_fingerprint,
            self.peer_fingerprint,
        ) && !is_named(state.controller_fingerprint, self.local_fingerprint) {
            Some(SessionFailure::ForeignController)
        } else if state.role_epoch == 0 || state.transition !is Stable {
            Some(SessionFailure::InvalidRoleEpoch)
        } else {
            None
        }
    }

    /// The session as the connector has it is adopted. A listener that is to
    /// control sets its capture up; one that is not gives it back.
    pub open spec fn after_session_state(self, state: RoleState) -> (Self, Seq<Effect>) {
        let controls = is_named(state.controller_fingerprint, self.local_fingerprint);
        let s = ListenerSession {
            role_epoch: state.role_epoch,
            session_paused: state.paused,
            local_is_controller: controls,
            has_capture: controls || self.has_capture,
            role_state: state,
            capture_input_active: false,
            prepared_role: None,
            role_request_deadline: None,
            ..self
        };
        match self.state_failure(state) {
            Some(failure) => (self, nothing().push(Effect::Fail(failure))),
            None => (
                s,
                (if controls {
                    nothing()
                        .push(Effect::TryAllKeysUp)
                        .push_if(
                            !self.has_capture,
                            Effect::Preflight { edge: opposite(state.listener_position) },
                        )
                        .push_if(s.arms(), Effect::Arm)
                } else {
                    nothing()
                        .push_if(self.has_capture, Effect::TryRelease)
                        .push_if(self.has_capture, Effect::TryDisarm)
                })
                    .push_if(
                        state.paused || state.controller_fingerprint is None,
                        Effect::SuspendInput,
                    )
                    .push_if(
                        state.paused || state.controller_fingerprint is None,
                        Effect::TryAllKeysUp,
                    )
                    .push_if(
                        state.controller_fingerprint is Some,
                        Effect::SaveRole {
                            controller_fingerprint: state.controller_fingerprint->Some_0,
                        },
                    )
                    .push(Effect::Tray(TrayUpdate::InputForwarding(self.input_forwarding_enabled)))
                    .push(Effect::Tray(TrayUpdate::SessionPaused(state.paused)))
                    .push(s.shown_roles()),
            ),
        }
    }

    fn adopt_state(&mut self, state: RoleState) -> (out: Vec<Effect>)
        ensures
            (*final(self), out@) == old(self).after_session_state(state),
    {
        let mut out: Vec<Effect> = Vec::new();
        let controls: bool = names(&state.controller_fingerprint, &self.local_fingerprint);
        if state.controller_fingerprint.is_some() && !names(
            &state.controller_fingerprint,
            &self.peer_fingerprint,
        ) && !controls {
            out.push(Effect::Fail(SessionFailure::ForeignController));
            return out;
        }
        let stable: bool = match state.transition {
            RoleTransitionState::Stable => true,
            _ => false,
        };
        if state.role_epoch == 0 || !stable {
            out.push(Effect::Fail(SessionFailure::InvalidRoleEpoch));
            return out;
        }
        self.role_epoch = state.role_epoch;
        self.session_paused = state.paused;
        self.local_is_controller = controls;
        if controls {
            out.push(Effect::TryAllKeysUp);
            push_when(
                &mut out,
                !self.has_capture,
                Effect::Preflight { edge: opposite_edge(state.listener_position) },
            );
            self.has_capture = true;
            let arms: bool = self.is_armed();
            push_when(&mut out, arms, Effect::Arm);
        } else {
            push_when(&mut out, self.has_capture, Effect::TryRelease);
            push_when(&mut out, self.has_capture, Effect::TryDisarm);
        }
        if state.paused || state.controller_fingerprint.is_none() {
            out.push(Effect::SuspendInput);
            out.push(Effect::TryAllKeysUp);
        }
        if let Some(controller) = &state.controller_fingerprint {
            out.push(Effect::SaveRole { controller_fingerprint: controller.clone() });
        }
        self.capture_input_active = false;
        self.prepared_role = None;
        self.role_request_deadline = None;
        out.push(Effect::Tray(TrayUpdate::InputForwarding(self.input_forwarding_enabled)));
        out.push(Effect::Tray(TrayUpdate::SessionPaused(state.paused)));
        out.push(self.show_roles());
        self.role_state = state;
        out
    }

    /// The answer that this side is ready for a change of roles, or why not.
    pub open spec fn after_ready(
        self,
        before: Seq<Effect>,
        prepare: RoleState,
        failure: Option<Detail>,
        now: Instant,
    ) -> (Self, Seq<Effect>) {
        (
            ListenerSession {
                prepared_role: Some(prepare),
                role_request_deadline: Some(now.later(millis(ROLE_CHANGE_MILLIS as int))),
                ..self
            },
            before
                .push(Effect::Tray(TrayUpdate::RoleSwitching(true)))
                .push(
                    Effect::Send(
                        Message::RoleReady {
                            role_epoch: prepare.role_epoch,
                            capture_ready: failure is None,
                            inject_ready: true,
                            failure,
                        },
                    ),
                ),
        )
    }

    /// A change of roles begins: input is let go of in the direction that it
    /// had. A listener that is to control first sets its capture up; the
    /// change stands as prepared meanwhile.
    pub open spec fn after_prepare(self, prepare: RoleState, valid: bool, now: Instant) -> (
        Self,
        Seq<Effect>,
    ) {
        let s = ListenerSession {
            capture_input_active: self.capture_input_active && !self.local_is_controller,
            ..self
        };
        let let_go = if self.local_is_controller {
            nothing()
                .push_if(self.has_capture, Effect::TryRelease)
                .push_if(self.has_capture, Effect::TryDisarm)
                .push(Effect::TrySend(keys_up(self.role_epoch)))
        } else {
            nothing().push(Effect::SuspendInput).push(Effect::TryAllKeysUp)
        };
        if self.session_paused || !self.support.can_switch_roles() {
            (
                self,
                nothing().push(Effect::Send(
                        Message::RoleReady {
                            role_epoch: prepare.role_epoch,
                            capture_ready: false,
                            inject_ready: false,
                            failure: Some(Detail::RoleSwitchUnavailable),
                        },
                    )),
            )
        } else if !valid {
            (self, Seq::empty())
        } else if is_named(prepare.controller_fingerprint, self.local_fingerprint)
            && !self.has_capture {
            (
                ListenerSession { prepared_role: Some(prepare), ..s },
                let_go.push(Effect::TryPreflight { edge: opposite(prepare.listener_position) }),
            )
        } else {
            s.after_ready(let_go, prepare, None, now)
        }
    }

    fn prepare(&mut self, prepare: RoleState, valid: bool, now: Instant) -> (out: Vec<Effect>)
        ensures
            (*final(self), out@) == old(self).after_prepare(prepare, valid, now),
    {
        let mut out: Vec<Effect> = Vec::new();
        if self.session_paused || !self.support.role_switch_available() {
            out.push(
                Effect::Send(
                    Message::RoleReady {
                        role_epoch: prepare.role_epoch,
                        capture_ready: false,
                        inject_ready: false,
                        failure: Some(Detail::RoleSwitchUnavailable),
                    },
                ),
            );
            return out;
        }
        if !valid {
            return out;
        }
        if self.local_is_controller {
            self.capture_input_active = false;
            push_when(&mut out, self.has_capture, Effect::TryRelease);
            push_when(&mut out, self.has_capture, Effect::TryDisarm);
            out.push(Effect::TrySend(self.send_keys_up()));
        } else {
            out.push(Effect::SuspendInput);
            out.push(Effect::TryAllKeysUp);
        }
        if names(&prepare.controller_fingerprint, &self.local_fingerprint) && !self.has_capture {
            out.push(Effect::TryPreflight { edge: opposite_edge(prepare.listener_position) });
            self.prepared_role = Some(prepare);
        } else {
            out.push(Effect::Tray(TrayUpdate::RoleSwitching(true)));
            out.push(
                Effect::Send(
                    Message::RoleReady {
                        role_epoch: prepare.role_epoch,
                        capture_ready: true,
                        inject_ready: true,
                        failure: None,
                    },
                ),
            );
            self.prepared_role = Some(prepare);
            self.role_request_deadline = Some(now.plus_millis(ROLE_CHANGE_MILLIS));
        }
        out
    }

    /// The capture that a change of roles needs is set up, or it is not and
    /// the answer says so.
    pub open spec fn after_preflight(self, result: Result<(), String>, now: Instant) -> (
        Self,
        Seq<Effect>,
    ) {
        match self.prepared_role {
            Some(prepare) => match result {
                Ok(_) => (ListenerSession { has_capture: true, ..self }).after_ready(
                    nothing(),
                    prepare,
                    None,
                    now,
                ),
                Err(error) => self.after_ready(
                    nothing(),
                    prepare,
                    Some(Detail::ListenerPreflightFailed(error)),
                    now,
                ),
            },
            None => (self, Seq::empty()),
        }
    }

    /// The capture for a change of roles was tried.
    pub fn on_preflight(&mut self, result: Result<(), String>, now: Instant) -> (out: Vec<Effect>)
        requires
            old(self).prepared_role is Some,
        ensures
            (*final(self), out@) == old(self).after_preflight(result, now),
    {
        let mut out: Vec<Effect> = Vec::new();
        let mut role_epoch: u64 = 0;
        if let Some(prepare) = &self.prepared_role {
            role_epoch = prepare.role_epoch;
        }
        out.push(Effect::Tray(TrayUpdate::RoleSwitching(true)));
        self.role_request_deadline = Some(now.plus_millis(ROLE_CHANGE_MILLIS));
        match result {
            Ok(_) => {
                self.has_capture = true;
                out.push(
                    Effect::Send(
                        Message::RoleReady {
                            role_epoch,
                            capture_ready: true,
                            inject_ready: true,
                            failure: None,
                        },
                    ),
                );
            },
            Err(error) => {
                out.push(
                    Effect::Send(
                        Message::RoleReady {
                            role_epoch,
                            capture_ready: false,
                            inject_ready: true,
                            failure: Some(Detail::ListenerPreflightFailed(error)),
                        },
                    ),
                );
            },
        }
        out
    }

    /// A commit of the prepared change takes effect: it is saved, every key is
    /// let go of, and the new controller's capture is armed.
    pub open spec fn after_commit(self, commit: RoleState, valid: bool) -> (Self, Seq<Effect>) {
        if self.prepared_role is None {
            (self, nothing().push(Effect::Fail(SessionFailure::CommitWithoutPrepare)))
        } else if !valid {
            (self, Seq::empty())
        } else {
            match commit.controller_fingerprint {
                None => (self, nothing()
                    .push(Effect::Fail(SessionFailure::CommitWithoutController))),
                Some(controller_fingerprint) => {
                    let s = ListenerSession {
                        role_epoch: commit.role_epoch,
                        local_is_controller: controller_fingerprint@ == self.local_fingerprint@,
                        capture_input_active: false,
                        role_state: commit,
                        prepared_role: None,
                        role_request_deadline: None,
                        ..self
                    };
                    (
                        s,
                        nothing()
                            .push(Effect::SaveRole { controller_fingerprint })
                            .push(Effect::SuspendInput)
                            .push(Effect::TryAllKeysUp)
                            .push_if(s.arms(), Effect::Arm)
                            .push(s.shown_roles()),
                    )
                },
            }
        }
    }

    fn commit(&mut self, commit: RoleState, valid: bool) -> (out: Vec<Effect>)
        ensures
            (*final(self), out@) == old(self).after_commit(commit, valid),
    {
        let mut out: Vec<Effect> = Vec::new();
        if self.prepared_role.is_none() {
            out.push(Effect::Fail(SessionFailure::CommitWithoutPrepare));
        } else if valid {
            match copy_text(&commit.controller_fingerprint) {
                None => {
                    out.push(Effect::Fail(SessionFailure::CommitWithoutController));
                },
                Some(controller) => {
                    self.local_is_controller = controller == self.local_fingerprint;
                    out.push(Effect::SaveRole { controller_fingerprint: controller });
                    self.role_epoch = commit.role_epoch;
                    self.capture_input_active = false;
                    self.role_state = commit;
                    self.prepared_role = None;
                    self.role_request_deadline = None;
                    out.push(Effect::SuspendInput);
                    out.push(Effect::TryAllKeysUp);
                    let arms: bool = self.is_armed();
                    push_when(&mut out, arms, Effect::Arm);
                    out.push(self.show_roles());
                },
            }
        }
        out
    }

    /// An abort of the change under way puts the committed roles back.
    pub open spec fn after_abort(self, abort: RoleState) -> (Self, Seq<Effect>) {
        if self.prepared_role is None || abort.role_epoch != self.role_state.role_epoch
            || !same_text(abort.controller_fingerprint, self.role_state.controller_fingerprint) {
            (self, Seq::empty())
        } else {
            (
                ListenerSession { prepared_role: None, role_request_deadline: None, ..self },
                nothing()
                    .push_if(self.arms(), Effect::Arm)
                    .push(self.shown_roles())
                    .push_if(
                        abort.failure_detail is Some,
                        Effect::Tray(
                            TrayUpdate::RoleFailure(Detail::Other(abort.failure_detail->Some_0)),
                        ),
                    ),
            )
        }
    }

    fn abort(&mut self, abort: RoleState) -> (out: Vec<Effect>)
        ensures
            (*final(self), out@) == old(self).after_abort(abort),
    {
        let mut out: Vec<Effect> = Vec::new();
        if self.prepared_role.is_some() && abort.role_epoch == self.role_state.role_epoch
            && is_same_text(
            &abort.controller_fingerprint,
            &self.role_state.controller_fingerprint,
        ) {
            self.prepared_role = None;
            self.role_request_deadline = None;
            let arms: bool = self.is_armed();
            push_when(&mut out, arms, Effect::Arm);
            out.push(self.show_roles());
            if let Some(detail) = abort.failure_detail {
                out.push(Effect::Tray(TrayUpdate::RoleFailure(Detail::Other(detail))));
            }
        }
        out
    }

    /// The connector pauses the session or resumes it.
    pub open spec fn after_paused(self, paused: bool) -> (Self, Seq<Effect>) {
        let s = ListenerSession {
            session_paused: paused,
            capture_input_active: self.capture_input_active && !paused,
            audio: if paused {
                self.audio.stopped()
            } else {
                self.audio
            },
            ..self
        };
        (
            s,
            (if paused {
                self.audio.stopping(nothing())
                    .push(Effect::SuspendInput)
                    .push(Effect::TryAllKeysUp)
                    .push_if(self.has_capture, Effect::TryDisarm)
            } else {
                only_if(s.arms(), Effect::Arm)
            })
                .push(Effect::Tray(TrayUpdate::InputForwarding(self.input_forwarding_enabled)))
                .push(Effect::Tray(TrayUpdate::SessionPaused(paused)))
                .push(s.shown_roles()),
        )
    }

    fn pause(&mut self, paused: bool) -> (out: Vec<Effect>)
        ensures
            (*final(self), out@) == old(self).after_paused(paused),
    {
        let mut out: Vec<Effect> = Vec::new();
        self.session_paused = paused;
        if paused {
            self.capture_input_active = false;
            self.audio.stop(&mut out);
            out.push(Effect::SuspendInput);
            out.push(Effect::TryAllKeysUp);
            push_when(&mut out, self.has_capture, Effect::TryDisarm);
        } else {
            let arms: bool = self.is_armed();
            push_when(&mut out, arms, Effect::Arm);
        }
        out.push(Effect::Tray(TrayUpdate::InputForwarding(self.input_forwarding_enabled)));
        out.push(Effect::Tray(TrayUpdate::SessionPaused(paused)));
        out.push(self.show_roles());
        out
    }

    /// What the connector says of the roles. Requests and readiness are not
    /// the connector's to say.
    pub open spec fn after_role(self, event: RoleEvent, valid: bool, now: Instant) -> (
        Self,
        Seq<Effect>,
    ) {
        match event {
            RoleEvent::SessionState(state) => self.after_session_state(state),
            RoleEvent::Prepare(prepare) => self.after_prepare(prepare, valid, now),
            RoleEvent::Commit(commit) => self.after_commit(commit, valid),
            RoleEvent::Abort(abort) => self.after_abort(abort),
            RoleEvent::SetPaused { paused } => self.after_paused(paused),
            RoleEvent::Request { .. } | RoleEvent::Ready { .. } | RoleEvent::Applied { .. } => (
                self,
                Seq::empty(),
            ),
        }
    }

    /// What the connector says of the roles.
    pub fn on_role(&mut self, event: RoleEvent, valid: bool, now: Instant) -> (out: Vec<Effect>)
        ensures
            (*final(self), out@) == old(self).after_role(event, valid, now),
    {
        match event {
            RoleEvent::SessionState(state) => self.adopt_state(state),
            RoleEvent::Prepare(prepare) => self.prepare(prepare, valid, now),
            RoleEvent::Commit(commit) => self.commit(commit, valid),
            RoleEvent::Abort(abort) => self.abort(abort),
            RoleEvent::SetPaused { paused } => self.pause(paused),
            RoleEvent::Request { .. } | RoleEvent::Ready { .. } | RoleEvent::Applied { .. } => {
                Vec::new()
            },
        }
    }

    /// What the peer's frame does.
    pub open spec fn after_frame(self, frame: Frame, verdict: Verdict, now: Instant) -> (
        Self,
        Seq<Effect>,
    ) {
        match frame {
            Frame::Input(input) => self.after_input(input, verdict.accepts_input),
            Frame::Clipboard(event) => (
                self,
                only_if(!self.session_paused, Effect::SyncClipboard(event)),
            ),
            Frame::Control(control) => self.after_control(control),
            Frame::Audio(control) => self.after_audio(control),
            Frame::Role(event) => self.after_role(event, verdict.role_event_valid, now),
            _ => (self, Seq::empty()),
        }
    }

    /// A frame of the peer.
    pub fn on_frame(&mut self, frame: Frame, verdict: Verdict, now: Instant) -> (out: Vec<Effect>)
        ensures
            (*final(self), out@) == old(self).after_frame(frame, verdict, now),
    {
        match frame {
            Frame::Input(input) => self.on_input(input, verdict.accepts_input),
            Frame::Clipboard(event) => {
                let mut out: Vec<Effect> = Vec::new();
                push_when(&mut out, !self.session_paused, Effect::SyncClipboard(event));
                out
            },
            Frame::Control(control) => self.on_control(control),
            Frame::Audio(control) => self.on_audio(control),
            Frame::Role(event) => self.on_role(event, verdict.role_event_valid, now),
            _ => Vec::new(),
        }
    }
}

/// A peer that was not told that forwarding is off, and whose pointer enters,
/// is sent back.
pub open spec fn releases_legacy_controller(
    input_forwarding_enabled: bool,
    controller_supports_input_toggle: bool,
    control: ControlEvent,
) -> bool {
    !input_forwarding_enabled && !controller_supports_input_toggle && control is EnterRemote
}

/// Whether a peer that was not told that forwarding is off is sent back.
pub fn should_release_legacy_controller(
    input_forwarding_enabled: bool,
    controller_supports_input_toggle: bool,
    control: &ControlEvent,
) -> (release: bool)
    ensures
        release == releases_legacy_controller(
            input_forwarding_enabled,
            controller_supports_input_toggle,
            *control,
        ),
{
    !input_forwarding_enabled && !controller_supports_input_toggle && match control {
        ControlEvent::EnterRemote { .. } => true,
        _ => false,
    }
}

} // verus!
