//! What a session does to the world: the effects that its decisions call for.

use crate::protocol::{
    AudioCodec, AudioControl, AudioStopReason, AudioStreamState, ClipboardCancelReason,
    ClipboardEvent, ControlEvent, ControlFrame, Edge, F32Bits, Frame, Heartbeat, InputEvent,
    InputFrame, RoleEvent, RoleState,
};
use vstd::prelude::*;

verus! {

/// What the other computer of a session can do.
#[derive(Clone, Copy, Debug, PartialEq, Eq, Structural)]
pub struct PeerSupport {
    pub audio_playback: bool,
    pub audio_capture: bool,
    pub audio_route: bool,
    pub input_toggle: bool,
    pub images: bool,
    pub input_capture: bool,
    pub input_injection: bool,
    pub role_switch: bool,
}

impl PeerSupport {
    /// Roles can be switched where the peer can play either.
    pub open spec fn can_switch_roles(self) -> bool {
        self.role_switch && self.input_capture && self.input_injection
    }

    /// Whether roles can be switched.
    pub fn role_switch_available(&self) -> (available: bool)
        ensures
            available == self.can_switch_roles(),
    {
        self.role_switch && self.input_capture && self.input_injection
    }

    /// The peer is a Linux node: it can play either role, and capture and play
    /// audio.
    pub open spec fn is_linux_node(self) -> bool {
        self.can_switch_roles() && self.audio_capture && self.audio_playback
    }

    /// Whether the peer is a Linux node. Audio between two of them is shown as
    /// unavailable.
    pub fn linux_node(&self) -> (linux: bool)
        ensures
            linux == self.is_linux_node(),
    {
        self.role_switch_available() && self.audio_capture && self.audio_playback
    }
}

/// Where the audio comes from, as the tray shows it.
#[derive(Clone, Copy, Debug, PartialEq, Eq, Structural)]
pub enum AudioChoice {
    Off,
    Local,
    Peer,
}

/// Which computer controls the other, as the tray shows it.
#[derive(Clone, Copy, Debug, PartialEq, Eq, Structural)]
pub enum ControllerChoice {
    Local,
    Peer,
}

/// What the user asked for through the tray.
#[derive(Clone, Copy, Debug, PartialEq, Eq, Structural)]
pub enum TrayCommand {
    OpenSettings,
    ArmPairing,
    ToggleInputForwarding,
    SetController(ControllerChoice),
    SetAudio(AudioChoice),
    Disconnect,
    Reconnect,
    Quit,
}

/// What the supervision of a silent peer found.
#[derive(Clone, Copy, Debug, PartialEq, Eq, Structural)]
pub enum LivenessEvent {
    SoftInputTimeout,
    HardSessionTimeout,
}

/// What the capture of local input reports.
#[derive(Clone, Debug, PartialEq, Eq)]
pub enum CaptureEvent {
    Activated { activation_id: u32, edge: Edge, normalized_position: F32Bits },
    Input(InputEvent),
    Deactivated,
    EmergencyReleased,
    LayoutChanged { previous_zone_set: u32, current_zone_set: u32 },
    BackendFailed(String),
}

/// Why something did not work, told to the peer or shown to the user.
#[derive(Clone, Debug, PartialEq, Eq)]
pub enum Detail {
    LayoutChangedDuringPreflight,
    RoleSwitchUnavailable,
    RolePreflightTimedOut,
    RoleSwitchTimedOut,
    ListenerPreflightFailed(String),
    ConnectorPreflightFailed(String),
    AudioCaptureStopped,
    UnsupportedAudioFormat,
    Other(String),
}

impl Detail {
    /// The words for it.
    pub open spec fn words(self) -> Seq<char> {
        match self {
            Detail::LayoutChangedDuringPreflight => "monitor layout changed during capture preflight"@,
            Detail::RoleSwitchUnavailable =>
                "role switching is unavailable while this session is paused"@,
            Detail::RolePreflightTimedOut => "peer did not complete role preflight in time"@,
            Detail::RoleSwitchTimedOut => "Role switch timed out"@,
            Detail::ListenerPreflightFailed(error) =>
                "listener capture preflight failed: "@ + error@,
            Detail::ConnectorPreflightFailed(error) => "capture preflight failed: "@ + error@,
            Detail::AudioCaptureStopped => "Linux audio capture stopped unexpectedly"@,
            Detail::UnsupportedAudioFormat => "unsupported audio format"@,
            Detail::Other(words) => words@,
        }
    }

    /// A copy of it.
    pub fn copy(&self) -> (copy: Detail)
        ensures
            copy == *self,
    {
        match self {
            Detail::LayoutChangedDuringPreflight => Detail::LayoutChangedDuringPreflight,
            Detail::RoleSwitchUnavailable => Detail::RoleSwitchUnavailable,
            Detail::RolePreflightTimedOut => Detail::RolePreflightTimedOut,
            Detail::RoleSwitchTimedOut => Detail::RoleSwitchTimedOut,
            Detail::ListenerPreflightFailed(error) => Detail::ListenerPreflightFailed(
                error.clone(),
            ),
            Detail::ConnectorPreflightFailed(error) => Detail::ConnectorPreflightFailed(
                error.clone(),
            ),
            Detail::AudioCaptureStopped => Detail::AudioCaptureStopped,
            Detail::UnsupportedAudioFormat => Detail::UnsupportedAudioFormat,
            Detail::Other(words) => Detail::Other(words.clone()),
        }
    }

    /// The words for it.
    pub fn text(self) -> (text: String)
        ensures
            text@ == self.words(),
    {
        match self {
            Detail::LayoutChangedDuringPreflight =>
                "monitor layout changed during capture preflight".to_owned(),
            Detail::RoleSwitchUnavailable =>
                "role switching is unavailable while this session is paused".to_owned(),
            Detail::RolePreflightTimedOut =>
                "peer did not complete role preflight in time".to_owned(),
            Detail::RoleSwitchTimedOut => "Role switch timed out".to_owned(),
            Detail::ListenerPreflightFailed(error) =>
                "listener capture preflight failed: ".to_owned().concat(error.as_str()),
            Detail::ConnectorPreflightFailed(error) =>
                "capture preflight failed: ".to_owned().concat(error.as_str()),
            Detail::AudioCaptureStopped => "Linux audio capture stopped unexpectedly".to_owned(),
            Detail::UnsupportedAudioFormat => "unsupported audio format".to_owned(),
            Detail::Other(words) => words,
        }
    }
}

/// What is said to the peer.
#[derive(Clone, Debug, PartialEq, Eq)]
#[allow(inconsistent_fields)]
pub enum Message {
    Input { role_epoch: u64, event: InputEvent },
    Control { role_epoch: u64, event: ControlEvent },
    Heartbeat { sequence: u64 },
    RoleRequest { controller_fingerprint: String },
    RolePrepare(RoleState),
    RoleReady {
        role_epoch: u64,
        capture_ready: bool,
        inject_ready: bool,
        failure: Option<Detail>,
    },
    RoleCommit(RoleState),
    RoleAbort(RoleState),
    RolePaused { paused: bool },
    ClipboardCancel { transfer_id: u64, reason: ClipboardCancelReason },
    AudioRequestRoute { source_fingerprint: Option<String> },
    AudioSetRoute { source_fingerprint: Option<String> },
    AudioSetEnabled { enabled: bool },
    /// An offer to send audio from this computer's UDP port.
    AudioOffer,
    AudioState { state: AudioStreamState, detail: Option<Detail> },
    AudioStop { reason: AudioStopReason },
}

impl Message {
    /// Whether a frame carries the message. `udp_port` is the port that this
    /// computer sends audio from.
    pub open spec fn carried_by(self, frame: Frame, udp_port: u16) -> bool {
        match self {
            Message::Input { role_epoch, event } => frame == Frame::Input(
                InputFrame { role_epoch, event },
            ),
            Message::Control { role_epoch, event } => frame == Frame::Control(
                ControlFrame { role_epoch, event },
            ),
            Message::Heartbeat { sequence } => frame == Frame::Heartbeat(Heartbeat { sequence }),
            Message::RoleRequest { controller_fingerprint } => frame == Frame::Role(
                RoleEvent::Request { controller_fingerprint },
            ),
            Message::RolePrepare(state) => frame == Frame::Role(RoleEvent::Prepare(state)),
            Message::RoleReady { role_epoch, capture_ready, inject_ready, failure } => {
                &&& frame matches Frame::Role(RoleEvent::Ready {
                    role_epoch: epoch,
                    capture_ready: capture,
                    inject_ready: inject,
                    failure_detail,
                })
                &&& epoch == role_epoch
                &&& capture == capture_ready
                &&& inject == inject_ready
                &&& worded(failure_detail, failure)
            },
            Message::RoleCommit(state) => frame == Frame::Role(RoleEvent::Commit(state)),
            Message::RoleAbort(state) => frame == Frame::Role(RoleEvent::Abort(state)),
            Message::RolePaused { paused } => frame == Frame::Role(RoleEvent::SetPaused { paused }),
            Message::ClipboardCancel { transfer_id, reason } => frame == Frame::Clipboard(
                ClipboardEvent::ImageCancel { transfer_id, reason },
            ),
            Message::AudioRequestRoute { source_fingerprint } => frame == Frame::Audio(
                AudioControl::RequestRoute { source_fingerprint },
            ),
            Message::AudioSetRoute { source_fingerprint } => frame == Frame::Audio(
                AudioControl::SetRoute { source_fingerprint },
            ),
            Message::AudioSetEnabled { enabled } => frame == Frame::Audio(
                AudioControl::SetEnabled { enabled },
            ),
            Message::AudioOffer => {
                &&& frame matches Frame::Audio(AudioControl::Offer { udp_port: port, codecs })
                &&& port == udp_port
                &&& codecs@ == seq![AudioCodec::PcmS16Stereo48Khz]
            },
            Message::AudioState { state, detail } => {
                &&& frame matches Frame::Audio(AudioControl::State { state: said, detail: words })
                &&& said == state
                &&& worded(words, detail)
            },
            Message::AudioStop { reason } => frame == Frame::Audio(AudioControl::Stop { reason }),
        }
    }

    /// The frame that carries the message.
    pub fn frame(self, udp_port: u16) -> (frame: Frame)
        ensures
            self.carried_by(frame, udp_port),
    {
        match self {
            Message::Input { role_epoch, event } => Frame::input(role_epoch, event),
            Message::Control { role_epoch, event } => Frame::control(role_epoch, event),
            Message::Heartbeat { sequence } => Frame::Heartbeat(Heartbeat { sequence }),
            Message::RoleRequest { controller_fingerprint } => Frame::Role(
                RoleEvent::Request { controller_fingerprint },
            ),
            Message::RolePrepare(state) => Frame::Role(RoleEvent::Prepare(state)),
            Message::RoleReady { role_epoch, capture_ready, inject_ready, failure } => Frame::Role(
                RoleEvent::Ready {
                    role_epoch,
                    capture_ready,
                    inject_ready,
                    failure_detail: words_of(failure),
                },
            ),
            Message::RoleCommit(state) => Frame::Role(RoleEvent::Commit(state)),
            Message::RoleAbort(state) => Frame::Role(RoleEvent::Abort(state)),
            Message::RolePaused { paused } => Frame::Role(RoleEvent::SetPaused { paused }),
            Message::ClipboardCancel { transfer_id, reason } => Frame::Clipboard(
                ClipboardEvent::ImageCancel { transfer_id, reason },
            ),
            Message::AudioRequestRoute { source_fingerprint } => Frame::Audio(
                AudioControl::RequestRoute { source_fingerprint },
            ),
            Message::AudioSetRoute { source_fingerprint } => Frame::Audio(
                AudioControl::SetRoute { source_fingerprint },
            ),
            Message::AudioSetEnabled { enabled } => Frame::Audio(
                AudioControl::SetEnabled { enabled },
            ),
            Message::AudioOffer => {
                let mut codecs: Vec<AudioCodec> = Vec::new();
                codecs.push(AudioCodec::PcmS16Stereo48Khz);
                assert(codecs@ =~= seq![AudioCodec::PcmS16Stereo48Khz]);
                Frame::Audio(AudioControl::Offer { udp_port, codecs })
            },
            Message::AudioState { state, detail } => Frame::Audio(
                AudioControl::State { state, detail: words_of(detail) },
            ),
            Message::AudioStop { reason } => Frame::Audio(AudioControl::Stop { reason }),
        }
    }
}

/// Whether a text says what a detail says, and is missing where that is.
pub open spec fn worded(words: Option<String>, detail: Option<Detail>) -> bool {
    match detail {
        Some(detail) => words matches Some(words) && words@ == detail.words(),
        None => words is None,
    }
}

fn words_of(detail: Option<Detail>) -> (words: Option<String>)
    ensures
        worded(words, detail),
{
    match detail {
        Some(detail) => Some(detail.text()),
        None => None,
    }
}

/// What the tray shows from now on.
#[derive(Clone, Debug, PartialEq, Eq)]
pub enum TrayUpdate {
    InputForwarding(bool),
    AudioRoute { choice: AudioChoice, local_available: bool, peer_available: bool },
    SessionPaused(bool),
    RoleAssignment { local_is_controller: bool, switch_available: bool },
    RoleSwitching(bool),
    RoleFailure(Detail),
    InputEvent,
    ClipboardEvent,
}

/// How a session ends on the user's wish.
#[derive(Clone, Copy, Debug, PartialEq, Eq, Structural)]
pub enum ControllerSessionExit {
    QuitRequested,
    DisconnectRequested,
}

/// Why a session cannot go on.
#[derive(Clone, Debug, PartialEq, Eq)]
pub enum SessionFailure {
    PeerSilent,
    CaptureFailed(String),
    CaptureStopped,
    UnsupportedAudioRoute,
    ForeignController,
    InvalidRoleEpoch,
    CommitWithoutPrepare,
    CommitWithoutController,
    PeerError { code: String, message: String },
}

/// One thing to do. What can fail comes twice: in its plain form a failure
/// ends the session, in its `Try` form it is passed over.
#[derive(Clone, Debug, PartialEq, Eq)]
#[allow(inconsistent_fields)]
pub enum Effect {
    Send(Message),
    TrySend(Message),
    /// Do to the local desktop what the peer's input says.
    Inject(InputEvent),
    /// Let go of every key and button that was pressed on the local desktop.
    AllKeysUp,
    TryAllKeysUp,
    /// Take no more input of this epoch until the pointer enters again.
    SuspendInput,
    /// Note where the pointer went, for taking input or not.
    ObserveControl(ControlEvent),
    /// Note where the pointer went, for the edge that it returns over.
    RecordControl(ControlEvent),
    /// Ask whether the pointer has come to the edge that it returns over.
    CheckReturnEdge,
    /// Let the pointer of this computer cross its edge.
    Arm,
    TryArm,
    Disarm,
    TryDisarm,
    /// Give input back to this computer, with the pointer at the edge where
    /// one is named.
    Release { edge: Option<(Edge, F32Bits)> },
    TryRelease,
    /// Set up the capture of input at an edge.
    Preflight { edge: Edge },
    /// Try to set up the capture of input at an edge, and report.
    TryPreflight { edge: Edge },
    SaveRole { controller_fingerprint: String },
    SaveAudioRoute { source_fingerprint: Option<String> },
    AbortAudioStart,
    StopAudioSender,
    DropAudioReceiver,
    /// Stop a sender that was started for a route that has changed since.
    StopStaleAudioSender,
    /// Find the peer's UDP endpoint and send audio there.
    StartAudioSender {
        generation: u64,
        udp_port: u16,
        session_id: [u8; 16],
        session_salt: [u8; 4],
        session_key: [u8; 32],
    },
    /// Answer an offer with fresh secrets, receive audio, and report.
    AnswerAudioOffer { udp_port: u16 },
    /// Have the coordinator prepare a change of roles, and tell the peer.
    PrepareRole { controller_fingerprint: String },
    /// Have the coordinator decide on a change of roles that both sides have
    /// answered.
    FinishReady {
        role_epoch: u64,
        local_capture_ready: bool,
        local_inject_ready: bool,
        peer_capture_ready: bool,
        peer_inject_ready: bool,
        failure: Option<Detail>,
    },
    /// A change of roles was saved and the peer was told: it takes effect.
    EnterRole { controller_fingerprint: String, role_epoch: u64 },
    /// Have the coordinator give a change of roles up, and tell the peer.
    AbortRole(Detail),
    /// The same, but a peer that cannot be told is passed over.
    TryAbortRole(Detail),
    /// Have the coordinator pause the session or go on.
    PauseRole(bool),
    SyncClipboard(ClipboardEvent),
    OfferClipboard,
    WatchClipboardAnew,
    RememberPause(bool),
    OpenSettings,
    Tray(TrayUpdate),
    LogStatus,
    Exit(ControllerSessionExit),
    Fail(SessionFailure),
}

/// The audio streams of a session.
#[derive(Clone, Copy, Debug, PartialEq, Eq, Structural)]
pub struct AudioTransport {
    /// A sender is being started.
    pub starting: bool,
    /// Counts the starts and stops; what an older start brings is stale.
    pub generation: u64,
    pub sender: bool,
    pub receiver: bool,
}

/// The tray shows audio as available, in whichever direction.
pub open spec fn shows_audio(effect: Effect) -> bool {
    effect matches Effect::Tray(
        TrayUpdate::AudioRoute { local_available, peer_available, .. },
    ) && (local_available || peer_available)
}

/// Lists of effects that grow at their end.
pub trait EffectList<T> {
    /// The list with an effect behind it, on a condition.
    spec fn push_if(self, condition: bool, effect: T) -> Seq<T>;
}

impl<T> EffectList<T> for Seq<T> {
    open spec fn push_if(self, condition: bool, effect: T) -> Seq<T> {
        if condition {
            self.push(effect)
        } else {
            self
        }
    }
}

/// A list with one effect or without.
pub open spec fn only_if(condition: bool, effect: Effect) -> Seq<Effect> {
    Seq::<Effect>::empty().push_if(condition, effect)
}

/// No effects.
pub open spec fn nothing() -> Seq<Effect> {
    Seq::empty()
}

/// Appends an effect on a condition.
pub fn push_when<T>(out: &mut Vec<T>, condition: bool, effect: T)
    ensures
        final(out)@ == old(out)@.push_if(condition, effect),
{
    if condition {
        out.push(effect);
    }
}

/// A counter one higher, back at zero behind its limit.
pub open spec fn next_generation(n: u64) -> u64 {
    if n == u64::MAX {
        0
    } else {
        (n + 1) as u64
    }
}

impl AudioTransport {
    /// Nothing runs.
    pub open spec fn idle() -> Self {
        AudioTransport { starting: false, generation: 0, sender: false, receiver: false }
    }

    /// Nothing runs.
    pub fn new() -> (audio: Self)
        ensures
            audio == Self::idle(),
    {
        AudioTransport { starting: false, generation: 0, sender: false, receiver: false }
    }

    /// Everything stopped, and what may still come from a start made stale.
    pub open spec fn stopped(self) -> Self {
        AudioTransport {
            starting: false,
            generation: next_generation(self.generation),
            sender: false,
            receiver: false,
        }
    }

    /// What stopping everything takes, behind some effects.
    pub open spec fn stopping(self, before: Seq<Effect>) -> Seq<Effect> {
        before
            .push_if(self.starting, Effect::AbortAudioStart)
            .push_if(self.sender, Effect::StopAudioSender)
            .push_if(self.receiver, Effect::DropAudioReceiver)
    }

    /// Stops everything.
    pub fn stop(&mut self, out: &mut Vec<Effect>)
        ensures
            *final(self) == old(self).stopped(),
            final(out)@ == old(self).stopping(old(out)@),
    {
        push_when(out, self.starting, Effect::AbortAudioStart);
        push_when(out, self.sender, Effect::StopAudioSender);
        push_when(out, self.receiver, Effect::DropAudioReceiver);
        self.starting = false;
        self.sender = false;
        self.receiver = false;
        self.generation = if self.generation == u64::MAX {
            0
        } else {
            self.generation + 1
        };
    }
}

/// Whether an optional fingerprint is a given one.
pub open spec fn is_named(source: Option<String>, fingerprint: String) -> bool {
    source matches Some(source) && source@ == fingerprint@
}

/// Whether an optional fingerprint is a given one.
pub fn names(source: &Option<String>, fingerprint: &String) -> (same: bool)
    ensures
        same == is_named(*source, *fingerprint),
{
    match source {
        Some(source) => *source == *fingerprint,
        None => false,
    }
}

/// A copy of an optional text.
pub fn copy_text(text: &Option<String>) -> (copy: Option<String>)
    ensures
        copy == *text,
{
    match text {
        Some(text) => Some(text.clone()),
        None => None,
    }
}

/// How the tray shows where the audio comes from.
pub open spec fn audio_choice(source: Option<String>, local: String, peer: String) -> AudioChoice {
    if is_named(source, local) {
        AudioChoice::Local
    } else if is_named(source, peer) {
        AudioChoice::Peer
    } else {
        AudioChoice::Off
    }
}

/// How the tray shows where the audio comes from.
pub fn linux_audio_choice(source: &Option<String>, local: &String, peer: &String) -> (choice:
    AudioChoice)
    ensures
        choice == audio_choice(*source, *local, *peer),
{
    if names(source, local) {
        AudioChoice::Local
    } else if names(source, peer) {
        AudioChoice::Peer
    } else {
        AudioChoice::Off
    }
}

/// The edge that is opposite.
pub open spec fn opposite(edge: Edge) -> Edge {
    match edge {
        Edge::Left => Edge::Right,
        Edge::Right => Edge::Left,
        Edge::Top => Edge::Bottom,
        Edge::Bottom => Edge::Top,
    }
}

/// The edge that is opposite.
pub fn opposite_edge(edge: Edge) -> (other: Edge)
    ensures
        other == opposite(edge),
{
    match edge {
        Edge::Left => Edge::Right,
        Edge::Right => Edge::Left,
        Edge::Top => Edge::Bottom,
        Edge::Bottom => Edge::Top,
    }
}

/// A list holds what stood in it before and what was put behind it.
pub broadcast proof fn lemma_holds_push<T>(effects: Seq<T>, last: T, effect: T)
    ensures
        #[trigger] effects.push(last).contains(effect) == (effects.contains(effect) || effect
            == last),
{
    let longer = effects.push(last);
    if effects.contains(effect) {
        let i = choose|i: int| 0 <= i < effects.len() && effects[i] == effect;
        assert(longer[i] == effect);
    }
    if effect == last {
        assert(longer[effects.len() as int] == effect);
    }
    if longer.contains(effect) {
        let i = choose|i: int| 0 <= i < longer.len() && longer[i] == effect;
        if i < effects.len() {
            assert(effects[i] == effect);
        }
    }
}

/// A list with nothing in it holds no effect.
pub broadcast proof fn lemma_holds_empty<T>(effect: T)
    ensures
        !#[trigger] Seq::<T>::empty().contains(effect),
{
}

/// The edge opposite to the opposite edge is the edge itself, and never the
/// opposite one.
pub proof fn law_opposite_edges(edge: Edge)
    ensures
        opposite(opposite(edge)) == edge,
        opposite(edge) != edge,
{
}

/// What is said to the peer is carried by a frame as it was said, and each
/// message has frames of its own: a frame that carries two carries the same.
pub proof fn law_messages_are_carried_apart(
    one: Message,
    other: Message,
    frame: Frame,
    udp_port: u16,
)
    requires
        one.carried_by(frame, udp_port),
        other.carried_by(frame, udp_port),
    ensures
        one matches Message::Input { role_epoch, event } ==> other == (Message::Input {
            role_epoch,
            event,
        }) && frame == Frame::Input(InputFrame { role_epoch, event }),
        one matches Message::Control { role_epoch, event } ==> other == (Message::Control {
            role_epoch,
            event,
        }) && frame == Frame::Control(ControlFrame { role_epoch, event }),
        one matches Message::Heartbeat { sequence } ==> other == (Message::Heartbeat { sequence })
            && frame == Frame::Heartbeat(Heartbeat { sequence }),
        one matches Message::RoleRequest { controller_fingerprint } ==> frame == Frame::Role(
            RoleEvent::Request { controller_fingerprint },
        ) && other == one,
        one matches Message::RoleCommit(state) ==> frame == Frame::Role(RoleEvent::Commit(state))
            && other == one,
        one matches Message::RoleAbort(state) ==> frame == Frame::Role(RoleEvent::Abort(state))
            && other == one,
        one matches Message::RolePrepare(state) ==> frame == Frame::Role(
            RoleEvent::Prepare(state),
        ) && other == one,
        one matches Message::RolePaused { paused } ==> frame == Frame::Role(
            RoleEvent::SetPaused { paused },
        ) && other == one,
        one matches Message::AudioSetRoute { source_fingerprint } ==> frame == Frame::Audio(
            AudioControl::SetRoute { source_fingerprint },
        ) && other == one,
        one matches Message::AudioRequestRoute { source_fingerprint } ==> frame == Frame::Audio(
            AudioControl::RequestRoute { source_fingerprint },
        ) && other == one,
        one matches Message::AudioSetEnabled { enabled } ==> frame == Frame::Audio(
            AudioControl::SetEnabled { enabled },
        ) && other == one,
        one matches Message::AudioStop { reason } ==> frame == Frame::Audio(
            AudioControl::Stop { reason },
        ) && other == one,
        one matches Message::ClipboardCancel { transfer_id, reason } ==> frame == Frame::Clipboard(
            ClipboardEvent::ImageCancel { transfer_id, reason },
        ) && other == one,
        one matches Message::RoleReady { role_epoch, capture_ready, inject_ready, failure } ==> (
        frame matches Frame::Role(RoleEvent::Ready {
            role_epoch: epoch,
            capture_ready: captures,
            inject_ready: injects,
            failure_detail,
        }) && epoch == role_epoch && captures == capture_ready && injects == inject_ready
            && failure_detail is Some == failure is Some && (failure matches Some(detail)
            ==> failure_detail->Some_0@ == detail.words())),
        one matches Message::AudioState { state, detail } ==> (frame matches Frame::Audio(
            AudioControl::State { state: said, detail: words },
        ) && said == state && words is Some == detail is Some),
        one is AudioOffer ==> (frame matches Frame::Audio(AudioControl::Offer {
            udp_port: port,
            codecs,
        }) && port == udp_port && codecs@.len() == 1 && codecs@[0]
            == AudioCodec::PcmS16Stereo48Khz) && other is AudioOffer,
{
}

/// Stopping the audio ends all that runs, whatever does, and makes stale what a
/// start may still bring; nothing else is touched.
pub proof fn law_stopping_ends_all_that_runs(audio: AudioTransport, before: Seq<Effect>)
    ensures
        !audio.stopped().starting && !audio.stopped().sender && !audio.stopped().receiver,
        audio.stopped().generation != audio.generation,
        audio.starting ==> audio.stopping(before).contains(Effect::AbortAudioStart),
        audio.sender ==> audio.stopping(before).contains(Effect::StopAudioSender),
        audio.receiver ==> audio.stopping(before).contains(Effect::DropAudioReceiver),
        forall|effect: Effect| before.contains(effect) ==> #[trigger] audio.stopping(
            before,
        ).contains(effect),
{
    broadcast use {lemma_holds_push, lemma_holds_empty};

}

/// The tray shows the audio as coming from the computer that it comes from.
pub proof fn law_audio_is_shown_at_its_source(local: String, peer: String)
    requires
        local@ != peer@,
    ensures
        audio_choice(None, local, peer) == AudioChoice::Off,
        audio_choice(Some(local), local, peer) == AudioChoice::Local,
        audio_choice(Some(peer), local, peer) == AudioChoice::Peer,
{
}

/// The opposite of a side is a side, and that of the top or the bottom is the
/// other of these.
pub proof fn law_opposite_edges_face_each_other(edge: Edge)
    ensures
        opposite(edge) == Edge::Left || opposite(edge) == Edge::Right <==> edge == Edge::Left
            || edge == Edge::Right,
        opposite(edge) == Edge::Top || opposite(edge) == Edge::Bottom <==> edge == Edge::Top || edge
            == Edge::Bottom,
{
}

} // verus!
