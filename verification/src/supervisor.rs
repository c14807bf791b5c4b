//! What happens around sessions: when one is opened, and what ends it for good.

use crate::clock::{millis, Instant};
use crate::session::{
    lemma_holds_empty, lemma_holds_push, push_when, EffectList, TrayCommand,
};
use crate::text::{contains, has_at, has_part};
use crate::windows_session::{AudioLabel, ConnectedSessionExit, TrayCommandOutcome};
use vstd::prelude::*;

verus! {

/// How long a connection that failed is left alone, in milliseconds.
pub const RETRY_MILLIS: u64 = 2_000;

/// What a computer of another version is reported as.
pub const UPGRADE_PEER_STATUS: &'static str = "Upgrade the other computer";

/// One thing to do.
#[derive(Clone, Debug, PartialEq, Eq)]
pub enum LoopEffect {
    OpenSettings,
    ShowPairingArmed(bool),
    ShowListening,
    ShowConnected,
    ShowError(String),
    ShowDisconnectedByUser,
    ShowDisconnected(String),
    /// Wait a little, and take a command of the tray meanwhile.
    AwaitRetry,
    /// Wait a little.
    Sleep,
    /// Let go of all keys that a peer pressed.
    AllKeysUp,
    Quit,
}

/// No effects.
pub open spec fn calm() -> Seq<LoopEffect> {
    Seq::empty()
}

/// How a session ended.
#[derive(Clone, Debug, PartialEq, Eq)]
pub enum SessionEnd {
    Quit,
    Disconnect,
    Failed(String),
}

/// A computer that connects.
#[derive(Clone, Copy, Debug, PartialEq, Eq, Structural)]
pub struct ConnectorLoop {
    pub connection_enabled: bool,
    pub pairing_armed: bool,
}

impl ConnectorLoop {
    /// Connections are wanted; pairing as the user asked at the start.
    pub fn new(pairing_armed: bool) -> (state: Self)
        ensures
            state == (ConnectorLoop { connection_enabled: true, pairing_armed }),
    {
        ConnectorLoop { connection_enabled: true, pairing_armed }
    }

    /// Whether a connection is to be tried; else only the tray is listened to.
    pub fn connects(&self) -> (connects: bool)
        ensures
            connects == self.connection_enabled,
    {
        self.connection_enabled
    }

    /// The user has asked for something while no connection is wanted.
    pub open spec fn after_idle_tray(self, command: TrayCommand) -> (Self, Seq<LoopEffect>) {
        match command {
            TrayCommand::Reconnect => (ConnectorLoop { connection_enabled: true, ..self }, calm()),
            TrayCommand::ArmPairing => (
                ConnectorLoop { connection_enabled: true, pairing_armed: true },
                calm().push(LoopEffect::ShowPairingArmed(true)),
            ),
            TrayCommand::OpenSettings => (self, calm().push(LoopEffect::OpenSettings)),
            TrayCommand::Quit => (self, calm().push(LoopEffect::Quit)),
            _ => (self, calm()),
        }
    }

    /// The user has asked for something while no connection is wanted.
    pub fn on_idle_tray(&mut self, command: TrayCommand) -> (out: Vec<LoopEffect>)
        ensures
            (*final(self), out@) == old(self).after_idle_tray(command),
    {
        let mut out: Vec<LoopEffect> = Vec::new();
        match command {
            TrayCommand::Reconnect => {
                self.connection_enabled = true;
            },
            TrayCommand::ArmPairing => {
                self.pairing_armed = true;
                self.connection_enabled = true;
                out.push(LoopEffect::ShowPairingArmed(true));
            },
            TrayCommand::OpenSettings => {
                out.push(LoopEffect::OpenSettings);
            },
            TrayCommand::Quit => {
                out.push(LoopEffect::Quit);
            },
            _ => {},
        }
        out
    }

    /// A connection is there: pairing has served.
    pub open spec fn after_connected(self) -> (Self, Seq<LoopEffect>) {
        (
            ConnectorLoop { pairing_armed: false, ..self },
            calm().push(LoopEffect::ShowPairingArmed(false)).push(LoopEffect::ShowConnected),
        )
    }

    /// A connection stands: a pairing that was asked for is used up.
    pub fn on_connected(&mut self) -> (out: Vec<LoopEffect>)
        ensures
            (*final(self), out@) == old(self).after_connected(),
    {
        let mut out: Vec<LoopEffect> = Vec::new();
        self.pairing_armed = false;
        out.push(LoopEffect::ShowPairingArmed(false));
        out.push(LoopEffect::ShowConnected);
        out
    }

    /// A connection failed. A computer of another version is not tried again
    /// by itself; any other is, after a while.
    pub open spec fn after_failure(self, message: String) -> (Self, Seq<LoopEffect>) {
        if has_part(message@, UPGRADE_PEER_STATUS@) {
            (
                ConnectorLoop { connection_enabled: false, ..self },
                calm().push(LoopEffect::ShowError(message)),
            )
        } else {
            (self, calm().push(LoopEffect::ShowError(message)).push(LoopEffect::AwaitRetry))
        }
    }

    /// A connection failed.
    pub fn on_failure(&mut self, message: String) -> (out: Vec<LoopEffect>)
        ensures
            (*final(self), out@) == old(self).after_failure(message),
    {
        let mut out: Vec<LoopEffect> = Vec::new();
        let outdated: bool = contains(message.as_str(), UPGRADE_PEER_STATUS);
        out.push(LoopEffect::ShowError(message));
        if outdated {
            self.connection_enabled = false;
        } else {
            out.push(LoopEffect::AwaitRetry);
        }
        out
    }

    /// The user has asked for something while a connection is left alone.
    pub open spec fn after_retry_tray(self, command: TrayCommand) -> (Self, Seq<LoopEffect>) {
        match command {
            TrayCommand::Quit => (self, calm().push(LoopEffect::Quit)),
            TrayCommand::Disconnect => (
                ConnectorLoop { connection_enabled: false, ..self },
                calm(),
            ),
            TrayCommand::ArmPairing => (
                ConnectorLoop { pairing_armed: true, ..self },
                calm().push(LoopEffect::ShowPairingArmed(true)),
            ),
            TrayCommand::OpenSettings => (self, calm().push(LoopEffect::OpenSettings)),
            _ => (self, calm()),
        }
    }

    /// The user has asked for something while a connection is left alone.
    pub fn on_retry_tray(&mut self, command: TrayCommand) -> (out: Vec<LoopEffect>)
        ensures
            (*final(self), out@) == old(self).after_retry_tray(command),
    {
        let mut out: Vec<LoopEffect> = Vec::new();
        match command {
            TrayCommand::Quit => {
                out.push(LoopEffect::Quit);
            },
            TrayCommand::Disconnect => {
                self.connection_enabled = false;
            },
            TrayCommand::ArmPairing => {
                self.pairing_armed = true;
                out.push(LoopEffect::ShowPairingArmed(true));
            },
            TrayCommand::OpenSettings => {
                out.push(LoopEffect::OpenSettings);
            },
            _ => {},
        }
        out
    }

    /// A session has ended: on the user's wish for good or until they ask
    /// again; else another one is opened after a while.
    pub open spec fn after_session(self, end: SessionEnd) -> (Self, Seq<LoopEffect>) {
        match end {
            SessionEnd::Quit => (self, calm().push(LoopEffect::Quit)),
            SessionEnd::Disconnect => (
                ConnectorLoop { connection_enabled: false, ..self },
                calm().push(LoopEffect::ShowDisconnectedByUser),
            ),
            SessionEnd::Failed(error) => (
                self,
                calm().push(LoopEffect::ShowDisconnected(error)).push(LoopEffect::Sleep),
            ),
        }
    }

    /// A session has ended.
    pub fn on_session_end(&mut self, end: SessionEnd) -> (out: Vec<LoopEffect>)
        ensures
            (*final(self), out@) == old(self).after_session(end),
    {
        let mut out: Vec<LoopEffect> = Vec::new();
        match end {
            SessionEnd::Quit => {
                out.push(LoopEffect::Quit);
            },
            SessionEnd::Disconnect => {
                self.connection_enabled = false;
                out.push(LoopEffect::ShowDisconnectedByUser);
            },
            SessionEnd::Failed(error) => {
                out.push(LoopEffect::ShowDisconnected(error));
                out.push(LoopEffect::Sleep);
            },
        }
        out
    }
}

/// A computer of another version is not tried in a tight loop: after such a
/// failure no connection is tried until the user asks for one.
pub proof fn law_outdated_peer_is_not_retried(
    state: ConnectorLoop,
    message: String,
    command: TrayCommand,
)
    requires
        has_part(message@, UPGRADE_PEER_STATUS@),
        !(command is Reconnect),
        !(command is ArmPairing),
    ensures
        !state.after_failure(message).0.connection_enabled,
        !state.after_failure(message).0.after_idle_tray(command).0.connection_enabled,
{
}

/// A computer that is connected to.
#[derive(Clone, Copy, Debug, PartialEq, Eq, Structural)]
pub struct ListenerLoop {
    pub connection_enabled: bool,
    pub pairing_armed: bool,
}

impl ListenerLoop {
    /// Connections are accepted; pairing as the user asked at the start.
    pub fn new(pairing_armed: bool) -> (state: Self)
        ensures
            state == (ListenerLoop { connection_enabled: true, pairing_armed }),
    {
        ListenerLoop { connection_enabled: true, pairing_armed }
    }

    /// Whether a connection is accepted.
    pub fn accepts(&self) -> (accepts: bool)
        ensures
            accepts == self.connection_enabled,
    {
        self.connection_enabled
    }

    /// The user has asked for something while nobody is connected.
    pub open spec fn after_tray(self, command: TrayCommand) -> (Self, Seq<LoopEffect>) {
        match command {
            TrayCommand::OpenSettings => (self, calm().push(LoopEffect::OpenSettings)),
            TrayCommand::ArmPairing => (
                ListenerLoop { pairing_armed: true, ..self },
                calm().push(LoopEffect::ShowPairingArmed(true)).push(LoopEffect::ShowListening),
            ),
            TrayCommand::Quit => (self, calm().push(LoopEffect::Quit)),
            TrayCommand::Disconnect => (
                ListenerLoop { connection_enabled: false, ..self },
                calm().push(LoopEffect::ShowDisconnectedByUser),
            ),
            TrayCommand::Reconnect => (
                ListenerLoop { connection_enabled: true, ..self },
                calm().push(LoopEffect::ShowListening),
            ),
            _ => (self, calm()),
        }
    }

    /// The user has asked for something while nobody is connected.
    pub fn on_tray(&mut self, command: TrayCommand) -> (out: Vec<LoopEffect>)
        ensures
            (*final(self), out@) == old(self).after_tray(command),
    {
        let mut out: Vec<LoopEffect> = Vec::new();
        match command {
            TrayCommand::OpenSettings => {
                out.push(LoopEffect::OpenSettings);
            },
            TrayCommand::ArmPairing => {
                self.pairing_armed = true;
                out.push(LoopEffect::ShowPairingArmed(true));
                out.push(LoopEffect::ShowListening);
            },
            TrayCommand::Quit => {
                out.push(LoopEffect::Quit);
            },
            TrayCommand::Disconnect => {
                self.connection_enabled = false;
                out.push(LoopEffect::ShowDisconnectedByUser);
            },
            TrayCommand::Reconnect => {
                self.connection_enabled = true;
                out.push(LoopEffect::ShowListening);
            },
            _ => {},
        }
        out
    }

    /// A pairing was decided: it has served.
    pub open spec fn after_pairing(self) -> (Self, Seq<LoopEffect>) {
        (
            ListenerLoop { pairing_armed: false, ..self },
            calm().push(LoopEffect::ShowPairingArmed(false)),
        )
    }

    /// The users were asked: whatever they decided, the pairing is used up.
    pub fn on_pairing_decided(&mut self) -> (out: Vec<LoopEffect>)
        ensures
            (*final(self), out@) == old(self).after_pairing(),
    {
        let mut out: Vec<LoopEffect> = Vec::new();
        self.pairing_armed = false;
        out.push(LoopEffect::ShowPairingArmed(false));
        out
    }

    /// A connection is not accepted; the next one may be.
    pub fn on_refused(&self, message: String) -> (out: Vec<LoopEffect>)
        ensures
            out@ == calm().push(LoopEffect::ShowError(message)),
    {
        let mut out: Vec<LoopEffect> = Vec::new();
        out.push(LoopEffect::ShowError(message));
        out
    }

    /// A connection is there: pairing has served.
    pub open spec fn after_connected(self) -> (Self, Seq<LoopEffect>) {
        (
            ListenerLoop { pairing_armed: false, ..self },
            calm().push_if(self.pairing_armed, LoopEffect::ShowPairingArmed(false)).push(
                LoopEffect::ShowConnected,
            ),
        )
    }

    /// A connection stands: a pairing that was asked for is used up.
    pub fn on_connected(&mut self) -> (out: Vec<LoopEffect>)
        ensures
            (*final(self), out@) == old(self).after_connected(),
    {
        let mut out: Vec<LoopEffect> = Vec::new();
        push_when(&mut out, self.pairing_armed, LoopEffect::ShowPairingArmed(false));
        self.pairing_armed = false;
        out.push(LoopEffect::ShowConnected);
        out
    }

    /// A session has ended: no key stays pressed, however it ended.
    pub open spec fn after_session(self, end: SessionEnd) -> (Self, Seq<LoopEffect>) {
        match end {
            SessionEnd::Quit => (
                self,
                calm().push(LoopEffect::AllKeysUp).push(LoopEffect::Quit),
            ),
            SessionEnd::Disconnect => (
                ListenerLoop { connection_enabled: false, ..self },
                calm().push(LoopEffect::ShowDisconnectedByUser).push(LoopEffect::AllKeysUp),
            ),
            SessionEnd::Failed(error) => (
                self,
                calm().push(LoopEffect::ShowDisconnected(error)).push(LoopEffect::AllKeysUp),
            ),
        }
    }

    /// A session has ended.
    pub fn on_session_end(&mut self, end: SessionEnd) -> (out: Vec<LoopEffect>)
        ensures
            (*final(self), out@) == old(self).after_session(end),
    {
        let mut out: Vec<LoopEffect> = Vec::new();
        match end {
            SessionEnd::Quit => {
                out.push(LoopEffect::AllKeysUp);
                out.push(LoopEffect::Quit);
            },
            SessionEnd::Disconnect => {
                self.connection_enabled = false;
                out.push(LoopEffect::ShowDisconnectedByUser);
                out.push(LoopEffect::AllKeysUp);
            },
            SessionEnd::Failed(error) => {
                out.push(LoopEffect::ShowDisconnected(error));
                out.push(LoopEffect::AllKeysUp);
            },
        }
        out
    }
}

/// Pairing that was asked for serves one connection: once one stands or its
/// users were asked, it has to be asked for again.
pub proof fn law_pairing_serves_once(state: ListenerLoop, end: SessionEnd)
    requires
        !state.pairing_armed,
    ensures
        !state.after_session(end).0.pairing_armed,
{
}

/// What the tray of a controller with Windows says of the connection.
#[derive(Clone, Debug, PartialEq, Eq)]
pub enum WindowsStatus {
    Connected(String),
    Connecting,
    Disconnected,
    DisconnectedByUser,
    EnablePairing,
    IdentityChanged,
    PairingRequired,
    UpgradePeer,
}

impl WindowsStatus {
    /// The words for it.
    pub open spec fn words(self) -> Seq<char> {
        match self {
            WindowsStatus::Connected(status) => status@,
            WindowsStatus::Connecting => "Connecting"@,
            WindowsStatus::Disconnected => "Disconnected"@,
            WindowsStatus::DisconnectedByUser => "Disconnected by user"@,
            WindowsStatus::EnablePairing => "Pairing: enable pairing on the laptop"@,
            WindowsStatus::IdentityChanged => "Identity changed \u{2014} pair again"@,
            WindowsStatus::PairingRequired => "Pairing required on both computers"@,
            WindowsStatus::UpgradePeer => UPGRADE_PEER_STATUS@,
        }
    }

    /// The words for it.
    pub fn text(&self) -> (text: String)
        ensures
            text@ == self.words(),
    {
        match self {
            WindowsStatus::Connected(status) => status.clone(),
            WindowsStatus::Connecting => "Connecting".to_owned(),
            WindowsStatus::Disconnected => "Disconnected".to_owned(),
            WindowsStatus::DisconnectedByUser => "Disconnected by user".to_owned(),
            WindowsStatus::EnablePairing => "Pairing: enable pairing on the laptop".to_owned(),
            WindowsStatus::IdentityChanged => "Identity changed \u{2014} pair again".to_owned(),
            WindowsStatus::PairingRequired => "Pairing required on both computers".to_owned(),
            WindowsStatus::UpgradePeer => UPGRADE_PEER_STATUS.to_owned(),
        }
    }
}

/// What a failure to connect is shown as.
pub open spec fn failure_status(message: Seq<char>) -> WindowsStatus {
    if has_part(message, "fingerprint mismatch"@) {
        WindowsStatus::IdentityChanged
    } else if has_part(message, "pairing"@) || has_part(message, "not paired"@) {
        WindowsStatus::PairingRequired
    } else if has_part(message, UPGRADE_PEER_STATUS@) {
        WindowsStatus::UpgradePeer
    } else {
        WindowsStatus::Disconnected
    }
}

/// What a failure to connect is shown as.
pub fn classify_failure(message: &str) -> (status: WindowsStatus)
    ensures
        status == failure_status(message@),
{
    if contains(message, "fingerprint mismatch") {
        WindowsStatus::IdentityChanged
    } else if contains(message, "pairing") || contains(message, "not paired") {
        WindowsStatus::PairingRequired
    } else if contains(message, UPGRADE_PEER_STATUS) {
        WindowsStatus::UpgradePeer
    } else {
        WindowsStatus::Disconnected
    }
}

/// Whether the tray is run: it is asked for, or nothing else is.
pub fn should_run_tray(tray: bool, dry_run: bool, test_input: bool, test_clipboard_text: bool)
    -> (run: bool)
    ensures
        run == (tray || !dry_run && !test_input && !test_clipboard_text),
{
    tray || (!dry_run && !test_input && !test_clipboard_text)
}

/// One thing that a controller with Windows does around its sessions.
#[derive(Clone, Debug, PartialEq, Eq)]
pub enum WindowsLoopEffect {
    ShowStatus(WindowsStatus),
    ShowAudio { enabled: bool, label: AudioLabel },
    ShowForwarding(bool),
    /// Give up a connection that no session runs on yet.
    DropConnection,
    /// Give control back to this computer at once.
    ForceRelease,
    Quit,
}

/// No effects.
pub open spec fn still() -> Seq<WindowsLoopEffect> {
    Seq::empty()
}

/// A controller with Windows and a tray.
#[derive(Clone, Copy, Debug, PartialEq, Eq, Structural)]
pub struct WindowsLoop {
    pub connection_enabled: bool,
    pub pairing_armed: bool,
    pub input_forwarding_enabled: bool,
    pub audio_enabled: bool,
    pub next_connect_attempt: Instant,
}

/// How a session of a controller with Windows ended.
#[derive(Clone, Copy, Debug, PartialEq, Eq, Structural)]
pub enum WindowsSessionEnd {
    Exit(ConnectedSessionExit),
    Failed,
}

impl WindowsLoop {
    /// A connection is to be tried now.
    pub open spec fn is_due(self, now: Instant) -> bool {
        self.connection_enabled && now.nanos >= self.next_connect_attempt.nanos
    }

    /// The audio, off or waiting for something.
    pub open spec fn waiting(self, label: AudioLabel) -> WindowsLoopEffect {
        WindowsLoopEffect::ShowAudio {
            enabled: self.audio_enabled,
            label: if self.audio_enabled {
                label
            } else {
                AudioLabel::Off
            },
        }
    }

    fn show_waiting(&self, label: AudioLabel) -> (effect: WindowsLoopEffect)
        ensures
            effect == self.waiting(label),
    {
        WindowsLoopEffect::ShowAudio {
            enabled: self.audio_enabled,
            label: if self.audio_enabled {
                label
            } else {
                AudioLabel::Off
            },
        }
    }

    /// Where a computer with Windows begins, behind its first attempt.
    pub open spec fn starting(
        pairing_armed: bool,
        audio_enabled: bool,
        connected: bool,
        pairing_consumed: bool,
        outdated: bool,
        now: Instant,
    ) -> Self {
        WindowsLoop {
            connection_enabled: !outdated,
            pairing_armed: pairing_armed && !connected && !pairing_consumed,
            input_forwarding_enabled: true,
            audio_enabled,
            next_connect_attempt: if connected {
                now
            } else {
                now.later(millis(RETRY_MILLIS as int))
            },
        }
    }

    /// A first connection was tried. `outdated` where the other computer has
    /// another version.
    pub fn start(
        pairing_armed: bool,
        audio_enabled: bool,
        connected: bool,
        pairing_consumed: bool,
        outdated: bool,
        now: Instant,
    ) -> (begun: (Self, Vec<WindowsLoopEffect>))
        ensures
            begun.0 == Self::starting(
                pairing_armed,
                audio_enabled,
                connected,
                pairing_consumed,
                outdated,
                now,
            ),
            begun.1@ == still().push(begun.0.waiting(AudioLabel::WaitingForConnection)).push(
                WindowsLoopEffect::ShowForwarding(true),
            ),
    {
        let state = WindowsLoop {
            connection_enabled: !outdated,
            pairing_armed: pairing_armed && !connected && !pairing_consumed,
            input_forwarding_enabled: true,
            audio_enabled,
            next_connect_attempt: if connected {
                now
            } else {
                now.plus_millis(RETRY_MILLIS)
            },
        };
        let mut out: Vec<WindowsLoopEffect> = Vec::new();
        out.push(state.show_waiting(AudioLabel::WaitingForConnection));
        out.push(WindowsLoopEffect::ShowForwarding(true));
        (state, out)
    }

    /// The user has asked for something while no session runs.
    pub open spec fn after_tray(self, outcome: TrayCommandOutcome, now: Instant) -> (
        Self,
        Seq<WindowsLoopEffect>,
    ) {
        match outcome {
            TrayCommandOutcome::Quit => (self, still().push(WindowsLoopEffect::Quit)),
            TrayCommandOutcome::Disconnect => (
                WindowsLoop { connection_enabled: false, ..self },
                still()
                    .push(WindowsLoopEffect::DropConnection)
                    .push(WindowsLoopEffect::ForceRelease)
                    .push(WindowsLoopEffect::ShowStatus(WindowsStatus::DisconnectedByUser))
                    .push(self.waiting(AudioLabel::Paused)),
            ),
            TrayCommandOutcome::Reconnect => (
                WindowsLoop { connection_enabled: true, next_connect_attempt: now, ..self },
                still().push(WindowsLoopEffect::ShowStatus(WindowsStatus::Connecting)),
            ),
            TrayCommandOutcome::Pair => (
                WindowsLoop {
                    pairing_armed: true,
                    connection_enabled: true,
                    next_connect_attempt: now,
                    ..self
                },
                still()
                    .push(WindowsLoopEffect::DropConnection)
                    .push(WindowsLoopEffect::ShowStatus(WindowsStatus::EnablePairing)),
            ),
            TrayCommandOutcome::InputForwardingChanged(enabled) => (
                WindowsLoop { input_forwarding_enabled: enabled, ..self },
                still().push(WindowsLoopEffect::ShowForwarding(enabled)),
            ),
            TrayCommandOutcome::AudioChanged(enabled) => (
                WindowsLoop { audio_enabled: enabled, ..self },
                still().push(
                    WindowsLoopEffect::ShowAudio {
                        enabled,
                        label: if enabled && self.connection_enabled {
                            AudioLabel::Starting
                        } else if enabled {
                            AudioLabel::Paused
                        } else {
                            AudioLabel::Off
                        },
                    },
                ),
            ),
            TrayCommandOutcome::Continue => (self, still()),
        }
    }

    /// The user has asked for something while no session runs.
    pub fn on_tray(&mut self, outcome: TrayCommandOutcome, now: Instant) -> (out: Vec<
        WindowsLoopEffect,
    >)
        ensures
            (*final(self), out@) == old(self).after_tray(outcome, now),
    {
        let mut out: Vec<WindowsLoopEffect> = Vec::new();
        match outcome {
            TrayCommandOutcome::Quit => {
                out.push(WindowsLoopEffect::Quit);
            },
            TrayCommandOutcome::Disconnect => {
                self.connection_enabled = false;
                out.push(WindowsLoopEffect::DropConnection);
                out.push(WindowsLoopEffect::ForceRelease);
                out.push(WindowsLoopEffect::ShowStatus(WindowsStatus::DisconnectedByUser));
                out.push(self.show_waiting(AudioLabel::Paused));
            },
            TrayCommandOutcome::Reconnect => {
                self.connection_enabled = true;
                self.next_connect_attempt = now;
                out.push(WindowsLoopEffect::ShowStatus(WindowsStatus::Connecting));
            },
            TrayCommandOutcome::Pair => {
                self.pairing_armed = true;
                self.connection_enabled = true;
                self.next_connect_attempt = now;
                out.push(WindowsLoopEffect::DropConnection);
                out.push(WindowsLoopEffect::ShowStatus(WindowsStatus::EnablePairing));
            },
            TrayCommandOutcome::InputForwardingChanged(enabled) => {
                self.input_forwarding_enabled = enabled;
                out.push(WindowsLoopEffect::ShowForwarding(enabled));
            },
            TrayCommandOutcome::AudioChanged(enabled) => {
                let label: AudioLabel = if enabled && self.connection_enabled {
                    AudioLabel::Starting
                } else if enabled {
                    AudioLabel::Paused
                } else {
                    AudioLabel::Off
                };
                self.audio_enabled = enabled;
                out.push(WindowsLoopEffect::ShowAudio { enabled, label });
            },
            TrayCommandOutcome::Continue => {},
        }
        out
    }

    /// A session has ended; `forwarding` is what it left behind.
    pub open spec fn after_session(self, end: WindowsSessionEnd, forwarding: bool, now: Instant)
        -> (Self, Seq<WindowsLoopEffect>) {
        let s = WindowsLoop { input_forwarding_enabled: forwarding, ..self };
        match end {
            WindowsSessionEnd::Exit(ConnectedSessionExit::Quit) => (
                s,
                still().push(WindowsLoopEffect::Quit),
            ),
            WindowsSessionEnd::Exit(ConnectedSessionExit::Disconnect) => (
                WindowsLoop { connection_enabled: false, ..s },
                still()
                    .push(WindowsLoopEffect::ShowStatus(WindowsStatus::DisconnectedByUser))
                    .push(self.waiting(AudioLabel::Paused)),
            ),
            WindowsSessionEnd::Exit(ConnectedSessionExit::Pair) => (
                WindowsLoop {
                    pairing_armed: true,
                    connection_enabled: true,
                    next_connect_attempt: now,
                    ..s
                },
                still().push(WindowsLoopEffect::ShowStatus(WindowsStatus::EnablePairing)),
            ),
            WindowsSessionEnd::Failed => (
                WindowsLoop {
                    next_connect_attempt: now.later(millis(RETRY_MILLIS as int)),
                    ..s
                },
                still()
                    .push(WindowsLoopEffect::ShowStatus(WindowsStatus::Disconnected))
                    .push(self.waiting(AudioLabel::WaitingForConnection)),
            ),
        }
    }

    /// A session has ended; `forwarding` is what it left behind.
    pub fn on_session_end(&mut self, end: WindowsSessionEnd, forwarding: bool, now: Instant) -> (out:
        Vec<WindowsLoopEffect>)
        ensures
            (*final(self), out@) == old(self).after_session(end, forwarding, now),
    {
        let mut out: Vec<WindowsLoopEffect> = Vec::new();
        self.input_forwarding_enabled = forwarding;
        match end {
            WindowsSessionEnd::Exit(ConnectedSessionExit::Quit) => {
                out.push(WindowsLoopEffect::Quit);
            },
            WindowsSessionEnd::Exit(ConnectedSessionExit::Disconnect) => {
                self.connection_enabled = false;
                out.push(WindowsLoopEffect::ShowStatus(WindowsStatus::DisconnectedByUser));
                out.push(self.show_waiting(AudioLabel::Paused));
            },
            WindowsSessionEnd::Exit(ConnectedSessionExit::Pair) => {
                self.pairing_armed = true;
                self.connection_enabled = true;
                self.next_connect_attempt = now;
                out.push(WindowsLoopEffect::ShowStatus(WindowsStatus::EnablePairing));
            },
            WindowsSessionEnd::Failed => {
                self.next_connect_attempt = now.plus_millis(RETRY_MILLIS);
                out.push(WindowsLoopEffect::ShowStatus(WindowsStatus::Disconnected));
                out.push(self.show_waiting(AudioLabel::WaitingForConnection));
            },
        }
        out
    }

    /// Whether a connection is to be tried now.
    pub fn connects(&self, now: Instant) -> (connects: bool)
        ensures
            connects == self.is_due(now),
    {
        self.connection_enabled && now.nanos >= self.next_connect_attempt.nanos
    }

    /// A connection was tried: a pairing may be used up, and a failure puts
    /// the next try off, for good where the other computer has another
    /// version.
    pub open spec fn after_attempt(
        self,
        connected: bool,
        pairing_consumed: bool,
        status: WindowsStatus,
        now: Instant,
    ) -> (Self, Seq<WindowsLoopEffect>) {
        let outdated = status is UpgradePeer;
        (
            WindowsLoop {
                pairing_armed: self.pairing_armed && !connected && !pairing_consumed,
                connection_enabled: self.connection_enabled && (connected || !outdated),
                next_connect_attempt: if !connected && !outdated {
                    now.later(millis(RETRY_MILLIS as int))
                } else {
                    self.next_connect_attempt
                },
                ..self
            },
            still().push(WindowsLoopEffect::ShowStatus(status)),
        )
    }

    /// A connection was tried.
    pub fn on_attempt(
        &mut self,
        connected: bool,
        pairing_consumed: bool,
        status: WindowsStatus,
        now: Instant,
    ) -> (out: Vec<WindowsLoopEffect>)
        ensures
            (*final(self), out@) == old(self).after_attempt(
                connected,
                pairing_consumed,
                status,
                now,
            ),
    {
        let mut out: Vec<WindowsLoopEffect> = Vec::new();
        let outdated: bool = match &status {
            WindowsStatus::UpgradePeer => true,
            _ => false,
        };
        if connected || pairing_consumed {
            self.pairing_armed = false;
        }
        if !connected {
            if outdated {
                self.connection_enabled = false;
            } else {
                self.next_connect_attempt = now.plus_millis(RETRY_MILLIS);
            }
        }
        out.push(WindowsLoopEffect::ShowStatus(status));
        out
    }
}

/// A controller with Windows does not retry a computer of another version
/// until the user asks, and retries any other only after a while.
pub proof fn law_windows_retries_with_care(
    state: WindowsLoop,
    pairing_consumed: bool,
    status: WindowsStatus,
    now: Instant,
)
    requires
        now.nanos < u64::MAX,
    ensures
        ({
            let after = state.after_attempt(false, pairing_consumed, status, now).0;
            if status is UpgradePeer {
                !after.connection_enabled
            } else {
                after.next_connect_attempt.nanos > now.nanos
            }
        }),
{
}

/// A connector that waits does what its user asks: it connects again when told
/// to or when pairing is asked for, and stays apart when told to.
pub proof fn law_connector_loop_obeys(state: ConnectorLoop)
    ensures
        ({
            let (after, effects) = state.after_idle_tray(TrayCommand::Reconnect);
            &&& after.connection_enabled
            &&& after.pairing_armed == state.pairing_armed
            &&& effects.len() == 0
        }),
        ({
            let (after, effects) = state.after_idle_tray(TrayCommand::ArmPairing);
            &&& after.connection_enabled && after.pairing_armed
            &&& effects =~= seq![LoopEffect::ShowPairingArmed(true)]
        }),
        state.after_idle_tray(TrayCommand::Quit).1 =~= seq![LoopEffect::Quit],
        state.after_idle_tray(TrayCommand::OpenSettings).1 =~= seq![LoopEffect::OpenSettings],
        state.after_retry_tray(TrayCommand::Quit).1 =~= seq![LoopEffect::Quit],
        state.after_retry_tray(TrayCommand::OpenSettings).1 =~= seq![LoopEffect::OpenSettings],
        ({
            let (after, effects) = state.after_retry_tray(TrayCommand::Disconnect);
            &&& !after.connection_enabled
            &&& after.pairing_armed == state.pairing_armed
        }),
        ({
            let (after, effects) = state.after_retry_tray(TrayCommand::ArmPairing);
            &&& after.connection_enabled == state.connection_enabled && after.pairing_armed
            &&& effects =~= seq![LoopEffect::ShowPairingArmed(true)]
        }),
{
}

/// A connection that fails is shown with its reason and tried again after a
/// wait, unless the other computer has to be upgraded; and it stays as armed
/// for pairing as it was.
pub proof fn law_connector_tries_again(state: ConnectorLoop, message: String)
    ensures
        ({
            let (after, effects) = state.after_failure(message);
            let outdated = exists|i: int|
                #![trigger message@.subrange(i, i + UPGRADE_PEER_STATUS@.len())]
                0 <= i && i + UPGRADE_PEER_STATUS@.len() <= message@.len() && message@.subrange(
                    i,
                    i + UPGRADE_PEER_STATUS@.len(),
                ) == UPGRADE_PEER_STATUS@;
            &&& effects.len() > 0 && effects[0] == LoopEffect::ShowError(message)
            &&& after.pairing_armed == state.pairing_armed
            &&& outdated ==> !after.connection_enabled && effects.len() == 1
            &&& !outdated ==> after.connection_enabled == state.connection_enabled
                && effects.last() == LoopEffect::AwaitRetry
        }),
{
    let part = UPGRADE_PEER_STATUS@;
    if has_part(message@, part) {
        let at = choose|at: int| has_at(message@, part, at);
        assert(message@.subrange(at, at + part.len()) == part);
    }
    assert forall|i: int|
        #![trigger message@.subrange(i, i + part.len())]
        0 <= i && i + part.len() <= message@.len() && message@.subrange(i, i + part.len())
            == part implies has_part(message@, part) by {
        assert(has_at(message@, part, i));
    }
}

/// How a session's end is followed: quitting quits, a disconnect stays apart
/// until told otherwise, and a failure is shown and followed by another try. A
/// listener lets go of all keys in each case.
pub proof fn law_session_end_is_followed(
    connector: ConnectorLoop,
    listener: ListenerLoop,
    error: String,
)
    ensures
        connector.after_session(SessionEnd::Quit).1 =~= seq![LoopEffect::Quit],
        !connector.after_session(SessionEnd::Disconnect).0.connection_enabled,
        connector.after_session(SessionEnd::Disconnect).1 =~= seq![
            LoopEffect::ShowDisconnectedByUser,
        ],
        connector.after_session(SessionEnd::Failed(error)).0 == connector,
        connector.after_session(SessionEnd::Failed(error)).1 =~= seq![
            LoopEffect::ShowDisconnected(error),
            LoopEffect::Sleep,
        ],
        listener.after_session(SessionEnd::Quit).1 =~= seq![
            LoopEffect::AllKeysUp,
            LoopEffect::Quit,
        ],
        !listener.after_session(SessionEnd::Disconnect).0.connection_enabled,
        listener.after_session(SessionEnd::Disconnect).1 =~= seq![
            LoopEffect::ShowDisconnectedByUser,
            LoopEffect::AllKeysUp,
        ],
        listener.after_session(SessionEnd::Failed(error)).0 == listener,
        listener.after_session(SessionEnd::Failed(error)).1 =~= seq![
            LoopEffect::ShowDisconnected(error),
            LoopEffect::AllKeysUp,
        ],
{
}

/// A listener that waits does what its user asks: it accepts again when told
/// to, stays apart when told to, and can be armed for pairing in between.
pub proof fn law_listener_loop_obeys(state: ListenerLoop)
    ensures
        ({
            let (after, effects) = state.after_tray(TrayCommand::Reconnect);
            &&& after.connection_enabled && after.pairing_armed == state.pairing_armed
            &&& effects =~= seq![LoopEffect::ShowListening]
        }),
        ({
            let (after, effects) = state.after_tray(TrayCommand::Disconnect);
            &&& !after.connection_enabled && after.pairing_armed == state.pairing_armed
            &&& effects =~= seq![LoopEffect::ShowDisconnectedByUser]
        }),
        ({
            let (after, effects) = state.after_tray(TrayCommand::ArmPairing);
            &&& after.pairing_armed && after.connection_enabled == state.connection_enabled
            &&& effects =~= seq![LoopEffect::ShowPairingArmed(true), LoopEffect::ShowListening]
        }),
        state.after_tray(TrayCommand::Quit).1 =~= seq![LoopEffect::Quit],
        state.after_tray(TrayCommand::OpenSettings).1 =~= seq![LoopEffect::OpenSettings],
{
}

/// A computer with Windows does what its user asks, connected or not:
/// disconnecting gives control back and holds until told otherwise,
/// reconnecting and pairing try at once, and switches hold from then on.
pub proof fn law_windows_loop_obeys(state: WindowsLoop, enabled: bool, now: Instant)
    ensures
        state.after_tray(TrayCommandOutcome::Quit, now).1 =~= seq![WindowsLoopEffect::Quit],
        ({
            let (after, effects) = state.after_tray(TrayCommandOutcome::Disconnect, now);
            &&& after == (WindowsLoop { connection_enabled: false, ..state })
            &&& effects.contains(WindowsLoopEffect::DropConnection)
            &&& effects.contains(WindowsLoopEffect::ForceRelease)
            &&& effects.contains(WindowsLoopEffect::ShowStatus(WindowsStatus::DisconnectedByUser))
            &&& effects.last() == (WindowsLoopEffect::ShowAudio {
                enabled: state.audio_enabled,
                label: if state.audio_enabled {
                    AudioLabel::Paused
                } else {
                    AudioLabel::Off
                },
            })
        }),
        ({
            let (after, effects) = state.after_tray(TrayCommandOutcome::Reconnect, now);
            &&& after == (WindowsLoop {
                connection_enabled: true,
                next_connect_attempt: now,
                ..state
            })
            &&& effects =~= seq![WindowsLoopEffect::ShowStatus(WindowsStatus::Connecting)]
        }),
        ({
            let (after, effects) = state.after_tray(TrayCommandOutcome::Pair, now);
            &&& after == (WindowsLoop {
                connection_enabled: true,
                pairing_armed: true,
                next_connect_attempt: now,
                ..state
            })
            &&& effects.contains(WindowsLoopEffect::DropConnection)
            &&& effects.contains(WindowsLoopEffect::ShowStatus(WindowsStatus::EnablePairing))
        }),
        ({
            let (after, effects) = state.after_tray(
                TrayCommandOutcome::InputForwardingChanged(enabled),
                now,
            );
            &&& after == (WindowsLoop { input_forwarding_enabled: enabled, ..state })
            &&& effects =~= seq![WindowsLoopEffect::ShowForwarding(enabled)]
        }),
        ({
            let (after, effects) = state.after_tray(TrayCommandOutcome::AudioChanged(enabled), now);
            &&& after == (WindowsLoop { audio_enabled: enabled, ..state })
            &&& effects.len() == 1
            &&& effects[0] matches WindowsLoopEffect::ShowAudio { enabled: shown, label }
            &&& shown == enabled
            &&& label == if !enabled {
                AudioLabel::Off
            } else if state.connection_enabled {
                AudioLabel::Starting
            } else {
                AudioLabel::Paused
            }
        }),
{
    broadcast use {lemma_holds_push, lemma_holds_empty};

}

/// What follows a session of a computer with Windows: quitting quits, a
/// disconnect holds until told otherwise, pairing is tried at once, and a
/// failure is tried again after two seconds. Forwarding stays as it was left.
pub proof fn law_windows_session_end_is_followed(
    state: WindowsLoop,
    forwarding: bool,
    now: Instant,
)
    ensures
        ({
            let end = WindowsSessionEnd::Exit(ConnectedSessionExit::Quit);
            let (after, effects) = state.after_session(end, forwarding, now);
            &&& after.input_forwarding_enabled == forwarding
            &&& effects =~= seq![WindowsLoopEffect::Quit]
        }),
        ({
            let end = WindowsSessionEnd::Exit(ConnectedSessionExit::Disconnect);
            let (after, effects) = state.after_session(end, forwarding, now);
            &&& after.input_forwarding_enabled == forwarding
            &&& !after.connection_enabled
            &&& after.pairing_armed == state.pairing_armed
            &&& effects.contains(WindowsLoopEffect::ShowStatus(WindowsStatus::DisconnectedByUser))
        }),
        ({
            let end = WindowsSessionEnd::Exit(ConnectedSessionExit::Pair);
            let (after, effects) = state.after_session(end, forwarding, now);
            &&& after.input_forwarding_enabled == forwarding
            &&& after.connection_enabled
            &&& after.pairing_armed
            &&& after.next_connect_attempt == now
            &&& effects.contains(WindowsLoopEffect::ShowStatus(WindowsStatus::EnablePairing))
        }),
        ({
            let (after, effects) = state.after_session(WindowsSessionEnd::Failed, forwarding, now);
            &&& after.input_forwarding_enabled == forwarding
            &&& after.connection_enabled == state.connection_enabled
            &&& after.pairing_armed == state.pairing_armed
            &&& now.nanos + 2_000_000_000 <= u64::MAX ==> after.next_connect_attempt.nanos
                == now.nanos + 2_000_000_000
            &&& effects.contains(WindowsLoopEffect::ShowStatus(WindowsStatus::Disconnected))
            &&& effects.last() == (WindowsLoopEffect::ShowAudio {
                enabled: state.audio_enabled,
                label: if state.audio_enabled {
                    AudioLabel::WaitingForConnection
                } else {
                    AudioLabel::Off
                },
            })
        }),
{
    broadcast use {lemma_holds_push, lemma_holds_empty};

}

/// An attempt to connect leaves a computer with Windows where it belongs: it
/// is shown, pairing serves one connection, a failure is tried again after two
/// seconds, and a computer that has to be upgraded is not tried again.
pub proof fn law_windows_attempt_is_followed(
    state: WindowsLoop,
    connected: bool,
    pairing_consumed: bool,
    status: WindowsStatus,
    now: Instant,
)
    ensures
        ({
            let (after, effects) = state.after_attempt(connected, pairing_consumed, status, now);
            let outdated = status == WindowsStatus::UpgradePeer;
            &&& effects =~= seq![WindowsLoopEffect::ShowStatus(status)]
            &&& after.pairing_armed <==> state.pairing_armed && !connected && !pairing_consumed
            &&& after.connection_enabled <==> state.connection_enabled && (connected || !outdated)
            &&& !connected && !outdated && now.nanos + 2_000_000_000 <= u64::MAX
                ==> after.next_connect_attempt.nanos == now.nanos + 2_000_000_000
            &&& connected || outdated ==> after.next_connect_attempt == state.next_connect_attempt
            &&& after.input_forwarding_enabled == state.input_forwarding_enabled
            &&& after.audio_enabled == state.audio_enabled
        }),
{
}

/// A failure is shown as what it is: another key first, then what pairing would
/// mend, then what an upgrade would, and else as no connection.
pub proof fn law_failures_are_told_apart(message: Seq<char>)
    ensures
        ({
            let status = failure_status(message);
            let other_key = has_part(message, "fingerprint mismatch"@);
            let unpaired = has_part(message, "pairing"@) || has_part(message, "not paired"@);
            let outdated = has_part(message, "Upgrade the other computer"@);
            &&& status == WindowsStatus::IdentityChanged <==> other_key
            &&& status == WindowsStatus::PairingRequired <==> !other_key && unpaired
            &&& status == WindowsStatus::UpgradePeer <==> !other_key && !unpaired && outdated
            &&& status == WindowsStatus::Disconnected <==> !other_key && !unpaired && !outdated
        }),
{
}

/// After a failure a computer with Windows leaves the other one alone for two
/// seconds and then tries again; told to reconnect it tries at once, and told to
/// disconnect it does not try at all.
pub proof fn law_windows_waits_between_tries(
    state: WindowsLoop,
    status: WindowsStatus,
    failed: Instant,
    now: Instant,
)
    requires
        state.connection_enabled,
        status != WindowsStatus::UpgradePeer,
        failed.nanos + 2_000_000_000 <= u64::MAX,
    ensures
        state.after_attempt(false, false, status, failed).0.is_due(now) <==> now.nanos
            >= failed.nanos + 2_000_000_000,
        state.after_tray(TrayCommandOutcome::Reconnect, now).0.is_due(now),
        state.after_tray(TrayCommandOutcome::Pair, now).0.is_due(now),
        !state.after_tray(TrayCommandOutcome::Disconnect, now).0.is_due(now),
        state.after_session(WindowsSessionEnd::Failed, true, failed).0.is_due(now) <==> now.nanos
            >= failed.nanos + 2_000_000_000,
{
}

/// A connection is shown, and uses up what was asked for of pairing, on either
/// side; so does a pairing that was decided. Whether to connect stays as it was.
pub proof fn law_connection_uses_pairing_up(connector: ConnectorLoop, listener: ListenerLoop)
    ensures
        ({
            let (after, effects) = connector.after_connected();
            &&& !after.pairing_armed
            &&& after.connection_enabled == connector.connection_enabled
            &&& effects.contains(LoopEffect::ShowConnected)
            &&& effects.contains(LoopEffect::ShowPairingArmed(false))
        }),
        ({
            let (after, effects) = listener.after_connected();
            &&& !after.pairing_armed
            &&& after.connection_enabled == listener.connection_enabled
            &&& effects.contains(LoopEffect::ShowConnected)
            &&& effects.contains(LoopEffect::ShowPairingArmed(false)) <==> listener.pairing_armed
        }),
        ({
            let (after, effects) = listener.after_pairing();
            &&& !after.pairing_armed
            &&& after.connection_enabled == listener.connection_enabled
            &&& effects =~= seq![LoopEffect::ShowPairingArmed(false)]
        }),
{
    broadcast use {lemma_holds_push, lemma_holds_empty};

}

/// Where a computer with Windows begins: it goes on trying unless the other one
/// has to be upgraded, at once where it was connected and after two seconds
/// else; pairing was used up by a connection or a decision; input is forwarded.
pub proof fn law_windows_begins_ready_to_connect(
    pairing_armed: bool,
    audio_enabled: bool,
    connected: bool,
    pairing_consumed: bool,
    outdated: bool,
    now: Instant,
)
    ensures
        ({
            let state = WindowsLoop::starting(
                pairing_armed,
                audio_enabled,
                connected,
                pairing_consumed,
                outdated,
                now,
            );
            &&& state.connection_enabled == !outdated
            &&& state.pairing_armed <==> pairing_armed && !connected && !pairing_consumed
            &&& state.input_forwarding_enabled
            &&& state.audio_enabled == audio_enabled
            &&& connected && !outdated ==> state.is_due(now)
            &&& !connected && now.nanos + 2_000_000_000 <= u64::MAX
                ==> state.next_connect_attempt.nanos == now.nanos + 2_000_000_000
        }),
{
}

} // verus!
