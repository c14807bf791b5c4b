//! The session of a controller with Windows.
//!
//! It always controls, in the first epoch. The hooks of the desktop capture;
//! the clipboard is kept apart.

use crate::clipboard_sync::SyncState;
use crate::config::AppConfig;
use crate::listener::{keys_up, offers_pcm};
use crate::live_clipboard::{LiveClipboardState, LiveState};
use crate::protocol::{
    AudioCodec, AudioControl, AudioStopReason, AudioStreamState, ClipboardCancelReason,
    ClipboardEvent, ControlEvent, ControlFrame, Frame, InputEvent, ReleaseReason,
    INITIAL_ROLE_EPOCH,
};
use crate::session::{
    lemma_holds_empty, lemma_holds_push, next_generation, push_when, EffectList, LivenessEvent,
    Message, SessionFailure,
};
use vstd::prelude::*;

verus! {

/// What the tray says of the audio.
#[derive(Clone, Debug, PartialEq, Eq)]
pub enum AudioLabel {
    Off,
    WaitingForConnection,
    Starting,
    Restarting,
    Streaming,
    Paused,
    Unsupported,
    Error(String),
    UnknownError,
}

impl AudioLabel {
    /// The words for it.
    pub open spec fn words(self) -> Seq<char> {
        match self {
            AudioLabel::Off => "Audio: Off"@,
            AudioLabel::WaitingForConnection => "Audio: Waiting for connection"@,
            AudioLabel::Starting => "Audio: Starting"@,
            AudioLabel::Restarting => "Audio: Restarting"@,
            AudioLabel::Streaming => "Audio: Streaming"@,
            AudioLabel::Paused => "Audio: Paused"@,
            AudioLabel::Unsupported => "Audio: Unsupported by receiver"@,
            AudioLabel::Error(error) => "Audio error: "@ + error@,
            AudioLabel::UnknownError => "Audio error: unknown error"@,
        }
    }

    /// The words for it.
    pub fn text(&self) -> (text: String)
        ensures
            text@ == self.words(),
    {
        match self {
            AudioLabel::Off => "Audio: Off".to_owned(),
            AudioLabel::WaitingForConnection => "Audio: Waiting for connection".to_owned(),
            AudioLabel::Starting => "Audio: Starting".to_owned(),
            AudioLabel::Restarting => "Audio: Restarting".to_owned(),
            AudioLabel::Streaming => "Audio: Streaming".to_owned(),
            AudioLabel::Paused => "Audio: Paused".to_owned(),
            AudioLabel::Unsupported => "Audio: Unsupported by receiver".to_owned(),
            AudioLabel::Error(error) => "Audio error: ".to_owned().concat(error.as_str()),
            AudioLabel::UnknownError => "Audio error: unknown error".to_owned(),
        }
    }
}

/// What the user asked for through the tray.
#[derive(Clone, Copy, Debug, PartialEq, Eq, Structural)]
pub enum WindowsTrayCommand {
    OpenSettings,
    Pair,
    ReleaseControl,
    Disconnect,
    Reconnect,
    ToggleInputForwarding,
    ToggleAudio,
    Quit,
}

/// What a command of the tray comes to.
#[derive(Clone, Copy, Debug, PartialEq, Eq, Structural)]
pub enum TrayCommandOutcome {
    Continue,
    Quit,
    Disconnect,
    Reconnect,
    Pair,
    InputForwardingChanged(bool),
    AudioChanged(bool),
}

/// What is to be done at once for a command of the tray.
#[derive(Clone, Copy, Debug, PartialEq, Eq, Structural)]
pub enum TrayAction {
    OpenSettings,
    /// Give control back to this computer.
    Release,
    SaveAudioEnabled(bool),
}

/// What a command of the tray comes to, and what is to be done at once.
/// `audio_enabled` is what the saved configuration says.
pub open spec fn commanded(
    command: WindowsTrayCommand,
    forwarding: bool,
    audio_enabled: bool,
) -> (Option<TrayAction>, TrayCommandOutcome) {
    match command {
        WindowsTrayCommand::OpenSettings => (
            Some(TrayAction::OpenSettings),
            TrayCommandOutcome::Continue,
        ),
        WindowsTrayCommand::Pair => (None, TrayCommandOutcome::Pair),
        WindowsTrayCommand::ReleaseControl => (
            Some(TrayAction::Release),
            TrayCommandOutcome::Continue,
        ),
        WindowsTrayCommand::Disconnect => (None, TrayCommandOutcome::Disconnect),
        WindowsTrayCommand::Reconnect => (None, TrayCommandOutcome::Reconnect),
        WindowsTrayCommand::ToggleInputForwarding => (
            None,
            TrayCommandOutcome::InputForwardingChanged(!forwarding),
        ),
        WindowsTrayCommand::ToggleAudio => (
            Some(TrayAction::SaveAudioEnabled(!audio_enabled)),
            TrayCommandOutcome::AudioChanged(!audio_enabled),
        ),
        WindowsTrayCommand::Quit => (None, TrayCommandOutcome::Quit),
    }
}

/// What a command of the tray comes to. While it comes to `Continue`, the next
/// one is looked at.
pub fn handle_tray_command(command: WindowsTrayCommand, forwarding: bool, audio_enabled: bool)
    -> (out: (Option<TrayAction>, TrayCommandOutcome))
    ensures
        out == commanded(command, forwarding, audio_enabled),
{
    match command {
        WindowsTrayCommand::OpenSettings => (
            Some(TrayAction::OpenSettings),
            TrayCommandOutcome::Continue,
        ),
        WindowsTrayCommand::Pair => (None, TrayCommandOutcome::Pair),
        WindowsTrayCommand::ReleaseControl => (
            Some(TrayAction::Release),
            TrayCommandOutcome::Continue,
        ),
        WindowsTrayCommand::Disconnect => (None, TrayCommandOutcome::Disconnect),
        WindowsTrayCommand::Reconnect => (None, TrayCommandOutcome::Reconnect),
        WindowsTrayCommand::ToggleInputForwarding => (
            None,
            TrayCommandOutcome::InputForwardingChanged(!forwarding),
        ),
        WindowsTrayCommand::ToggleAudio => (
            Some(TrayAction::SaveAudioEnabled(!audio_enabled)),
            TrayCommandOutcome::AudioChanged(!audio_enabled),
        ),
        WindowsTrayCommand::Quit => (None, TrayCommandOutcome::Quit),
    }
}

/// How a session ends on the user's wish.
#[derive(Clone, Copy, Debug, PartialEq, Eq, Structural)]
pub enum ConnectedSessionExit {
    Quit,
    Disconnect,
    Pair,
}

/// One thing to do. What is sent comes twice: in its plain form a failure ends
/// the session, in its `Try` form it is passed over.
#[derive(Clone, Debug, PartialEq, Eq)]
pub enum WindowsEffect {
    Send(Message),
    TrySend(Message),
    /// Let the hooks capture, or not.
    SetForwarding(bool),
    ShowForwarding(bool),
    ShowAudio { enabled: bool, label: AudioLabel },
    DropAudioReceiver,
    /// Tell the receiver that the other side streams.
    MarkStreaming,
    /// Answer an offer with fresh secrets, receive audio, and report.
    AnswerAudioOffer { udp_port: u16 },
    SaveAudioEnabled(bool),
    SyncClipboard(ClipboardEvent),
    /// Give control back to this computer at once.
    ForceRelease,
    /// Give control back to this computer if the hooks find it plausible.
    ReceiverRelease(ReleaseReason),
    Exit(ConnectedSessionExit),
    Fail(SessionFailure),
}

/// How an offer of audio was answered.
#[derive(Clone, Debug, PartialEq, Eq)]
pub enum OfferAnswer {
    Started,
    PlaybackFailed(String),
    SocketFailed(String),
}

/// The state of a session.
#[derive(Debug)]
pub struct WindowsSession {
    pub peer_supports_audio: bool,
    pub peer_supports_input_toggle: bool,
    pub input_forwarding_enabled: bool,
    pub audio_enabled: bool,
    pub audio_restart_attempted: bool,
    pub audio_receiver: bool,
    pub heartbeat_sequence: u64,
}

/// No effects.
pub open spec fn idle() -> Seq<WindowsEffect> {
    Seq::empty()
}

/// A release of all keys that is only tried.
pub open spec fn letting_go() -> WindowsEffect {
    WindowsEffect::TrySend(keys_up(INITIAL_ROLE_EPOCH))
}

fn let_go() -> (effect: WindowsEffect)
    ensures
        effect == letting_go(),
{
    WindowsEffect::TrySend(
        Message::Input { role_epoch: INITIAL_ROLE_EPOCH, event: InputEvent::AllKeysUp },
    )
}

/// Forwarding as it is told the other side.
pub open spec fn forwarding(enabled: bool) -> WindowsEffect {
    WindowsEffect::Send(
        Message::Control {
            role_epoch: INITIAL_ROLE_EPOCH,
            event: ControlEvent::SetInputForwarding { enabled },
        },
    )
}

fn tell_forwarding(enabled: bool) -> (effect: WindowsEffect)
    ensures
        effect == forwarding(enabled),
{
    WindowsEffect::Send(
        Message::Control {
            role_epoch: INITIAL_ROLE_EPOCH,
            event: ControlEvent::SetInputForwarding { enabled },
        },
    )
}

impl WindowsSession {
    /// How the audio is shown where it is switched.
    pub open spec fn switched_label(self, enabled: bool) -> AudioLabel {
        if enabled && self.peer_supports_audio {
            AudioLabel::Starting
        } else if enabled {
            AudioLabel::Unsupported
        } else {
            AudioLabel::Off
        }
    }

    /// What the beginning of a session takes.
    pub open spec fn beginning(self) -> Seq<WindowsEffect> {
        idle()
            .push(WindowsEffect::SetForwarding(self.input_forwarding_enabled))
            .push(WindowsEffect::ShowForwarding(self.input_forwarding_enabled))
            .push(
                WindowsEffect::ShowAudio {
                    enabled: self.audio_enabled,
                    label: if !self.peer_supports_audio {
                        AudioLabel::Unsupported
                    } else if self.audio_enabled {
                        AudioLabel::Starting
                    } else {
                        AudioLabel::Off
                    },
                },
            )
            .push_if(
                self.peer_supports_audio,
                WindowsEffect::Send(Message::AudioSetEnabled { enabled: self.audio_enabled }),
            )
            .push_if(self.peer_supports_input_toggle, forwarding(self.input_forwarding_enabled))
    }

    /// A session that begins, and what that takes.
    pub fn start(
        peer_supports_audio: bool,
        peer_supports_input_toggle: bool,
        input_forwarding_enabled: bool,
        audio_enabled: bool,
    ) -> (begun: (Self, Vec<WindowsEffect>))
        ensures
            begun.0 == (WindowsSession {
                peer_supports_audio,
                peer_supports_input_toggle,
                input_forwarding_enabled,
                audio_enabled,
                audio_restart_attempted: false,
                audio_receiver: false,
                heartbeat_sequence: 0,
            }),
            begun.1@ == begun.0.beginning(),
    {
        let session = WindowsSession {
            peer_supports_audio,
            peer_supports_input_toggle,
            input_forwarding_enabled,
            audio_enabled,
            audio_restart_attempted: false,
            audio_receiver: false,
            heartbeat_sequence: 0,
        };
        let mut out: Vec<WindowsEffect> = Vec::new();
        out.push(WindowsEffect::SetForwarding(input_forwarding_enabled));
        out.push(WindowsEffect::ShowForwarding(input_forwarding_enabled));
        let label: AudioLabel = if !peer_supports_audio {
            AudioLabel::Unsupported
        } else if audio_enabled {
            AudioLabel::Starting
        } else {
            AudioLabel::Off
        };
        out.push(WindowsEffect::ShowAudio { enabled: audio_enabled, label });
        push_when(
            &mut out,
            peer_supports_audio,
            WindowsEffect::Send(Message::AudioSetEnabled { enabled: audio_enabled }),
        );
        push_when(&mut out, peer_supports_input_toggle, tell_forwarding(input_forwarding_enabled));
        (session, out)
    }

    /// The user ends the session from the keyboard or the tray.
    pub open spec fn quitting(self) -> Seq<WindowsEffect> {
        idle()
            .push(letting_go())
            .push_if(
                self.peer_supports_audio,
                WindowsEffect::TrySend(Message::AudioStop { reason: AudioStopReason::Shutdown }),
            )
            .push(WindowsEffect::Exit(ConnectedSessionExit::Quit))
    }

    /// Ends the session.
    pub fn on_quit(&self) -> (out: Vec<WindowsEffect>)
        ensures
            out@ == self.quitting(),
    {
        let mut out: Vec<WindowsEffect> = Vec::new();
        out.push(let_go());
        push_when(
            &mut out,
            self.peer_supports_audio,
            WindowsEffect::TrySend(Message::AudioStop { reason: AudioStopReason::Shutdown }),
        );
        out.push(WindowsEffect::Exit(ConnectedSessionExit::Quit));
        out
    }

    /// Audio that has ended by itself is asked for once more; if it ends
    /// again, it stays ended.
    pub open spec fn after_audio_ended(self, failure: String) -> (Self, Seq<WindowsEffect>) {
        if !self.audio_receiver {
            (self, idle())
        } else if self.audio_enabled && self.peer_supports_audio && !self.audio_restart_attempted {
            (
                WindowsSession { audio_receiver: false, audio_restart_attempted: true, ..self },
                idle()
                    .push(
                        WindowsEffect::ShowAudio { enabled: true, label: AudioLabel::Restarting },
                    )
                    .push(WindowsEffect::Send(Message::AudioSetEnabled { enabled: true })),
            )
        } else {
            (
                WindowsSession { audio_receiver: false, ..self },
                idle()
                    .push(
                        WindowsEffect::ShowAudio {
                            enabled: self.audio_enabled,
                            label: AudioLabel::Error(failure),
                        },
                    )
                    .push(
                        WindowsEffect::TrySend(
                            Message::AudioStop { reason: AudioStopReason::TransportFailure },
                        ),
                    ),
            )
        }
    }

    /// The audio has ended by itself.
    pub fn on_audio_ended(&mut self, failure: String) -> (out: Vec<WindowsEffect>)
        ensures
            (*final(self), out@) == old(self).after_audio_ended(failure),
    {
        let mut out: Vec<WindowsEffect> = Vec::new();
        if !self.audio_receiver {
            return out;
        }
        self.audio_receiver = false;
        if self.audio_enabled && self.peer_supports_audio && !self.audio_restart_attempted {
            self.audio_restart_attempted = true;
            out.push(WindowsEffect::ShowAudio { enabled: true, label: AudioLabel::Restarting });
            out.push(WindowsEffect::Send(Message::AudioSetEnabled { enabled: true }));
        } else {
            out.push(
                WindowsEffect::ShowAudio {
                    enabled: self.audio_enabled,
                    label: AudioLabel::Error(failure),
                },
            );
            out.push(
                WindowsEffect::TrySend(
                    Message::AudioStop { reason: AudioStopReason::TransportFailure },
                ),
            );
        }
        out
    }

    /// A change of the saved configuration takes effect.
    pub open spec fn after_config(self, enabled: bool) -> (Self, Seq<WindowsEffect>) {
        if enabled == self.audio_enabled {
            (self, idle())
        } else {
            (
                WindowsSession {
                    audio_enabled: enabled,
                    audio_restart_attempted: false,
                    audio_receiver: self.audio_receiver && enabled,
                    ..self
                },
                idle()
                    .push_if(!enabled && self.audio_receiver, WindowsEffect::DropAudioReceiver)
                    .push(WindowsEffect::ShowAudio { enabled, label: self.switched_label(enabled) })
                    .push_if(
                        self.peer_supports_audio,
                        WindowsEffect::Send(Message::AudioSetEnabled { enabled }),
                    ),
            )
        }
    }

    /// The saved configuration was read again.
    pub fn on_config(&mut self, enabled: bool) -> (out: Vec<WindowsEffect>)
        ensures
            (*final(self), out@) == old(self).after_config(enabled),
    {
        let mut out: Vec<WindowsEffect> = Vec::new();
        if enabled == self.audio_enabled {
            return out;
        }
        push_when(&mut out, !enabled && self.audio_receiver, WindowsEffect::DropAudioReceiver);
        self.audio_enabled = enabled;
        self.audio_restart_attempted = false;
        self.audio_receiver = self.audio_receiver && enabled;
        let label: AudioLabel = if enabled && self.peer_supports_audio {
            AudioLabel::Starting
        } else if enabled {
            AudioLabel::Unsupported
        } else {
            AudioLabel::Off
        };
        out.push(WindowsEffect::ShowAudio { enabled, label });
        push_when(
            &mut out,
            self.peer_supports_audio,
            WindowsEffect::Send(Message::AudioSetEnabled { enabled }),
        );
        out
    }

    /// The saved configuration was read again: the session and the clipboard go
    /// by it from now on. Images are exchanged where the peer knows them, too.
    pub fn on_reload(
        &mut self,
        clipboard: &mut LiveClipboardState,
        config: &AppConfig,
        peer_supports_images: bool,
    ) -> (out: Vec<WindowsEffect>)
        requires
            old(clipboard).wf(),
        ensures
            (*final(self), out@) == old(self).after_config(config.audio.enabled),
            final(clipboard).wf(),
            final(clipboard)@ == (LiveState {
                enabled: config.clipboard.enabled,
                sync: SyncState {
                    images: peer_supports_images && config.clipboard.images_enabled,
                    max_image_bytes: config.clipboard.max_image_bytes as nat,
                    ..old(clipboard)@.sync
                },
                ..old(clipboard)@
            }),
    {
        clipboard.configure(
            config.clipboard.enabled,
            peer_supports_images && config.clipboard.images_enabled,
            config.clipboard.max_image_bytes,
        );
        self.on_config(config.audio.enabled)
    }

    /// What the regular look at the clock takes: an image that came no further
    /// is given up; a silent peer loses the input first and the session later.
    pub open spec fn watching(
        expired_transfer: Option<u64>,
        liveness: Option<LivenessEvent>,
    ) -> Seq<WindowsEffect> {
        let cancelled = match expired_transfer {
            Some(transfer_id) => idle().push(
                WindowsEffect::Send(
                    Message::ClipboardCancel {
                        transfer_id,
                        reason: ClipboardCancelReason::TimedOut,
                    },
                ),
            ),
            None => idle(),
        };
        match liveness {
            Some(LivenessEvent::SoftInputTimeout) => cancelled.push(WindowsEffect::ForceRelease),
            Some(LivenessEvent::HardSessionTimeout) => cancelled.push(
                WindowsEffect::Fail(SessionFailure::PeerSilent),
            ),
            None => cancelled,
        }
    }

    /// The regular look at the clock.
    pub fn on_watchdog(&self, expired_transfer: Option<u64>, liveness: Option<LivenessEvent>)
        -> (out: Vec<WindowsEffect>)
        ensures
            out@ == Self::watching(expired_transfer, liveness),
    {
        let mut out: Vec<WindowsEffect> = Vec::new();
        if let Some(transfer_id) = expired_transfer {
            out.push(
                WindowsEffect::Send(
                    Message::ClipboardCancel {
                        transfer_id,
                        reason: ClipboardCancelReason::TimedOut,
                    },
                ),
            );
        }
        match liveness {
            Some(LivenessEvent::SoftInputTimeout) => {
                out.push(WindowsEffect::ForceRelease);
            },
            Some(LivenessEvent::HardSessionTimeout) => {
                out.push(WindowsEffect::Fail(SessionFailure::PeerSilent));
            },
            None => {},
        }
        out
    }

    /// The next sign of life, each with a number of its own.
    pub open spec fn after_heartbeat(self) -> (Self, Seq<WindowsEffect>) {
        let sequence = next_generation(self.heartbeat_sequence);
        (
            WindowsSession { heartbeat_sequence: sequence, ..self },
            idle().push(WindowsEffect::Send(Message::Heartbeat { sequence })),
        )
    }

    /// It is time for a sign of life.
    pub fn on_heartbeat(&mut self) -> (out: Vec<WindowsEffect>)
        ensures
            (*final(self), out@) == old(self).after_heartbeat(),
    {
        let mut out: Vec<WindowsEffect> = Vec::new();
        self.heartbeat_sequence = if self.heartbeat_sequence == u64::MAX {
            0
        } else {
            self.heartbeat_sequence + 1
        };
        out.push(WindowsEffect::Send(Message::Heartbeat { sequence: self.heartbeat_sequence }));
        out
    }

    /// What the user asked for. No key stays pressed on the other side where
    /// forwarding or the session ends.
    pub open spec fn after_tray(self, outcome: TrayCommandOutcome) -> (Self, Seq<WindowsEffect>) {
        match outcome {
            TrayCommandOutcome::Continue | TrayCommandOutcome::Reconnect => (self, idle()),
            TrayCommandOutcome::Quit => (self, self.quitting()),
            TrayCommandOutcome::Disconnect => (
                WindowsSession { audio_receiver: false, ..self },
                idle()
                    .push(letting_go())
                    .push_if(
                        self.peer_supports_audio,
                        WindowsEffect::TrySend(
                            Message::AudioStop { reason: AudioStopReason::UserRequest },
                        ),
                    )
                    .push_if(self.audio_receiver, WindowsEffect::DropAudioReceiver)
                    .push(WindowsEffect::ForceRelease)
                    .push(WindowsEffect::Exit(ConnectedSessionExit::Disconnect)),
            ),
            TrayCommandOutcome::Pair => (
                self,
                idle()
                    .push(letting_go())
                    .push(WindowsEffect::ForceRelease)
                    .push(WindowsEffect::Exit(ConnectedSessionExit::Pair)),
            ),
            TrayCommandOutcome::InputForwardingChanged(enabled) => (
                WindowsSession { input_forwarding_enabled: enabled, ..self },
                idle()
                    .push_if(!enabled, WindowsEffect::Send(keys_up(INITIAL_ROLE_EPOCH)))
                    .push(WindowsEffect::SetForwarding(enabled))
                    .push(WindowsEffect::ShowForwarding(enabled))
                    .push_if(self.peer_supports_input_toggle, forwarding(enabled)),
            ),
            TrayCommandOutcome::AudioChanged(enabled) => (
                WindowsSession {
                    audio_enabled: enabled,
                    audio_restart_attempted: false,
                    audio_receiver: self.audio_receiver && enabled,
                    ..self
                },
                idle()
                    .push_if(!enabled && self.audio_receiver, WindowsEffect::DropAudioReceiver)
                    .push(
                        WindowsEffect::ShowAudio {
                            enabled,
                            label: if enabled {
                                AudioLabel::Starting
                            } else {
                                AudioLabel::Off
                            },
                        },
                    )
                    .push_if(
                        self.peer_supports_audio,
                        WindowsEffect::Send(Message::AudioSetEnabled { enabled }),
                    ),
            ),
        }
    }

    fn set_forwarding(&mut self, enabled: bool) -> (out: Vec<WindowsEffect>)
        ensures
            (*final(self), out@) == old(self).after_tray(
                TrayCommandOutcome::InputForwardingChanged(enabled),
            ),
    {
        let mut out: Vec<WindowsEffect> = Vec::new();
        push_when(
            &mut out,
            !enabled,
            WindowsEffect::Send(
                Message::Input { role_epoch: INITIAL_ROLE_EPOCH, event: InputEvent::AllKeysUp },
            ),
        );
        self.input_forwarding_enabled = enabled;
        out.push(WindowsEffect::SetForwarding(enabled));
        out.push(WindowsEffect::ShowForwarding(enabled));
        push_when(&mut out, self.peer_supports_input_toggle, tell_forwarding(enabled));
        out
    }

    fn set_audio(&mut self, enabled: bool) -> (out: Vec<WindowsEffect>)
        ensures
            (*final(self), out@) == old(self).after_tray(TrayCommandOutcome::AudioChanged(enabled)),
    {
        let mut out: Vec<WindowsEffect> = Vec::new();
        push_when(&mut out, !enabled && self.audio_receiver, WindowsEffect::DropAudioReceiver);
        self.audio_enabled = enabled;
        self.audio_restart_attempted = false;
        self.audio_receiver = self.audio_receiver && enabled;
        let label: AudioLabel = if enabled {
            AudioLabel::Starting
        } else {
            AudioLabel::Off
        };
        out.push(WindowsEffect::ShowAudio { enabled, label });
        push_when(
            &mut out,
            self.peer_supports_audio,
            WindowsEffect::Send(Message::AudioSetEnabled { enabled }),
        );
        out
    }

    /// The user has asked for something.
    pub fn on_tray(&mut self, outcome: TrayCommandOutcome) -> (out: Vec<WindowsEffect>)
        ensures
            (*final(self), out@) == old(self).after_tray(outcome),
    {
        let mut out: Vec<WindowsEffect> = Vec::new();
        match outcome {
            TrayCommandOutcome::Continue | TrayCommandOutcome::Reconnect => out,
            TrayCommandOutcome::Quit => self.on_quit(),
            TrayCommandOutcome::Disconnect => {
                out.push(let_go());
                push_when(
                    &mut out,
                    self.peer_supports_audio,
                    WindowsEffect::TrySend(
                        Message::AudioStop { reason: AudioStopReason::UserRequest },
                    ),
                );
                push_when(&mut out, self.audio_receiver, WindowsEffect::DropAudioReceiver);
                self.audio_receiver = false;
                out.push(WindowsEffect::ForceRelease);
                out.push(WindowsEffect::Exit(ConnectedSessionExit::Disconnect));
                out
            },
            TrayCommandOutcome::Pair => {
                out.push(let_go());
                out.push(WindowsEffect::ForceRelease);
                out.push(WindowsEffect::Exit(ConnectedSessionExit::Pair));
                out
            },
            TrayCommandOutcome::InputForwardingChanged(enabled) => self.set_forwarding(enabled),
            TrayCommandOutcome::AudioChanged(enabled) => self.set_audio(enabled),
        }
    }

    /// Whether captured input goes to the other side.
    pub fn takes_input(&self) -> (takes: bool)
        ensures
            takes == self.input_forwarding_enabled,
    {
        self.input_forwarding_enabled
    }

    /// How a state of the other side's audio is shown.
    pub open spec fn state_label(state: AudioStreamState, detail: Option<String>) -> AudioLabel {
        match state {
            AudioStreamState::Disabled => AudioLabel::Off,
            AudioStreamState::WaitingForUdp | AudioStreamState::Starting => AudioLabel::Starting,
            AudioStreamState::Streaming => AudioLabel::Streaming,
            AudioStreamState::Error => match detail {
                Some(detail) => AudioLabel::Error(detail),
                None => AudioLabel::UnknownError,
            },
        }
    }

    /// The other side switched the audio off or on: that is kept.
    pub open spec fn after_audio_switched(self, enabled: bool) -> (Self, Seq<WindowsEffect>) {
        if enabled {
            (
                WindowsSession { audio_enabled: true, audio_restart_attempted: false, ..self },
                idle()
                    .push(WindowsEffect::SaveAudioEnabled(true))
                    .push(WindowsEffect::ShowAudio { enabled: true, label: AudioLabel::Starting })
                    .push_if(
                        self.peer_supports_audio,
                        WindowsEffect::Send(Message::AudioSetEnabled { enabled: true }),
                    ),
            )
        } else {
            (
                WindowsSession { audio_enabled: false, audio_receiver: false, ..self },
                idle()
                    .push_if(self.audio_receiver, WindowsEffect::DropAudioReceiver)
                    .push(WindowsEffect::SaveAudioEnabled(false))
                    .push(WindowsEffect::ShowAudio { enabled: false, label: AudioLabel::Off }),
            )
        }
    }

    fn on_audio_switched(&mut self, enabled: bool) -> (out: Vec<WindowsEffect>)
        ensures
            (*final(self), out@) == old(self).after_audio_switched(enabled),
    {
        let mut out: Vec<WindowsEffect> = Vec::new();
        if enabled {
            self.audio_enabled = true;
            self.audio_restart_attempted = false;
            out.push(WindowsEffect::SaveAudioEnabled(true));
            out.push(WindowsEffect::ShowAudio { enabled: true, label: AudioLabel::Starting });
            push_when(
                &mut out,
                self.peer_supports_audio,
                WindowsEffect::Send(Message::AudioSetEnabled { enabled: true }),
            );
        } else {
            push_when(&mut out, self.audio_receiver, WindowsEffect::DropAudioReceiver);
            self.audio_enabled = false;
            self.audio_receiver = false;
            out.push(WindowsEffect::SaveAudioEnabled(false));
            out.push(WindowsEffect::ShowAudio { enabled: false, label: AudioLabel::Off });
        }
        out
    }

    /// How the two sides agree on the audio.
    pub open spec fn after_audio(self, control: AudioControl) -> (Self, Seq<WindowsEffect>) {
        match control {
            AudioControl::Offer { udp_port, codecs } => if self.audio_enabled && codecs@.contains(
                AudioCodec::PcmS16Stereo48Khz,
            ) {
                (
                    self,
                    idle()
                        .push(
                            WindowsEffect::ShowAudio { enabled: true, label: AudioLabel::Starting },
                        )
                        .push(WindowsEffect::AnswerAudioOffer { udp_port }),
                )
            } else {
                (self, idle())
            },
            AudioControl::State { state, detail } => (
                self,
                idle()
                    .push_if(
                        state is Streaming && self.audio_receiver,
                        WindowsEffect::MarkStreaming,
                    )
                    .push(
                        WindowsEffect::ShowAudio {
                            enabled: self.audio_enabled,
                            label: Self::state_label(state, detail),
                        },
                    ),
            ),
            AudioControl::Stop { .. } => self.after_audio_switched(false),
            AudioControl::SetEnabled { enabled } => self.after_audio_switched(enabled),
            _ => (self, idle()),
        }
    }

    fn on_audio(&mut self, control: AudioControl) -> (out: Vec<WindowsEffect>)
        ensures
            (*final(self), out@) == old(self).after_audio(control),
    {
        let mut out: Vec<WindowsEffect> = Vec::new();
        match control {
            AudioControl::Offer { udp_port, codecs } => {
                if self.audio_enabled && offers_pcm(&codecs) {
                    out.push(
                        WindowsEffect::ShowAudio { enabled: true, label: AudioLabel::Starting },
                    );
                    out.push(WindowsEffect::AnswerAudioOffer { udp_port });
                }
                out
            },
            AudioControl::State { state, detail } => {
                let label: AudioLabel = match state {
                    AudioStreamState::Disabled => AudioLabel::Off,
                    AudioStreamState::WaitingForUdp
                    | AudioStreamState::Starting => AudioLabel::Starting,
                    AudioStreamState::Streaming => AudioLabel::Streaming,
                    AudioStreamState::Error => match detail {
                        Some(detail) => AudioLabel::Error(detail),
                        None => AudioLabel::UnknownError,
                    },
                };
                let streams: bool = state == AudioStreamState::Streaming;
                push_when(&mut out, streams && self.audio_receiver, WindowsEffect::MarkStreaming);
                out.push(WindowsEffect::ShowAudio { enabled: self.audio_enabled, label });
                out
            },
            AudioControl::Stop { .. } => self.on_audio_switched(false),
            AudioControl::SetEnabled { enabled } => self.on_audio_switched(enabled),
            _ => out,
        }
    }

    /// An offer of audio was answered.
    pub open spec fn after_offer_answered(self, answer: OfferAnswer) -> (
        Self,
        Seq<WindowsEffect>,
    ) {
        match answer {
            OfferAnswer::Started => (WindowsSession { audio_receiver: true, ..self }, idle()),
            OfferAnswer::PlaybackFailed(error) => (
                self,
                idle()
                    .push(
                        WindowsEffect::ShowAudio { enabled: true, label: AudioLabel::Error(error) },
                    )
                    .push(
                        WindowsEffect::TrySend(
                            Message::AudioStop { reason: AudioStopReason::PlaybackFailure },
                        ),
                    ),
            ),
            OfferAnswer::SocketFailed(error) => (
                self,
                idle().push(
                    WindowsEffect::ShowAudio { enabled: true, label: AudioLabel::Error(error) },
                ),
            ),
        }
    }

    /// An offer of audio was answered.
    pub fn on_offer_answered(&mut self, answer: OfferAnswer) -> (out: Vec<WindowsEffect>)
        ensures
            (*final(self), out@) == old(self).after_offer_answered(answer),
    {
        let mut out: Vec<WindowsEffect> = Vec::new();
        match answer {
            OfferAnswer::Started => {
                self.audio_receiver = true;
            },
            OfferAnswer::PlaybackFailed(error) => {
                out.push(
                    WindowsEffect::ShowAudio { enabled: true, label: AudioLabel::Error(error) },
                );
                out.push(
                    WindowsEffect::TrySend(
                        Message::AudioStop { reason: AudioStopReason::PlaybackFailure },
                    ),
                );
            },
            OfferAnswer::SocketFailed(error) => {
                out.push(
                    WindowsEffect::ShowAudio { enabled: true, label: AudioLabel::Error(error) },
                );
            },
        }
        out
    }

    /// What a frame of the other side does. Control of another epoch is passed
    /// over.
    pub open spec fn after_frame(self, frame: Frame) -> (Self, Seq<WindowsEffect>) {
        match frame {
            Frame::Clipboard(event) => (self, idle().push(WindowsEffect::SyncClipboard(event))),
            Frame::Control(control) => if control.role_epoch != INITIAL_ROLE_EPOCH {
                (self, idle())
            } else {
                match control.event {
                    ControlEvent::ReleaseToLocal { reason } => (
                        self,
                        idle().push(WindowsEffect::ReceiverRelease(reason)),
                    ),
                    ControlEvent::SetInputForwarding { enabled } =>
                    if self.peer_supports_input_toggle {
                        (
                            WindowsSession { input_forwarding_enabled: enabled, ..self },
                            idle()
                                .push(WindowsEffect::SetForwarding(enabled))
                                .push(WindowsEffect::ShowForwarding(enabled)),
                        )
                    } else {
                        (self, idle())
                    },
                    _ => (self, idle()),
                }
            },
            Frame::Error(error) => (
                self,
                idle().push(
                    WindowsEffect::Fail(
                        SessionFailure::PeerError { code: error.code, message: error.message },
                    ),
                ),
            ),
            Frame::Audio(control) => self.after_audio(control),
            _ => (self, idle()),
        }
    }

    /// A frame of the other side has come.
    pub fn on_frame(&mut self, frame: Frame) -> (out: Vec<WindowsEffect>)
        ensures
            (*final(self), out@) == old(self).after_frame(frame),
    {
        let mut out: Vec<WindowsEffect> = Vec::new();
        match frame {
            Frame::Clipboard(event) => {
                out.push(WindowsEffect::SyncClipboard(event));
                out
            },
            Frame::Control(control) => {
                if control.role_epoch != INITIAL_ROLE_EPOCH {
                    return out;
                }
                match control.event {
                    ControlEvent::ReleaseToLocal { reason } => {
                        out.push(WindowsEffect::ReceiverRelease(reason));
                    },
                    ControlEvent::SetInputForwarding { enabled } => {
                        if self.peer_supports_input_toggle {
                            self.input_forwarding_enabled = enabled;
                            out.push(WindowsEffect::SetForwarding(enabled));
                            out.push(WindowsEffect::ShowForwarding(enabled));
                        }
                    },
                    _ => {},
                }
                out
            },
            Frame::Error(error) => {
                out.push(
                    WindowsEffect::Fail(
                        SessionFailure::PeerError { code: error.code, message: error.message },
                    ),
                );
                out
            },
            Frame::Audio(control) => self.on_audio(control),
            _ => out,
        }
    }
}

/// Audio that ends by itself is restarted at most once until it is switched
/// again: the second time, nothing asks for it.
pub proof fn law_audio_restarts_once(session: WindowsSession, failure: String)
    requires
        session.audio_receiver,
        session.audio_restart_attempted,
    ensures
        session.after_audio_ended(failure).0.audio_restart_attempted,
        forall|i: int|
            0 <= i < session.after_audio_ended(failure).1.len() ==> !(
            #[trigger] session.after_audio_ended(failure).1[i] matches WindowsEffect::Send(
                Message::AudioSetEnabled { .. },
            )),
{
}

/// However the user ends a session, all keys are let go on the other side
/// first.
pub proof fn law_windows_exit_lets_keys_go(session: WindowsSession, outcome: TrayCommandOutcome)
    requires
        outcome is Quit || outcome is Disconnect || outcome is Pair,
    ensures
        session.after_tray(outcome).1[0] == letting_go(),
        session.after_tray(outcome).1.last() is Exit,
{
}

/// Forwarding ends with all keys let go on the other side before anything
/// else.
pub proof fn law_windows_forwarding_off_lets_keys_go(session: WindowsSession)
    ensures
        session.after_tray(TrayCommandOutcome::InputForwardingChanged(false)).1[0]
            == WindowsEffect::Send(keys_up(INITIAL_ROLE_EPOCH)),
{
}

/// What the tray asks for is what is done: each command has the outcome of its
/// name, and a switch turns to the other way round. Giving control back, the
/// settings and the saved audio are carried out at once, and nothing else is.
pub proof fn law_windows_tray_is_obeyed(forwarding: bool, audio_enabled: bool)
    ensures
        commanded(WindowsTrayCommand::OpenSettings, forwarding, audio_enabled) == (
            Some(TrayAction::OpenSettings),
            TrayCommandOutcome::Continue,
        ),
        commanded(WindowsTrayCommand::ReleaseControl, forwarding, audio_enabled) == (
            Some(TrayAction::Release),
            TrayCommandOutcome::Continue,
        ),
        commanded(WindowsTrayCommand::ToggleAudio, forwarding, audio_enabled) == (
            Some(TrayAction::SaveAudioEnabled(!audio_enabled)),
            TrayCommandOutcome::AudioChanged(!audio_enabled),
        ),
        commanded(WindowsTrayCommand::ToggleInputForwarding, forwarding, audio_enabled) == (
            None::<TrayAction>,
            TrayCommandOutcome::InputForwardingChanged(!forwarding),
        ),
        commanded(WindowsTrayCommand::Pair, forwarding, audio_enabled) == (
            None::<TrayAction>,
            TrayCommandOutcome::Pair,
        ),
        commanded(WindowsTrayCommand::Disconnect, forwarding, audio_enabled) == (
            None::<TrayAction>,
            TrayCommandOutcome::Disconnect,
        ),
        commanded(WindowsTrayCommand::Reconnect, forwarding, audio_enabled) == (
            None::<TrayAction>,
            TrayCommandOutcome::Reconnect,
        ),
        commanded(WindowsTrayCommand::Quit, forwarding, audio_enabled) == (
            None::<TrayAction>,
            TrayCommandOutcome::Quit,
        ),
{
}

/// A session begins with forwarding and audio as they were: the hooks and the
/// tray are set, and a peer that knows of them is told.
pub proof fn law_windows_session_begins_as_set(session: WindowsSession)
    ensures
        ({
            let effects = session.beginning();
            let forwards = session.input_forwarding_enabled;
            &&& effects.contains(WindowsEffect::SetForwarding(forwards))
            &&& effects.contains(WindowsEffect::ShowForwarding(forwards))
            &&& effects.contains(
                WindowsEffect::Send(Message::AudioSetEnabled { enabled: session.audio_enabled }),
            ) <==> session.peer_supports_audio
            &&& effects.contains(
                WindowsEffect::Send(
                    Message::Control {
                        role_epoch: INITIAL_ROLE_EPOCH,
                        event: ControlEvent::SetInputForwarding { enabled: forwards },
                    },
                ),
            ) <==> session.peer_supports_input_toggle
            &&& !session.peer_supports_audio ==> effects.contains(
                WindowsEffect::ShowAudio {
                    enabled: session.audio_enabled,
                    label: AudioLabel::Unsupported,
                },
            )
            &&& session.peer_supports_audio && session.audio_enabled ==> effects.contains(
                WindowsEffect::ShowAudio { enabled: true, label: AudioLabel::Starting },
            )
            &&& session.peer_supports_audio && !session.audio_enabled ==> effects.contains(
                WindowsEffect::ShowAudio { enabled: false, label: AudioLabel::Off },
            )
        }),
{
    broadcast use {lemma_holds_push, lemma_holds_empty};

}

/// Forwarding is set from here or by the peer, to the same end: the hooks and
/// the tray follow. A peer that knows of forwarding is told what was set here,
/// and has its keys let go before it is turned off.
pub proof fn law_windows_forwarding_is_set_from_either_side(session: WindowsSession, enabled: bool)
    ensures
        ({
            let (here, mine) = session.after_tray(
                TrayCommandOutcome::InputForwardingChanged(enabled),
            );
            let (there, theirs) = session.after_frame(
                Frame::Control(
                    ControlFrame {
                        role_epoch: INITIAL_ROLE_EPOCH,
                        event: ControlEvent::SetInputForwarding { enabled },
                    },
                ),
            );
            &&& here == (WindowsSession { input_forwarding_enabled: enabled, ..session })
            &&& mine.contains(WindowsEffect::SetForwarding(enabled))
            &&& mine.contains(WindowsEffect::ShowForwarding(enabled))
            &&& mine.contains(
                WindowsEffect::Send(
                    Message::Control {
                        role_epoch: INITIAL_ROLE_EPOCH,
                        event: ControlEvent::SetInputForwarding { enabled },
                    },
                ),
            ) <==> session.peer_supports_input_toggle
            &&& mine.contains(
                WindowsEffect::Send(
                    Message::Input { role_epoch: INITIAL_ROLE_EPOCH, event: InputEvent::AllKeysUp },
                ),
            ) <==> !enabled
            &&& session.peer_supports_input_toggle ==> there == here && theirs =~= seq![
                WindowsEffect::SetForwarding(enabled),
                WindowsEffect::ShowForwarding(enabled),
            ]
            &&& !session.peer_supports_input_toggle ==> there == session && theirs.len() == 0
        }),
{
    broadcast use {lemma_holds_push, lemma_holds_empty};

}

/// A peer that gives control back, for whatever reason, has the hooks asked to
/// take it; what it says in another epoch does nothing.
pub proof fn law_windows_takes_control_back(
    session: WindowsSession,
    control: ControlFrame,
    reason: ReleaseReason,
)
    ensures
        session.after_frame(
            Frame::Control(
                ControlFrame {
                    role_epoch: INITIAL_ROLE_EPOCH,
                    event: ControlEvent::ReleaseToLocal { reason },
                },
            ),
        ).1 =~= seq![WindowsEffect::ReceiverRelease(reason)],
        control.role_epoch != INITIAL_ROLE_EPOCH ==> session.after_frame(Frame::Control(control))
            == (session, Seq::<WindowsEffect>::empty()),
{
}

/// What the peer says of the clipboard is taken in, the very event; a failure
/// of the peer ends the session with its words.
pub proof fn law_windows_frames_are_taken_in(
    session: WindowsSession,
    event: ClipboardEvent,
    error: crate::protocol::RemoteError,
)
    ensures
        session.after_frame(Frame::Clipboard(event)).0 == session,
        session.after_frame(Frame::Clipboard(event)).1 =~= seq![
            WindowsEffect::SyncClipboard(event),
        ],
        session.after_frame(Frame::Error(error)).1 =~= seq![
            WindowsEffect::Fail(
                SessionFailure::PeerError { code: error.code, message: error.message },
            ),
        ],
{
}

/// How a session ends on the user's wish: quitting, disconnecting and pairing
/// each end it as such, behind a release of the peer's keys. A peer that knows
/// audio is told why it stops, control is given back at once, and a stream that
/// is played ends.
pub proof fn law_windows_session_ends_as_asked(session: WindowsSession)
    ensures
        ({
            let let_go = WindowsEffect::TrySend(
                Message::Input { role_epoch: INITIAL_ROLE_EPOCH, event: InputEvent::AllKeysUp },
            );
            let (_, quit) = session.after_tray(TrayCommandOutcome::Quit);
            let (left, parted) = session.after_tray(TrayCommandOutcome::Disconnect);
            let (_, paired) = session.after_tray(TrayCommandOutcome::Pair);
            &&& quit == session.quitting()
            &&& quit.contains(let_go)
            &&& quit.last() == WindowsEffect::Exit(ConnectedSessionExit::Quit)
            &&& quit.contains(
                WindowsEffect::TrySend(Message::AudioStop { reason: AudioStopReason::Shutdown }),
            ) <==> session.peer_supports_audio
            &&& !left.audio_receiver
            &&& parted.contains(let_go)
            &&& parted.contains(WindowsEffect::ForceRelease)
            &&& parted.last() == WindowsEffect::Exit(ConnectedSessionExit::Disconnect)
            &&& parted.contains(WindowsEffect::DropAudioReceiver) <==> session.audio_receiver
            &&& parted.contains(
                WindowsEffect::TrySend(Message::AudioStop { reason: AudioStopReason::UserRequest }),
            ) <==> session.peer_supports_audio
            &&& paired.contains(let_go)
            &&& paired.contains(WindowsEffect::ForceRelease)
            &&& paired.last() == WindowsEffect::Exit(ConnectedSessionExit::Pair)
        }),
{
    broadcast use {lemma_holds_push, lemma_holds_empty};

}

/// Audio is turned on and off from the tray, by the settings or by the peer: it
/// holds from then on, a peer that knows audio is told of what was set here,
/// what the peer set is saved, and a stream that is played ends when it is
/// turned off. A stream that failed before may be tried again.
pub proof fn law_windows_audio_is_switched(
    session: WindowsSession,
    enabled: bool,
    reason: AudioStopReason,
)
    ensures
        ({
            let told = WindowsEffect::Send(Message::AudioSetEnabled { enabled });
            let drops = session.audio_receiver && !enabled;
            let (tray, by_tray) = session.after_tray(TrayCommandOutcome::AudioChanged(enabled));
            let (config, by_config) = session.after_config(enabled);
            let (peer, by_peer) = session.after_frame(
                Frame::Audio(AudioControl::SetEnabled { enabled }),
            );
            let stopped = session.after_frame(Frame::Audio(AudioControl::Stop { reason }));
            &&& tray.audio_enabled == enabled
            &&& !tray.audio_restart_attempted
            &&& tray.audio_receiver == (session.audio_receiver && enabled)
            &&& by_tray.contains(told) <==> session.peer_supports_audio
            &&& by_tray.contains(WindowsEffect::DropAudioReceiver) <==> drops
            &&& by_tray.contains(
                WindowsEffect::ShowAudio {
                    enabled,
                    label: if enabled {
                        AudioLabel::Starting
                    } else {
                        AudioLabel::Off
                    },
                },
            )
            &&& config.audio_enabled == enabled
            &&& enabled == session.audio_enabled ==> config == session && by_config.len() == 0
            &&& enabled != session.audio_enabled ==> {
                &&& !config.audio_restart_attempted
                &&& config.audio_receiver == (session.audio_receiver && enabled)
                &&& by_config.contains(told) <==> session.peer_supports_audio
                &&& by_config.contains(WindowsEffect::DropAudioReceiver) <==> drops
                &&& by_config.contains(
                    WindowsEffect::ShowAudio {
                        enabled,
                        label: if !enabled {
                            AudioLabel::Off
                        } else if session.peer_supports_audio {
                            AudioLabel::Starting
                        } else {
                            AudioLabel::Unsupported
                        },
                    },
                )
            }
            &&& peer.audio_enabled == enabled
            &&& peer.audio_receiver == (session.audio_receiver && enabled)
            &&& enabled ==> !peer.audio_restart_attempted
            &&& by_peer.contains(WindowsEffect::SaveAudioEnabled(enabled))
            &&& by_peer.contains(WindowsEffect::DropAudioReceiver) <==> drops
            &&& by_peer.contains(told) <==> enabled && session.peer_supports_audio
            &&& by_peer.contains(
                WindowsEffect::ShowAudio {
                    enabled,
                    label: if enabled {
                        AudioLabel::Starting
                    } else {
                        AudioLabel::Off
                    },
                },
            )
            &&& stopped == session.after_frame(
                Frame::Audio(AudioControl::SetEnabled { enabled: false }),
            )
        }),
{
    broadcast use {lemma_holds_push, lemma_holds_empty};

}

/// An offer of audio is answered, on the port that it names, exactly where
/// audio is on and what is offered can be played.
pub proof fn law_windows_answers_audio_offers(
    session: WindowsSession,
    udp_port: u16,
    codecs: Vec<AudioCodec>,
)
    ensures
        ({
            let playable = exists|i: int|
                0 <= i < codecs@.len() && codecs@[i] == AudioCodec::PcmS16Stereo48Khz;
            let (after, effects) = session.after_frame(
                Frame::Audio(AudioControl::Offer { udp_port, codecs }),
            );
            &&& after == session
            &&& effects.contains(WindowsEffect::AnswerAudioOffer { udp_port })
                <==> session.audio_enabled && playable
            &&& !(session.audio_enabled && playable) ==> effects.len() == 0
        }),
        session.after_offer_answered(OfferAnswer::Started).0.audio_receiver,
{
    broadcast use {lemma_holds_push, lemma_holds_empty};

    let wanted = AudioCodec::PcmS16Stereo48Khz;
    assert(codecs@.contains(wanted) <==> exists|i: int|
        0 <= i < codecs@.len() && codecs@[i] == wanted);
}

/// An answer that failed is shown with its reason, and the peer is told where
/// nothing can be played.
pub proof fn law_windows_failed_audio_is_shown(session: WindowsSession, error: String)
    ensures
        ({
            let shown = WindowsEffect::ShowAudio {
                enabled: true,
                label: AudioLabel::Error(error),
            };
            let (one, mute) = session.after_offer_answered(OfferAnswer::PlaybackFailed(error));
            let (other, cut) = session.after_offer_answered(OfferAnswer::SocketFailed(error));
            &&& one == session
            &&& other == session
            &&& mute =~= seq![
                shown,
                WindowsEffect::TrySend(
                    Message::AudioStop { reason: AudioStopReason::PlaybackFailure },
                ),
            ]
            &&& cut =~= seq![shown]
        }),
{
}

/// What the peer says of its stream is shown, and a stream that is played is
/// told that it runs.
pub proof fn law_windows_stream_state_is_shown(
    session: WindowsSession,
    state: AudioStreamState,
    detail: Option<String>,
)
    ensures
        ({
            let (after, effects) = session.after_frame(
                Frame::Audio(AudioControl::State { state, detail }),
            );
            let label = match state {
                AudioStreamState::Disabled => AudioLabel::Off,
                AudioStreamState::WaitingForUdp => AudioLabel::Starting,
                AudioStreamState::Starting => AudioLabel::Starting,
                AudioStreamState::Streaming => AudioLabel::Streaming,
                AudioStreamState::Error => match detail {
                    Some(words) => AudioLabel::Error(words),
                    None => AudioLabel::UnknownError,
                },
            };
            &&& after == session
            &&& effects.last() == (WindowsEffect::ShowAudio {
                enabled: session.audio_enabled,
                label,
            })
            &&& effects.contains(WindowsEffect::MarkStreaming) <==> state
                == AudioStreamState::Streaming && session.audio_receiver
        }),
{
    broadcast use {lemma_holds_push, lemma_holds_empty};

}

/// A stream that ended by itself is asked for once more where audio is on and
/// the peer knows it; the next time, and elsewhere, it is shown why, and the
/// peer is told to stop.
pub proof fn law_windows_lost_stream_is_tried_again(session: WindowsSession, failure: String)
    requires
        session.audio_receiver,
    ensures
        ({
            let again = session.audio_enabled && session.peer_supports_audio
                && !session.audio_restart_attempted;
            let (after, effects) = session.after_audio_ended(failure);
            &&& !after.audio_receiver
            &&& after.audio_enabled == session.audio_enabled
            &&& after.audio_restart_attempted == (again || session.audio_restart_attempted)
            &&& again ==> effects =~= seq![
                WindowsEffect::ShowAudio { enabled: true, label: AudioLabel::Restarting },
                WindowsEffect::Send(Message::AudioSetEnabled { enabled: true }),
            ]
            &&& !again ==> effects =~= seq![
                WindowsEffect::ShowAudio {
                    enabled: session.audio_enabled,
                    label: AudioLabel::Error(failure),
                },
                WindowsEffect::TrySend(
                    Message::AudioStop { reason: AudioStopReason::TransportFailure },
                ),
            ]
        }),
{
}

/// A peer that falls silent has control given back; one that stays silent ends
/// the session. An image that makes no progress is given up first, by its
/// number.
pub proof fn law_windows_silence_gives_control_back(
    expired: Option<u64>,
    liveness: Option<LivenessEvent>,
)
    ensures
        ({
            let effects = WindowsSession::watching(expired, liveness);
            &&& effects.contains(WindowsEffect::ForceRelease) <==> liveness == Some(
                LivenessEvent::SoftInputTimeout,
            )
            &&& effects.contains(WindowsEffect::Fail(SessionFailure::PeerSilent)) <==> liveness
                == Some(LivenessEvent::HardSessionTimeout)
            &&& expired matches Some(transfer_id) ==> effects.len() > 0 && effects[0]
                == WindowsEffect::Send(
                Message::ClipboardCancel { transfer_id, reason: ClipboardCancelReason::TimedOut },
            )
            &&& expired is None && liveness is None ==> effects.len() == 0
        }),
{
    broadcast use {lemma_holds_push, lemma_holds_empty};

}

/// Each sign of life is sent, with a number that the one before did not have.
pub proof fn law_windows_signs_of_life_are_sent(session: WindowsSession)
    ensures
        ({
            let (after, effects) = session.after_heartbeat();
            &&& after.heartbeat_sequence != session.heartbeat_sequence
            &&& session.heartbeat_sequence < u64::MAX ==> after.heartbeat_sequence
                == session.heartbeat_sequence + 1
            &&& after == (WindowsSession {
                heartbeat_sequence: after.heartbeat_sequence,
                ..session
            })
            &&& effects =~= seq![
                WindowsEffect::Send(Message::Heartbeat { sequence: after.heartbeat_sequence }),
            ]
        }),
{
}

} // verus!
