//! What the tray of this computer shows, and what its menu does.

use crate::clock::{millis, Instant};
use crate::session::{AudioChoice, ControllerChoice, TrayCommand};
use crate::stats::{bump, bumped};
use crate::text::{decimal, push_decimal};
use vstd::prelude::*;

verus! {

/// How long counters stand still on the tray, in milliseconds.
pub const COUNTER_UPDATE_MILLIS: u64 = 5_000;

/// How things stand.
#[derive(Clone, Copy, Debug, PartialEq, Eq, Structural)]
pub enum TrayState {
    Starting,
    Listening,
    Connected,
    Paused,
    Error,
}

/// How much attention the tray asks for.
#[derive(Clone, Copy, Debug, PartialEq, Eq, Structural)]
pub enum TrayStatus {
    Passive,
    Active,
    NeedsAttention,
}

/// The colour of the icon.
#[derive(Clone, Copy, Debug, PartialEq, Eq, Structural)]
pub enum IconColor {
    Connecting,
    Connected,
    Disconnected,
}

impl TrayState {
    /// Its name.
    pub open spec fn words(self) -> Seq<char> {
        match self {
            TrayState::Starting => "Starting"@,
            TrayState::Listening => "Listening"@,
            TrayState::Connected => "Connected"@,
            TrayState::Paused => "Disconnected"@,
            TrayState::Error => "Error"@,
        }
    }

    /// Its name.
    pub fn label(self) -> (label: &'static str)
        ensures
            label@ == self.words(),
    {
        match self {
            TrayState::Starting => "Starting",
            TrayState::Listening => "Listening",
            TrayState::Connected => "Connected",
            TrayState::Paused => "Disconnected",
            TrayState::Error => "Error",
        }
    }
}

/// One choice of several.
#[derive(Clone, Debug)]
pub struct RadioOption {
    pub label: String,
    pub enabled: bool,
}

impl View for RadioOption {
    type V = (Seq<char>, bool);

    open spec fn view(&self) -> (Seq<char>, bool) {
        (self.label@, self.enabled)
    }
}

/// An entry of the menu.
#[derive(Clone, Debug)]
pub enum TrayItem {
    /// A line that is only read.
    Text(String),
    Separator,
    Action { label: String, icon: &'static str, enabled: bool, command: TrayCommand },
    Check {
        label: String,
        icon: &'static str,
        enabled: bool,
        checked: bool,
        command: TrayCommand,
    },
    AudioChoices { selected: usize, options: Vec<RadioOption> },
    ControllerChoices { selected: usize, options: Vec<RadioOption> },
}

/// An entry of the menu, as it is seen.
pub enum ShownItem {
    Text(Seq<char>),
    Separator,
    Action { label: Seq<char>, icon: Seq<char>, enabled: bool, command: TrayCommand },
    Check {
        label: Seq<char>,
        icon: Seq<char>,
        enabled: bool,
        checked: bool,
        command: TrayCommand,
    },
    AudioChoices { selected: usize, options: Seq<(Seq<char>, bool)> },
    ControllerChoices { selected: usize, options: Seq<(Seq<char>, bool)> },
}

/// Choices, as they are seen.
pub open spec fn shown_options(options: Seq<RadioOption>) -> Seq<(Seq<char>, bool)> {
    options.map_values(|option: RadioOption| option@)
}

impl View for TrayItem {
    type V = ShownItem;

    open spec fn view(&self) -> ShownItem {
        match self {
            TrayItem::Text(label) => ShownItem::Text(label@),
            TrayItem::Separator => ShownItem::Separator,
            TrayItem::Action { label, icon, enabled, command } => ShownItem::Action {
                label: label@,
                icon: icon@,
                enabled: *enabled,
                command: *command,
            },
            TrayItem::Check { label, icon, enabled, checked, command } => ShownItem::Check {
                label: label@,
                icon: icon@,
                enabled: *enabled,
                checked: *checked,
                command: *command,
            },
            TrayItem::AudioChoices { selected, options } => ShownItem::AudioChoices {
                selected: *selected,
                options: shown_options(options@),
            },
            TrayItem::ControllerChoices { selected, options } => ShownItem::ControllerChoices {
                selected: *selected,
                options: shown_options(options@),
            },
        }
    }
}

/// Entries, as they are seen.
pub open spec fn shown(items: Seq<TrayItem>) -> Seq<ShownItem> {
    items.map_values(|item: TrayItem| item@)
}

fn put(out: &mut Vec<TrayItem>, item: TrayItem)
    ensures
        shown(final(out)@) == shown(old(out)@).push(item@),
{
    out.push(item);
    assert(shown(out@) == shown(old(out)@).push(item@));
}

fn put_option(out: &mut Vec<RadioOption>, label: String, enabled: bool)
    ensures
        shown_options(final(out)@) == shown_options(old(out)@).push((label@, enabled)),
{
    out.push(RadioOption { label, enabled });
    assert(shown_options(out@) == shown_options(old(out)@).push((label@, enabled)));
}

fn labelled(name: &str, value: &str) -> (text: String)
    ensures
        text@ == name@ + value@,
{
    name.to_owned().concat(value)
}

fn counted(name: &str, value: u64) -> (text: String)
    ensures
        text@ == name@ + decimal(value as nat),
{
    let mut text = name.to_owned();
    push_decimal(&mut text, value);
    text
}

/// A text, or another one where there is none.
pub open spec fn text_or(text: Option<String>, otherwise: Seq<char>) -> Seq<char> {
    match text {
        Some(text) => text@,
        None => otherwise,
    }
}

fn text_or_else<'a>(text: &'a Option<String>, otherwise: &'a str) -> (out: &'a str)
    ensures
        out@ == text_or(*text, otherwise@),
{
    match text {
        Some(text) => text.as_str(),
        None => otherwise,
    }
}

/// What the tray knows.
#[derive(Clone, Debug)]
pub struct ReceiverTray {
    pub state: TrayState,
    pub transport: String,
    pub backend: String,
    pub pairing_armed: bool,
    pub connected_peer: Option<String>,
    pub connections: u64,
    pub input_events: u64,
    pub clipboard_events: u64,
    pub input_forwarding_enabled: bool,
    pub audio_choice: AudioChoice,
    pub local_audio_available: bool,
    pub peer_audio_available: bool,
    pub local_device_name: Option<String>,
    pub peer_device_name: Option<String>,
    pub local_is_controller: bool,
    pub role_switch_available: bool,
    pub role_switching: bool,
    pub last_error: Option<String>,
}

impl ReceiverTray {
    /// A tray at the start.
    pub fn new(transport: String, backend: String, pairing_armed: bool) -> (tray: Self)
        ensures
            tray == (ReceiverTray {
                state: TrayState::Starting,
                transport,
                backend,
                pairing_armed,
                connected_peer: None,
                connections: 0,
                input_events: 0,
                clipboard_events: 0,
                input_forwarding_enabled: true,
                audio_choice: AudioChoice::Off,
                local_audio_available: false,
                peer_audio_available: false,
                local_device_name: None,
                peer_device_name: None,
                local_is_controller: true,
                role_switch_available: false,
                role_switching: false,
                last_error: None,
            }),
    {
        ReceiverTray {
            state: TrayState::Starting,
            transport,
            backend,
            pairing_armed,
            connected_peer: None,
            connections: 0,
            input_events: 0,
            clipboard_events: 0,
            input_forwarding_enabled: true,
            audio_choice: AudioChoice::Off,
            local_audio_available: false,
            peer_audio_available: false,
            local_device_name: None,
            peer_device_name: None,
            local_is_controller: true,
            role_switch_available: false,
            role_switching: false,
            last_error: None,
        }
    }

    /// The tray of a computer that waits for its peer.
    pub open spec fn as_listening(self) -> Self {
        ReceiverTray {
            state: TrayState::Listening,
            connected_peer: None,
            last_error: None,
            ..self
        }
    }

    /// Peers are waited for.
    pub fn listening(&mut self)
        ensures
            *final(self) == old(self).as_listening(),
    {
        self.state = TrayState::Listening;
        self.connected_peer = None;
        self.last_error = None;
    }

    /// The tray of a computer that connects.
    pub open spec fn as_connecting(self) -> Self {
        ReceiverTray {
            state: TrayState::Starting,
            connected_peer: None,
            last_error: None,
            ..self
        }
    }

    /// A peer is called.
    pub fn connecting(&mut self)
        ensures
            *final(self) == old(self).as_connecting(),
    {
        self.state = TrayState::Starting;
        self.connected_peer = None;
        self.last_error = None;
    }

    /// The next connection may pair, or may not.
    pub fn set_pairing_armed(&mut self, armed: bool)
        ensures
            *final(self) == (ReceiverTray { pairing_armed: armed, ..*old(self) }),
    {
        self.pairing_armed = armed;
    }

    /// The tray of a computer that is connected.
    pub open spec fn as_connected(self, peer: String, input_events: u64) -> Self {
        ReceiverTray {
            state: TrayState::Connected,
            connected_peer: Some(peer),
            connections: bumped(self.connections),
            input_events,
            last_error: None,
            ..self
        }
    }

    /// A peer is there.
    pub fn connected(&mut self, peer: String, input_events: u64)
        ensures
            *final(self) == old(self).as_connected(peer, input_events),
    {
        self.state = TrayState::Connected;
        self.connected_peer = Some(peer);
        self.connections = bump(self.connections);
        self.input_events = input_events;
        self.last_error = None;
    }

    /// The tray behind a connection that ended.
    pub open spec fn as_disconnected(self, error: Option<String>, input_events: u64) -> Self {
        ReceiverTray {
            state: if error is Some {
                TrayState::Error
            } else {
                TrayState::Listening
            },
            connected_peer: None,
            input_events,
            last_error: error,
            ..self
        }
    }

    /// The peer is gone, perhaps by an error.
    pub fn disconnected(&mut self, error: Option<String>, input_events: u64)
        ensures
            *final(self) == old(self).as_disconnected(error, input_events),
    {
        self.state = if error.is_some() {
            TrayState::Error
        } else {
            TrayState::Listening
        };
        self.connected_peer = None;
        self.input_events = input_events;
        self.last_error = error;
    }

    /// The tray behind a connection that the user ended.
    pub open spec fn as_disconnected_by_user(self, input_events: u64) -> Self {
        ReceiverTray {
            state: TrayState::Paused,
            connected_peer: None,
            input_events,
            last_error: None,
            ..self
        }
    }

    /// The user sent the peer away.
    pub fn disconnected_by_user(&mut self, input_events: u64)
        ensures
            *final(self) == old(self).as_disconnected_by_user(input_events),
    {
        self.state = TrayState::Paused;
        self.connected_peer = None;
        self.input_events = input_events;
        self.last_error = None;
    }

    /// So much input was seen.
    pub fn input_event(&mut self, total: u64)
        ensures
            *final(self) == (ReceiverTray { input_events: total, ..*old(self) }),
    {
        self.input_events = total;
    }

    /// The tray behind a change of the clipboard.
    pub open spec fn as_clipboard_event(self, input_events: u64) -> Self {
        ReceiverTray {
            input_events,
            clipboard_events: bumped(self.clipboard_events),
            ..self
        }
    }

    /// The clipboard was shared.
    pub fn clipboard_event(&mut self, input_events: u64)
        ensures
            *final(self) == old(self).as_clipboard_event(input_events),
    {
        self.input_events = input_events;
        self.clipboard_events = bump(self.clipboard_events);
    }

    /// Input is passed on, or is not.
    pub fn input_forwarding(&mut self, enabled: bool)
        ensures
            *final(self) == (ReceiverTray { input_forwarding_enabled: enabled, ..*old(self) }),
    {
        self.input_forwarding_enabled = enabled;
    }

    /// The tray of a session that is paused, or goes on.
    pub open spec fn as_session_paused(self, paused: bool) -> Self {
        ReceiverTray {
            state: if paused {
                TrayState::Paused
            } else {
                TrayState::Connected
            },
            role_switching: false,
            last_error: None,
            ..self
        }
    }

    /// The session rests, or goes on.
    pub fn session_paused(&mut self, paused: bool)
        ensures
            *final(self) == old(self).as_session_paused(paused),
    {
        self.state = if paused {
            TrayState::Paused
        } else {
            TrayState::Connected
        };
        self.role_switching = false;
        self.last_error = None;
    }

    /// Where the audio comes from, and where it could.
    pub fn audio_route(
        &mut self,
        choice: AudioChoice,
        local_available: bool,
        peer_available: bool,
    )
        ensures
            *final(self) == (ReceiverTray {
                audio_choice: choice,
                local_audio_available: local_available,
                peer_audio_available: peer_available,
                ..*old(self)
            }),
    {
        self.audio_choice = choice;
        self.local_audio_available = local_available;
        self.peer_audio_available = peer_available;
    }

    /// The tray behind a change of roles.
    pub open spec fn as_role_assignment(
        self,
        local_device_name: String,
        peer_device_name: String,
        local_is_controller: bool,
        available: bool,
    ) -> Self {
        ReceiverTray {
            local_device_name: Some(local_device_name),
            peer_device_name: Some(peer_device_name),
            local_is_controller,
            role_switch_available: available,
            role_switching: false,
            last_error: None,
            ..self
        }
    }

    /// Which computer controls which.
    pub fn role_assignment(
        &mut self,
        local_device_name: String,
        peer_device_name: String,
        local_is_controller: bool,
        available: bool,
    )
        ensures
            *final(self) == old(self).as_role_assignment(
                local_device_name,
                peer_device_name,
                local_is_controller,
                available,
            ),
    {
        self.local_device_name = Some(local_device_name);
        self.peer_device_name = Some(peer_device_name);
        self.local_is_controller = local_is_controller;
        self.role_switch_available = available;
        self.role_switching = false;
        self.last_error = None;
    }

    /// The roles are being switched, or are not.
    pub fn set_role_switching(&mut self, switching: bool)
        ensures
            *final(self) == (ReceiverTray { role_switching: switching, ..*old(self) }),
    {
        self.role_switching = switching;
    }

    /// The tray behind a change of roles that failed.
    pub open spec fn as_role_failure(self, error: String) -> Self {
        ReceiverTray {
            role_switching: false,
            last_error: Some(error),
            ..self
        }
    }

    /// The roles could not be switched.
    pub fn role_failure(&mut self, error: String)
        ensures
            *final(self) == old(self).as_role_failure(error),
    {
        self.role_switching = false;
        self.last_error = Some(error);
    }

    /// The tray behind a failure.
    pub open spec fn as_error(self, error: String) -> Self {
        ReceiverTray {
            state: TrayState::Error,
            connected_peer: None,
            last_error: Some(error),
            ..self
        }
    }

    /// Something went wrong.
    pub fn error(&mut self, error: String)
        ensures
            *final(self) == old(self).as_error(error),
    {
        self.state = TrayState::Error;
        self.connected_peer = None;
        self.last_error = Some(error);
    }

    /// The title.
    pub fn title(&self) -> (title: String)
        ensures
            title@ == "edge-kvm: "@ + self.state.words(),
    {
        labelled("edge-kvm: ", self.state.label())
    }

    /// How urgent the tray shows itself.
    pub open spec fn status_shown(self) -> TrayStatus {
        match self.state {
            TrayState::Error => TrayStatus::NeedsAttention,
            TrayState::Paused => TrayStatus::Passive,
            _ => TrayStatus::Active,
        }
    }

    /// The colour that the tray has.
    pub open spec fn color_shown(self) -> IconColor {
        match self.state {
            TrayState::Connected => IconColor::Connected,
            TrayState::Starting => IconColor::Connecting,
            TrayState::Listening => IconColor::Connecting,
            _ => IconColor::Disconnected,
        }
    }

    /// How much attention the tray asks for.
    pub fn status(&self) -> (status: TrayStatus)
        ensures
            status == self.status_shown(),
    {
        match self.state {
            TrayState::Error => TrayStatus::NeedsAttention,
            TrayState::Paused => TrayStatus::Passive,
            TrayState::Starting | TrayState::Listening | TrayState::Connected => TrayStatus::Active,
        }
    }

    /// The colour of the icon.
    pub fn icon_color(&self) -> (color: IconColor)
        ensures
            color == self.color_shown(),
    {
        match self.state {
            TrayState::Connected => IconColor::Connected,
            TrayState::Starting | TrayState::Listening => IconColor::Connecting,
            TrayState::Paused | TrayState::Error => IconColor::Disconnected,
        }
    }

    /// What is shown when the pointer rests on the icon.
    pub open spec fn described(self) -> Seq<char> {
        let peer = match self.connected_peer {
            Some(peer) => "\nConnected peer: "@ + peer@,
            None => ""@,
        };
        "Status: "@ + self.state.words() + "\nTransport: "@ + self.transport@
            + "\nInput backend: "@ + self.backend@ + peer + "\nConnections: "@ + decimal(
            self.connections as nat,
        ) + "\nInput events: "@ + decimal(self.input_events as nat) + "\nClipboard events: "@
            + decimal(self.clipboard_events as nat) + "\nLast error: "@ + text_or(
            self.last_error,
            "None"@,
        )
    }

    /// What is shown when the pointer rests on the icon.
    pub fn description(&self) -> (text: String)
        ensures
            text@ == self.described(),
    {
        let mut text = labelled("Status: ", self.state.label());
        text.append("\nTransport: ");
        text.append(self.transport.as_str());
        text.append("\nInput backend: ");
        text.append(self.backend.as_str());
        let peer = match &self.connected_peer {
            Some(peer) => labelled("\nConnected peer: ", peer.as_str()),
            None => "".to_owned(),
        };
        text.append(peer.as_str());
        text.append("\nConnections: ");
        push_decimal(&mut text, self.connections);
        text.append("\nInput events: ");
        push_decimal(&mut text, self.input_events);
        text.append("\nClipboard events: ");
        push_decimal(&mut text, self.clipboard_events);
        text.append("\nLast error: ");
        text.append(text_or_else(&self.last_error, "None"));
        text
    }

    /// The name of this computer.
    pub open spec fn local_name(self) -> Seq<char> {
        text_or(self.local_device_name, "This computer"@)
    }

    /// The name of the other computer.
    pub open spec fn peer_name(self) -> Seq<char> {
        text_or(self.peer_device_name, "Peer"@)
    }

    /// The choices of where the audio comes from.
    pub open spec fn audio_choices(self) -> ShownItem {
        let connected = self.state == TrayState::Connected;
        ShownItem::AudioChoices {
            selected: match self.audio_choice {
                AudioChoice::Off => 0,
                AudioChoice::Local => 1,
                AudioChoice::Peer => 2,
            },
            options: Seq::<(Seq<char>, bool)>::empty().push(("Audio off"@, true)).push(
                (
                    self.local_name() + " → "@ + self.peer_name(),
                    connected && self.local_audio_available,
                ),
            ).push(
                (
                    self.peer_name() + " → "@ + self.local_name(),
                    connected && self.peer_audio_available,
                ),
            ),
        }
    }

    /// The choices of where the audio comes from.
    pub fn audio_items(&self) -> (item: TrayItem)
        ensures
            item@ == self.audio_choices(),
    {
        let local = text_or_else(&self.local_device_name, "This computer");
        let peer = text_or_else(&self.peer_device_name, "Peer");
        let connected = self.state == TrayState::Connected;
        let mut options: Vec<RadioOption> = Vec::new();
        assert(shown_options(options@) == Seq::<(Seq<char>, bool)>::empty());
        put_option(&mut options, "Audio off".to_owned(), true);
        put_option(
            &mut options,
            local.to_owned().concat(" → ").concat(peer),
            connected && self.local_audio_available,
        );
        put_option(
            &mut options,
            peer.to_owned().concat(" → ").concat(local),
            connected && self.peer_audio_available,
        );
        let selected: usize = match self.audio_choice {
            AudioChoice::Off => 0,
            AudioChoice::Local => 1,
            AudioChoice::Peer => 2,
        };
        TrayItem::AudioChoices { selected, options }
    }

    /// Whether the roles can be switched now.
    pub open spec fn can_switch_roles(self) -> bool {
        self.state == TrayState::Connected && self.role_switch_available && !self.role_switching
    }

    /// The choices of which computer controls which.
    pub open spec fn controller_choices(self) -> ShownItem {
        ShownItem::ControllerChoices {
            selected: if self.local_is_controller {
                0
            } else {
                1
            },
            options: Seq::<(Seq<char>, bool)>::empty().push(
                (
                    self.local_name() + " controls "@ + self.peer_name(),
                    self.can_switch_roles(),
                ),
            ).push(
                (
                    self.peer_name() + " controls "@ + self.local_name(),
                    self.can_switch_roles(),
                ),
            ),
        }
    }

    /// The choices of which computer controls which.
    pub fn controller_items(&self) -> (item: TrayItem)
        ensures
            item@ == self.controller_choices(),
    {
        let local = text_or_else(&self.local_device_name, "This computer");
        let peer = text_or_else(&self.peer_device_name, "Peer");
        let enabled = self.state == TrayState::Connected && self.role_switch_available
            && !self.role_switching;
        let mut options: Vec<RadioOption> = Vec::new();
        assert(shown_options(options@) == Seq::<(Seq<char>, bool)>::empty());
        put_option(&mut options, local.to_owned().concat(" controls ").concat(peer), enabled);
        put_option(&mut options, peer.to_owned().concat(" controls ").concat(local), enabled);
        let selected: usize = if self.local_is_controller {
            0
        } else {
            1
        };
        TrayItem::ControllerChoices { selected, options }
    }

    /// The entry that ends the connection, or that takes it up again.
    pub open spec fn connection_entry(self) -> ShownItem {
        if self.state == TrayState::Paused {
            ShownItem::Action {
                label: "Reconnect"@,
                icon: "network-connect"@,
                enabled: true,
                command: TrayCommand::Reconnect,
            }
        } else {
            ShownItem::Action {
                label: "Disconnect"@,
                icon: "network-offline"@,
                enabled: true,
                command: TrayCommand::Disconnect,
            }
        }
    }

    /// The entry that ends the connection, or that takes it up again.
    pub fn connection_item(&self) -> (item: TrayItem)
        ensures
            item@ == self.connection_entry(),
    {
        match self.state {
            TrayState::Paused => TrayItem::Action {
                label: "Reconnect".to_owned(),
                icon: "network-connect",
                enabled: true,
                command: TrayCommand::Reconnect,
            },
            _ => TrayItem::Action {
                label: "Disconnect".to_owned(),
                icon: "network-offline",
                enabled: true,
                command: TrayCommand::Disconnect,
            },
        }
    }

    /// The lines at the top of the menu.
    pub open spec fn lines_shown(self) -> Seq<ShownItem> {
        Seq::<ShownItem>::empty().push(
            ShownItem::Text("Status: "@ + self.state.words()),
        ).push(ShownItem::Text("Transport: "@ + self.transport@)).push(
            ShownItem::Text("Input backend: "@ + self.backend@),
        ).push(
            ShownItem::Text(
                "Pairing: "@ + if self.pairing_armed {
                    "waiting for confirmation"@
                } else {
                    "not armed"@
                },
            ),
        ).push(ShownItem::Text("Peer: "@ + text_or(self.connected_peer, "none"@))).push(
            ShownItem::Text("Connections: "@ + decimal(self.connections as nat)),
        ).push(ShownItem::Text("Input events: "@ + decimal(self.input_events as nat))).push(
            ShownItem::Text("Clipboard events: "@ + decimal(self.clipboard_events as nat)),
        ).push(ShownItem::Text("Last error: "@ + text_or(self.last_error, "None"@))).push(
            ShownItem::Separator,
        )
    }

    fn put_lines(&self, out: &mut Vec<TrayItem>)
        requires
            shown(old(out)@) == Seq::<ShownItem>::empty(),
        ensures
            shown(final(out)@) == self.lines_shown(),
    {
        put(out, TrayItem::Text(labelled("Status: ", self.state.label())));
        put(out, TrayItem::Text(labelled("Transport: ", self.transport.as_str())));
        put(out, TrayItem::Text(labelled("Input backend: ", self.backend.as_str())));
        let pairing = if self.pairing_armed {
            "waiting for confirmation"
        } else {
            "not armed"
        };
        put(out, TrayItem::Text(labelled("Pairing: ", pairing)));
        put(out, TrayItem::Text(labelled("Peer: ", text_or_else(&self.connected_peer, "none"))));
        put(out, TrayItem::Text(counted("Connections: ", self.connections)));
        put(out, TrayItem::Text(counted("Input events: ", self.input_events)));
        put(out, TrayItem::Text(counted("Clipboard events: ", self.clipboard_events)));
        put(out, TrayItem::Text(labelled("Last error: ", text_or_else(&self.last_error, "None"))));
        put(out, TrayItem::Separator);
    }

    /// The entry that arms pairing.
    pub open spec fn pairing_entry(self) -> ShownItem {
        ShownItem::Action {
            label: if self.pairing_armed {
                "Pairing enabled for next connection"@
            } else {
                "Pair or replace peer..."@
            },
            icon: "network-connect"@,
            enabled: !self.pairing_armed && self.state != TrayState::Connected,
            command: TrayCommand::ArmPairing,
        }
    }

    fn pairing_item(&self) -> (item: TrayItem)
        ensures
            item@ == self.pairing_entry(),
    {
        let label = if self.pairing_armed {
            "Pairing enabled for next connection"
        } else {
            "Pair or replace peer..."
        };
        TrayItem::Action {
            label: label.to_owned(),
            icon: "network-connect",
            enabled: !self.pairing_armed && self.state != TrayState::Connected,
            command: TrayCommand::ArmPairing,
        }
    }

    /// The whole menu.
    pub open spec fn menu_shown(self) -> Seq<ShownItem> {
        self.lines_shown().push(self.pairing_entry()).push(self.connection_entry()).push(
            self.controller_choices(),
        ).push(
            ShownItem::Check {
                label: "Forward mouse and keyboard"@,
                icon: "input-mouse"@,
                enabled: self.state == TrayState::Connected,
                checked: self.input_forwarding_enabled,
                command: TrayCommand::ToggleInputForwarding,
            },
        ).push(ShownItem::Separator).push(ShownItem::Text("Audio routing"@)).push(
            self.audio_choices(),
        ).push(
            ShownItem::Action {
                label: "Settings..."@,
                icon: "preferences-system"@,
                enabled: true,
                command: TrayCommand::OpenSettings,
            },
        ).push(
            ShownItem::Action {
                label: "Quit edge-kvm"@,
                icon: "application-exit"@,
                enabled: true,
                command: TrayCommand::Quit,
            },
        )
    }

    /// The whole menu.
    pub fn menu(&self) -> (items: Vec<TrayItem>)
        ensures
            shown(items@) == self.menu_shown(),
    {
        let mut out: Vec<TrayItem> = Vec::new();
        assert(shown(out@) == Seq::<ShownItem>::empty());
        self.put_lines(&mut out);
        put(&mut out, self.pairing_item());
        put(&mut out, self.connection_item());
        put(&mut out, self.controller_items());
        put(
            &mut out,
            TrayItem::Check {
                label: "Forward mouse and keyboard".to_owned(),
                icon: "input-mouse",
                enabled: self.state == TrayState::Connected,
                checked: self.input_forwarding_enabled,
                command: TrayCommand::ToggleInputForwarding,
            },
        );
        put(&mut out, TrayItem::Separator);
        put(&mut out, TrayItem::Text("Audio routing".to_owned()));
        put(&mut out, self.audio_items());
        put(
            &mut out,
            TrayItem::Action {
                label: "Settings...".to_owned(),
                icon: "preferences-system",
                enabled: true,
                command: TrayCommand::OpenSettings,
            },
        );
        put(
            &mut out,
            TrayItem::Action {
                label: "Quit edge-kvm".to_owned(),
                icon: "application-exit",
                enabled: true,
                command: TrayCommand::Quit,
            },
        );
        out
    }
}

/// What a choice among the routes of the audio asks for.
pub open spec fn audio_command(selected: usize) -> TrayCommand {
    TrayCommand::SetAudio(
        if selected == 0 {
            AudioChoice::Off
        } else if selected == 1 {
            AudioChoice::Local
        } else {
            AudioChoice::Peer
        },
    )
}

/// What a choice between the controllers asks for.
pub open spec fn controller_command(selected: usize) -> TrayCommand {
    TrayCommand::SetController(
        if selected == 0 {
            ControllerChoice::Local
        } else {
            ControllerChoice::Peer
        },
    )
}

/// What choosing an entry of the audio choices asks for.
pub fn audio_selected(selected: usize) -> (command: TrayCommand)
    ensures
        command == audio_command(selected),
{
    let choice = match selected {
        0 => AudioChoice::Off,
        1 => AudioChoice::Local,
        _ => AudioChoice::Peer,
    };
    TrayCommand::SetAudio(choice)
}

/// What choosing an entry of the controller choices asks for.
pub fn controller_selected(selected: usize) -> (command: TrayCommand)
    ensures
        command == controller_command(selected),
{
    if selected == 0 {
        TrayCommand::SetController(ControllerChoice::Local)
    } else {
        TrayCommand::SetController(ControllerChoice::Peer)
    }
}

/// The kind of an entry.
pub open spec fn kind_of(item: ShownItem) -> int {
    match item {
        ShownItem::Text(_) => 0,
        ShownItem::Action { .. } => 0,
        ShownItem::Separator => 1,
        ShownItem::Check { .. } => 2,
        ShownItem::AudioChoices { .. } => 3,
        ShownItem::ControllerChoices { .. } => 3,
    }
}

/// The menu keeps its shape, whatever the tray knows: entries come and go
/// nowhere, so that a menu that is open stays under the pointer.
pub proof fn law_menu_keeps_its_shape(a: ReceiverTray, b: ReceiverTray, i: int)
    requires
        0 <= i < a.menu_shown().len(),
    ensures
        a.menu_shown().len() == b.menu_shown().len(),
        kind_of(a.menu_shown()[i]) == kind_of(b.menu_shown()[i]),
{
}

/// Pairing can be armed from the menu only where it is not armed already and
/// no peer is there.
pub proof fn law_pairing_is_offered_when_it_can_start(tray: ReceiverTray)
    ensures
        tray.menu_shown()[10] matches ShownItem::Action { enabled, command, .. } && command
            == TrayCommand::ArmPairing && enabled == (!tray.pairing_armed && tray.state
            != TrayState::Connected),
{
}

/// Counts input for the tray, which is told now and then.
#[derive(Clone, Copy, Debug, PartialEq, Eq, Structural)]
pub struct InputCounter {
    pub total: u64,
    /// When the tray was last told; none where that is due.
    pub last_update: Option<Instant>,
}

impl InputCounter {
    /// Nothing yet.
    pub fn new() -> (counter: Self)
        ensures
            counter == (InputCounter { total: 0, last_update: None }),
    {
        InputCounter { total: 0, last_update: None }
    }

    /// Whether the tray is to be told.
    pub open spec fn is_due(self, now: Instant) -> bool {
        self.last_update matches Some(last) ==> now.since(last) >= millis(
            COUNTER_UPDATE_MILLIS as int,
        )
    }

    /// One more input: the count behind it, and what the tray is told.
    pub open spec fn after_event(self, now: Instant) -> (Self, Option<u64>) {
        let total = bumped(self.total);
        if self.is_due(now) {
            (InputCounter { total, last_update: Some(now) }, Some(total))
        } else {
            (InputCounter { total, ..self }, None)
        }
    }

    /// Counts one, and gives the number to tell where that is due.
    pub fn record(&mut self, now: Instant) -> (tell: Option<u64>)
        ensures
            (*final(self), tell) == old(self).after_event(now),
    {
        self.total = bump(self.total);
        let due = match self.last_update {
            Some(last) => now.is_millis_after(last, COUNTER_UPDATE_MILLIS),
            None => true,
        };
        if due {
            self.last_update = Some(now);
            Some(self.total)
        } else {
            None
        }
    }
}

/// What the menu shows as chosen is what choosing it again asks for: the route
/// of the audio, and the computer that controls.
pub proof fn law_shown_choice_is_the_chosen(tray: ReceiverTray)
    ensures
        tray.audio_choices() matches ShownItem::AudioChoices { selected, options } && options.len()
            == 3 && selected < 3 && audio_command(selected) == TrayCommand::SetAudio(
            tray.audio_choice,
        ),
        tray.controller_choices() matches ShownItem::ControllerChoices { selected, options }
            && options.len() == 2 && selected < 2 && controller_command(selected)
            == TrayCommand::SetController(
            if tray.local_is_controller {
                ControllerChoice::Local
            } else {
                ControllerChoice::Peer
            },
        ),
{
}

/// What can be chosen: audio can always be turned off, and comes from either
/// side while connected, where that is available; the controller can be changed
/// while connected, where it may be and no change is under way.
pub proof fn law_choices_are_offered_where_they_can_be_met(tray: ReceiverTray)
    ensures
        tray.audio_choices() matches ShownItem::AudioChoices { options, .. } && options[0].1
            && options[1].1 == (tray.state == TrayState::Connected && tray.local_audio_available)
            && options[2].1 == (tray.state == TrayState::Connected && tray.peer_audio_available),
        tray.controller_choices() matches ShownItem::ControllerChoices { options, .. } && (forall|
            i: int,
        |
            0 <= i < 2 ==> (#[trigger] options[i]).1 == (tray.state == TrayState::Connected
                && tray.role_switch_available && !tray.role_switching)),
{
}

/// The menu always lets the user quit, open the settings, and end or take up the
/// connection: to take it up where it was ended, and to end it else. Forwarding
/// is shown as it is.
pub proof fn law_menu_always_lets_the_user_out(tray: ReceiverTray)
    ensures
        ({
            let menu = tray.menu_shown();
            let n = menu.len();
            &&& menu[n - 1] matches ShownItem::Action { enabled, command, .. } && enabled && command
                == TrayCommand::Quit
            &&& menu[n - 2] matches ShownItem::Action { enabled, command, .. } && enabled && command
                == TrayCommand::OpenSettings
            &&& menu[11] matches ShownItem::Action { enabled, command, .. } && enabled && command
                == (if tray.state == TrayState::Paused {
                TrayCommand::Reconnect
            } else {
                TrayCommand::Disconnect
            })
            &&& menu[13] matches ShownItem::Check { enabled, checked, command, .. } && checked
                == tray.input_forwarding_enabled && enabled == (tray.state == TrayState::Connected)
                && command == TrayCommand::ToggleInputForwarding
        }),
{
}

/// The tray looks as it stands: connected in its colour, an error in need of
/// attention, and a connection that the user ended at rest.
pub proof fn law_tray_looks_as_it_stands(tray: ReceiverTray)
    ensures
        tray.color_shown() == IconColor::Connected <==> tray.state == TrayState::Connected,
        tray.color_shown() == IconColor::Disconnected <==> tray.state == TrayState::Paused
            || tray.state == TrayState::Error,
        tray.status_shown() == TrayStatus::NeedsAttention <==> tray.state == TrayState::Error,
        tray.status_shown() == TrayStatus::Passive <==> tray.state == TrayState::Paused,
{
}

/// What happened is what the tray shows: a connection by its peer, counted and
/// without an old error; the end of one without a peer, as an error where there
/// was one and as waiting else; and one that the user ended as such.
pub proof fn law_tray_shows_the_connection(
    tray: ReceiverTray,
    peer: String,
    error: String,
    events: u64,
)
    ensures
        ({
            let after = tray.as_connected(peer, events);
            &&& after.state == TrayState::Connected
            &&& after.connected_peer == Some(peer)
            &&& tray.connections < u64::MAX ==> after.connections == tray.connections + 1
            &&& after.input_events == events
            &&& after.last_error is None
            &&& after.input_forwarding_enabled == tray.input_forwarding_enabled
        }),
        ({
            let after = tray.as_disconnected(Some(error), events);
            &&& after.state == TrayState::Error
            &&& after.connected_peer is None
            &&& after.last_error == Some(error)
            &&& after.connections == tray.connections
        }),
        ({
            let after = tray.as_disconnected(None, events);
            &&& after.state == TrayState::Listening
            &&& after.connected_peer is None
            &&& after.last_error is None
        }),
        ({
            let after = tray.as_disconnected_by_user(events);
            &&& after.state == TrayState::Paused
            &&& after.connected_peer is None
            &&& after.last_error is None
        }),
        tray.as_listening().state == TrayState::Listening,
        tray.as_listening().last_error is None && tray.as_listening().connected_peer is None,
        tray.as_connecting().state == TrayState::Starting,
        tray.as_connecting().last_error is None && tray.as_connecting().connected_peer is None,
        tray.as_error(error).state == TrayState::Error,
        tray.as_error(error).last_error == Some(error),
        tray.as_error(error).connected_peer is None,
        tray.clipboard_events < u64::MAX ==> tray.as_clipboard_event(events).clipboard_events
            == tray.clipboard_events + 1,
        tray.as_clipboard_event(events).input_events == events,
{
}

/// A pause and its end, and a change of roles and its failure, are shown; each
/// ends what was shown of a change under way, and keeps the peer.
pub proof fn law_tray_shows_the_session(
    tray: ReceiverTray,
    paused: bool,
    local: String,
    peer: String,
    controls: bool,
    available: bool,
    error: String,
)
    ensures
        ({
            let after = tray.as_session_paused(paused);
            &&& after.state == TrayState::Paused <==> paused
            &&& after.state == TrayState::Connected <==> !paused
            &&& !after.role_switching
            &&& after.connected_peer == tray.connected_peer
        }),
        ({
            let after = tray.as_role_assignment(local, peer, controls, available);
            &&& after.local_device_name == Some(local)
            &&& after.peer_device_name == Some(peer)
            &&& after.local_is_controller == controls
            &&& after.role_switch_available == available
            &&& !after.role_switching
            &&& after.last_error is None
            &&& after.state == tray.state
        }),
        ({
            let after = tray.as_role_failure(error);
            &&& after.last_error == Some(error)
            &&& !after.role_switching
            &&& after.state == tray.state
            &&& after.local_is_controller == tray.local_is_controller
        }),
{
}

/// Every input is counted; the tray is told the count at the first one and then
/// every five seconds at most.
pub proof fn law_inputs_are_counted(counter: InputCounter, now: Instant)
    requires
        counter.total < u64::MAX,
        counter.last_update matches Some(last) ==> last.nanos <= now.nanos,
    ensures
        ({
            let (after, tell) = counter.after_event(now);
            let due = counter.last_update is None || now.nanos
                - counter.last_update->Some_0.nanos >= 5_000_000_000;
            &&& after.total == counter.total + 1
            &&& due ==> tell == Some(after.total) && after.last_update == Some(now)
            &&& !due ==> tell is None && after.last_update == counter.last_update
        }),
{
}

} // verus!
