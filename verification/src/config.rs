//! What a device is configured to be, and how configurations of the first
//! version are taken over.

use crate::protocol::Role;
use crate::text::{decimal, push_decimal};
use vstd::prelude::*;

verus! {

/// Where the listening device stands beside the other one.
#[derive(Clone, Copy, Debug, PartialEq, Eq, Structural)]
pub enum PeerPosition {
    Left,
    Right,
    Top,
    Bottom,
}

/// Which side opens the connection.
#[derive(Clone, Copy, Debug, PartialEq, Eq, Structural)]
pub enum TransportMode {
    Connect,
    Listen,
}

/// What becomes of the sound on the device that it comes from.
#[derive(Clone, Copy, Debug, PartialEq, Eq, Structural)]
pub enum AudioLocalPlayback {
    Redirect,
    Mirror,
}

/// How games are treated.
#[derive(Clone, Copy, Debug, PartialEq, Eq, Structural)]
pub enum GameCompatibilityMode {
    Compatible,
    Borderless,
    AlwaysEnabled,
}

impl Default for GameCompatibilityMode {
    fn default() -> (mode: Self)
        ensures
            mode == GameCompatibilityMode::AlwaysEnabled,
    {
        GameCompatibilityMode::AlwaysEnabled
    }
}

/// The sound.
#[derive(Clone, Copy, Debug, PartialEq, Eq, Structural)]
pub struct AudioConfig {
    pub enabled: bool,
    pub local_playback: AudioLocalPlayback,
    pub jitter_target_ms: u32,
}

/// The sound of a device that says nothing else of it.
pub open spec fn plain_audio(enabled: bool) -> AudioConfig {
    AudioConfig { enabled, local_playback: AudioLocalPlayback::Redirect, jitter_target_ms: 60 }
}

impl Default for AudioConfig {
    fn default() -> (audio: Self)
        ensures
            audio == plain_audio(false),
    {
        AudioConfig {
            enabled: false,
            local_playback: AudioLocalPlayback::Redirect,
            jitter_target_ms: 60,
        }
    }
}

/// The port of a device that names none.
pub const DEFAULT_PORT: u16 = 42_420;

/// The other device.
#[derive(Clone, Debug)]
pub struct PeerConfig {
    pub name: String,
    pub host: String,
    pub port: u16,
    pub pinned_fingerprint: String,
}

impl Default for PeerConfig {
    fn default() -> (peer: Self)
        ensures
            peer.name@ == "Peer"@,
            peer.host@ == ""@,
            peer.port == DEFAULT_PORT,
            peer.pinned_fingerprint@ == ""@,
    {
        PeerConfig {
            name: "Peer".to_owned(),
            host: "".to_owned(),
            port: DEFAULT_PORT,
            pinned_fingerprint: "".to_owned(),
        }
    }
}

/// How the screens stand.
#[derive(Clone, Copy, Debug, PartialEq, Eq, Structural)]
pub struct LayoutConfig {
    pub listener_position: PeerPosition,
}

impl Default for LayoutConfig {
    fn default() -> (layout: Self)
        ensures
            layout.listener_position == PeerPosition::Left,
    {
        LayoutConfig { listener_position: PeerPosition::Left }
    }
}

/// How input is captured.
#[derive(Clone, Debug)]
pub struct InputCaptureConfig {
    pub backend: String,
    pub output: String,
    pub release_hotkey: String,
    pub game_compatibility: GameCompatibilityMode,
}

impl Default for InputCaptureConfig {
    fn default() -> (capture: Self)
        ensures
            capture.backend@ == "auto"@,
            capture.output@ == ""@,
            capture.release_hotkey@ == "Ctrl+Alt+Pause"@,
            capture.game_compatibility == GameCompatibilityMode::AlwaysEnabled,
    {
        InputCaptureConfig {
            backend: "auto".to_owned(),
            output: "".to_owned(),
            release_hotkey: "Ctrl+Alt+Pause".to_owned(),
            game_compatibility: GameCompatibilityMode::default(),
        }
    }
}

/// How input is put in.
#[derive(Clone, Debug)]
pub struct InputInjectConfig {
    pub backend: String,
    pub output: String,
}

impl Default for InputInjectConfig {
    fn default() -> (inject: Self)
        ensures
            inject.backend@ == "auto"@,
            inject.output@ == ""@,
    {
        InputInjectConfig { backend: "auto".to_owned(), output: "".to_owned() }
    }
}

/// The input.
#[derive(Clone, Debug)]
pub struct InputConfig {
    pub capture: InputCaptureConfig,
    pub inject: InputInjectConfig,
}

impl Default for InputConfig {
    fn default() -> (input: Self)
        ensures
            input.capture.backend@ == "auto"@,
            input.capture.output@ == ""@,
            input.capture.release_hotkey@ == "Ctrl+Alt+Pause"@,
            input.capture.game_compatibility == GameCompatibilityMode::AlwaysEnabled,
            input.inject.backend@ == "auto"@,
            input.inject.output@ == ""@,
    {
        InputConfig {
            capture: InputCaptureConfig::default(),
            inject: InputInjectConfig::default(),
        }
    }
}

/// The clipboard.
#[derive(Clone, Copy, Debug, PartialEq, Eq, Structural)]
pub struct ClipboardConfig {
    pub enabled: bool,
    pub images_enabled: bool,
    pub max_bytes: usize,
    pub max_image_bytes: usize,
}

/// The most bytes of an encoded image where nothing else is said.
pub const DEFAULT_MAX_IMAGE_BYTES: usize = 4_194_304;

/// The most bytes of a text where nothing else is said.
pub const DEFAULT_MAX_TEXT_BYTES: usize = 1_048_576;

/// The clipboard of a device that says nothing else of it.
pub open spec fn plain_clipboard() -> ClipboardConfig {
    ClipboardConfig {
        enabled: true,
        images_enabled: true,
        max_bytes: DEFAULT_MAX_TEXT_BYTES,
        max_image_bytes: DEFAULT_MAX_IMAGE_BYTES,
    }
}

impl Default for ClipboardConfig {
    fn default() -> (clipboard: Self)
        ensures
            clipboard == plain_clipboard(),
    {
        ClipboardConfig {
            enabled: true,
            images_enabled: true,
            max_bytes: DEFAULT_MAX_TEXT_BYTES,
            max_image_bytes: DEFAULT_MAX_IMAGE_BYTES,
        }
    }
}

/// What a device is configured to be.
#[derive(Clone, Debug)]
pub struct AppConfig {
    pub device_name: String,
    pub start_with_windows: bool,
    pub preferred_role: Role,
    pub transport: TransportMode,
    pub listen: Option<String>,
    pub peer: PeerConfig,
    pub layout: LayoutConfig,
    pub input: InputConfig,
    pub clipboard: ClipboardConfig,
    pub audio: AudioConfig,
}

impl AppConfig {
    /// What a new device that controls is configured to be.
    pub fn controller_default() -> (config: Self)
        ensures
            config.device_name@ == "Main PC"@,
            !config.start_with_windows,
            config.preferred_role == Role::Controller,
            config.transport == TransportMode::Connect,
            config.listen is None,
            config.peer.name@ == "Linux PC"@,
            config.peer.host@ == "192.168.0.11"@,
            config.peer.port == DEFAULT_PORT,
            config.peer.pinned_fingerprint@ == ""@,
            config.layout.listener_position == PeerPosition::Left,
            config.input.capture.backend@ == "auto"@,
            config.input.capture.output@ == ""@,
            config.input.capture.release_hotkey@ == "Ctrl+Alt+Pause"@,
            config.input.capture.game_compatibility == GameCompatibilityMode::AlwaysEnabled,
            config.input.inject.backend@ == "auto"@,
            config.input.inject.output@ == ""@,
            config.clipboard == plain_clipboard(),
            config.audio == plain_audio(true),
    {
        AppConfig {
            device_name: "Main PC".to_owned(),
            start_with_windows: false,
            preferred_role: Role::Controller,
            transport: TransportMode::Connect,
            listen: None,
            peer: PeerConfig {
                name: "Linux PC".to_owned(),
                host: "192.168.0.11".to_owned(),
                port: DEFAULT_PORT,
                pinned_fingerprint: "".to_owned(),
            },
            layout: LayoutConfig::default(),
            input: InputConfig::default(),
            clipboard: ClipboardConfig::default(),
            audio: AudioConfig { enabled: true, ..AudioConfig::default() },
        }
    }

    /// What a new device that is controlled is configured to be.
    pub fn receiver_default() -> (config: Self)
        ensures
            config.device_name@ == "Lua"@,
            !config.start_with_windows,
            config.preferred_role == Role::Receiver,
            config.transport == TransportMode::Listen,
            config.listen matches Some(listen) && listen@ == "0.0.0.0:42420"@,
            config.peer.name@ == "Peer"@,
            config.peer.host@ == ""@,
            config.peer.port == DEFAULT_PORT,
            config.peer.pinned_fingerprint@ == ""@,
            config.layout.listener_position == PeerPosition::Left,
            config.input.capture.backend@ == "auto"@,
            config.input.capture.output@ == ""@,
            config.input.capture.release_hotkey@ == "Ctrl+Alt+Pause"@,
            config.input.capture.game_compatibility == GameCompatibilityMode::AlwaysEnabled,
            config.input.inject.backend@ == "auto"@,
            config.input.inject.output@ == "eDP-1"@,
            config.clipboard == plain_clipboard(),
            config.audio == plain_audio(false),
    {
        AppConfig {
            device_name: "Lua".to_owned(),
            start_with_windows: false,
            preferred_role: Role::Receiver,
            transport: TransportMode::Listen,
            listen: Some("0.0.0.0:42420".to_owned()),
            peer: PeerConfig::default(),
            layout: LayoutConfig::default(),
            input: InputConfig {
                capture: InputCaptureConfig::default(),
                inject: InputInjectConfig {
                    backend: "auto".to_owned(),
                    output: "eDP-1".to_owned(),
                },
            },
            clipboard: ClipboardConfig::default(),
            audio: AudioConfig::default(),
        }
    }
}

/// A configuration as it is written in a file, of either version: what the
/// file does not say is left open.
#[derive(Clone, Debug)]
pub struct ConfigFile {
    pub device_name: String,
    pub start_with_windows: bool,
    pub preferred_role: Option<Role>,
    pub transport: Option<TransportMode>,
    pub role: Option<Role>,
    pub release_hotkey: Option<String>,
    pub listen: Option<String>,
    pub monitor: Option<String>,
    pub peer: ConfigPeer,
    pub layout: Option<LayoutConfig>,
    pub input: ConfigInput,
    pub clipboard: ClipboardConfig,
    pub audio: Option<AudioConfig>,
}

/// The other device, as far as a file says.
#[derive(Clone, Debug)]
pub struct ConfigPeer {
    pub name: Option<String>,
    pub host: Option<String>,
    pub port: Option<u16>,
    pub pinned_fingerprint: Option<String>,
    pub laptop: Option<LegacyPeerConfig>,
}

/// The other device, as the first version wrote it.
#[derive(Clone, Debug)]
pub struct LegacyPeerConfig {
    pub host: String,
    pub port: u16,
    pub position: PeerPosition,
    pub pinned_fingerprint: String,
}

/// The input, as far as a file says.
#[derive(Clone, Debug)]
pub struct ConfigInput {
    pub backend: Option<String>,
    pub game_compatibility: Option<GameCompatibilityMode>,
    pub capture: Option<ConfigInputCapture>,
    pub inject: Option<ConfigInputInject>,
}

/// How input is captured, as far as a file says.
#[derive(Clone, Debug)]
pub struct ConfigInputCapture {
    pub backend: Option<String>,
    pub output: Option<String>,
    pub release_hotkey: Option<String>,
    pub game_compatibility: Option<GameCompatibilityMode>,
}

/// How input is put in, as far as a file says.
#[derive(Clone, Debug)]
pub struct ConfigInputInject {
    pub backend: Option<String>,
    pub output: Option<String>,
}

/// A text, or another one where there is none.
pub open spec fn text_or(text: Option<String>, other: Seq<char>) -> Seq<char> {
    match text {
        Some(text) => text@,
        None => other,
    }
}

fn take_text(text: Option<String>, other: &str) -> (out: String)
    ensures
        out@ == text_or(text, other@),
{
    match text {
        Some(text) => text,
        None => other.to_owned(),
    }
}

impl ConfigFile {
    /// The role: as it stands; else as the first version wrote it; else as the
    /// transport has it; else to be controlled.
    pub open spec fn chosen_role(self) -> Role {
        match (self.preferred_role, self.role, self.transport) {
            (Some(role), _, _) => role,
            (None, Some(role), _) => role,
            (None, None, Some(TransportMode::Connect)) => Role::Controller,
            (None, None, _) => Role::Receiver,
        }
    }

    /// The transport: as it stands; else a device that the first version had
    /// control connects, and any other listens.
    pub open spec fn chosen_transport(self) -> TransportMode {
        match (self.transport, self.role) {
            (Some(transport), _) => transport,
            (None, Some(Role::Controller)) => TransportMode::Connect,
            (None, _) => TransportMode::Listen,
        }
    }

    /// Where the listening device stands: as it stands; else as the first
    /// version wrote it; else to the left.
    pub open spec fn chosen_position(self) -> PeerPosition {
        match (self.layout, self.peer.laptop) {
            (Some(layout), _) => layout.listener_position,
            (None, Some(laptop)) => laptop.position,
            (None, None) => PeerPosition::Left,
        }
    }

    /// The sound: as it stands; else on where the first version had the device
    /// control.
    pub open spec fn chosen_audio(self) -> AudioConfig {
        match self.audio {
            Some(audio) => audio,
            None => plain_audio(self.role == Some(Role::Controller)),
        }
    }

    /// The other device is configured as the file says, first by what it says
    /// now, then by what the first version wrote.
    pub open spec fn peer_is(self, peer: PeerConfig) -> bool {
        &&& peer.name@ == text_or(self.peer.name, "Peer"@)
        &&& match self.peer.laptop {
            Some(laptop) => {
                &&& peer.host@ == text_or(self.peer.host, laptop.host@)
                &&& peer.port == self.peer.port.unwrap_or(laptop.port)
                &&& peer.pinned_fingerprint@ == text_or(
                    self.peer.pinned_fingerprint,
                    laptop.pinned_fingerprint@,
                )
            },
            None => {
                &&& peer.host@ == text_or(self.peer.host, ""@)
                &&& peer.port == self.peer.port.unwrap_or(DEFAULT_PORT)
                &&& peer.pinned_fingerprint@ == text_or(self.peer.pinned_fingerprint, ""@)
            },
        }
    }

    /// The capture of input is configured as the file says.
    pub open spec fn capture_is(self, capture: InputCaptureConfig) -> bool {
        let backend = text_or(self.input.backend, "auto"@);
        let hotkey = text_or(self.release_hotkey, "Ctrl+Alt+Pause"@);
        let games = self.input.game_compatibility.unwrap_or(
            GameCompatibilityMode::AlwaysEnabled,
        );
        match self.input.capture {
            Some(said) => {
                &&& capture.backend@ == text_or(said.backend, backend)
                &&& capture.output@ == text_or(said.output, ""@)
                &&& capture.release_hotkey@ == text_or(said.release_hotkey, hotkey)
                &&& capture.game_compatibility == said.game_compatibility.unwrap_or(games)
            },
            None => {
                &&& capture.backend@ == backend
                &&& capture.output@ == ""@
                &&& capture.release_hotkey@ == hotkey
                &&& capture.game_compatibility == games
            },
        }
    }

    /// The input that is put in is configured as the file says.
    pub open spec fn inject_is(self, inject: InputInjectConfig) -> bool {
        let backend = text_or(self.input.backend, "auto"@);
        let output = text_or(self.monitor, ""@);
        match self.input.inject {
            Some(said) => {
                &&& inject.backend@ == text_or(said.backend, backend)
                &&& inject.output@ == text_or(said.output, output)
            },
            None => {
                &&& inject.backend@ == backend
                &&& inject.output@ == output
            },
        }
    }

    /// A configuration is the one that the file says.
    pub open spec fn says(self, config: AppConfig) -> bool {
        &&& config.device_name == self.device_name
        &&& config.start_with_windows == self.start_with_windows
        &&& config.preferred_role == self.chosen_role()
        &&& config.transport == self.chosen_transport()
        &&& config.listen == self.listen
        &&& self.peer_is(config.peer)
        &&& config.layout.listener_position == self.chosen_position()
        &&& self.capture_is(config.input.capture)
        &&& self.inject_is(config.input.inject)
        &&& config.clipboard == self.clipboard
        &&& config.audio == self.chosen_audio()
    }

    /// The configuration that the file says.
    pub fn into_app_config(self) -> (config: AppConfig)
        ensures
            self.says(config),
    {
        let preferred_role: Role = match (self.preferred_role, self.role, self.transport) {
            (Some(role), _, _) => role,
            (None, Some(role), _) => role,
            (None, None, Some(TransportMode::Connect)) => Role::Controller,
            (None, None, _) => Role::Receiver,
        };
        let transport: TransportMode = match (self.transport, self.role) {
            (Some(transport), _) => transport,
            (None, Some(Role::Controller)) => TransportMode::Connect,
            (None, _) => TransportMode::Listen,
        };
        let was_controller: bool = match self.role {
            Some(Role::Controller) => true,
            _ => false,
        };
        let audio: AudioConfig = match self.audio {
            Some(audio) => audio,
            None => AudioConfig { enabled: was_controller, ..AudioConfig::default() },
        };
        let mut position: PeerPosition = PeerPosition::Left;
        let mut host: String = "".to_owned();
        let mut port: u16 = DEFAULT_PORT;
        let mut pinned: String = "".to_owned();
        if let Some(laptop) = self.peer.laptop {
            position = laptop.position;
            host = laptop.host;
            port = laptop.port;
            pinned = laptop.pinned_fingerprint;
        }
        if let Some(layout) = self.layout {
            position = layout.listener_position;
        }
        let peer = PeerConfig {
            name: take_text(self.peer.name, "Peer"),
            host: take_text(self.peer.host, host.as_str()),
            port: self.peer.port.unwrap_or(port),
            pinned_fingerprint: take_text(self.peer.pinned_fingerprint, pinned.as_str()),
        };
        let backend: String = take_text(self.input.backend, "auto");
        let hotkey: String = take_text(self.release_hotkey, "Ctrl+Alt+Pause");
        let output: String = take_text(self.monitor, "");
        let games: GameCompatibilityMode = self.input.game_compatibility.unwrap_or(
            GameCompatibilityMode::AlwaysEnabled,
        );
        let capture: InputCaptureConfig = match self.input.capture {
            Some(said) => InputCaptureConfig {
                backend: take_text(said.backend, backend.as_str()),
                output: take_text(said.output, ""),
                release_hotkey: take_text(said.release_hotkey, hotkey.as_str()),
                game_compatibility: said.game_compatibility.unwrap_or(games),
            },
            None => InputCaptureConfig {
                backend: backend.clone(),
                output: "".to_owned(),
                release_hotkey: hotkey,
                game_compatibility: games,
            },
        };
        let inject: InputInjectConfig = match self.input.inject {
            Some(said) => InputInjectConfig {
                backend: take_text(said.backend, backend.as_str()),
                output: take_text(said.output, output.as_str()),
            },
            None => InputInjectConfig { backend, output },
        };
        AppConfig {
            device_name: self.device_name,
            start_with_windows: self.start_with_windows,
            preferred_role,
            transport,
            listen: self.listen,
            peer,
            layout: LayoutConfig { listener_position: position },
            input: InputConfig { capture, inject },
            clipboard: self.clipboard,
            audio,
        }
    }
}

/// A file of the first version keeps its meaning: the role that it names also
/// decides the transport and the sound, and its only device is the other one.
pub proof fn law_first_version_keeps_its_meaning(
    file: ConfigFile,
    config: AppConfig,
    role: Role,
    laptop: LegacyPeerConfig,
)
    requires
        file.says(config),
        file.role == Some(role),
        file.preferred_role is None,
        file.transport is None,
        file.layout is None,
        file.audio is None,
        file.peer.host is None,
        file.peer.port is None,
        file.peer.pinned_fingerprint is None,
        file.peer.laptop == Some(laptop),
    ensures
        config.preferred_role == role,
        config.transport is Connect <==> role is Controller,
        config.audio.enabled <==> role is Controller,
        config.peer.host@ == laptop.host@,
        config.peer.port == laptop.port,
        config.peer.pinned_fingerprint@ == laptop.pinned_fingerprint@,
        config.layout.listener_position == laptop.position,
{
}

/// Whether `toml::from_str` reads a text as a table, and if so, whether
/// `Table::contains_key` finds a key at its top.
pub uninterp spec fn toml_root_has(text: Seq<char>, key: Seq<char>) -> Option<bool>;

/// Whether `Table::contains_key` finds a key in the table that `Table::get` and
/// `Value::as_table` find under another one, in what `toml::from_str` makes of a
/// text; `None` where the text is no TOML or has no such table.
pub uninterp spec fn toml_section_has(
    text: Seq<char>,
    section: Seq<char>,
    key: Seq<char>,
) -> Option<bool>;

/// `toml::from_str` and `Table::contains_key`: depends on the text and the key
/// alone. `None` where the text is no TOML.
#[verifier::external_body]
fn root_has(text: &str, key: &str) -> (found: Option<bool>)
    ensures
        found == toml_root_has(text@, key@),
{
    toml::from_str::<toml::Table>(text).ok().map(|root| root.contains_key(key))
}

/// `toml::from_str`, `Table::get`, `Value::as_table` and
/// `Table::contains_key`: depends on the text and the keys alone. `None` where
/// the text is no TOML or has no such table.
#[verifier::external_body]
fn section_has(text: &str, section: &str, key: &str) -> (found: Option<bool>)
    ensures
        found == toml_section_has(text@, section@, key@),
{
    let root = toml::from_str::<toml::Table>(text).ok()?;
    root.get(section)?.as_table().map(|table| table.contains_key(key))
}

/// Which keys of a file decide whether it is of the first version.
#[derive(Clone, Copy, Debug, PartialEq, Eq, Structural)]
pub struct VersionMarks {
    pub role: bool,
    pub release_hotkey: bool,
    pub monitor: bool,
    pub preferred_role: bool,
    pub transport: bool,
    pub peer_laptop: bool,
    pub input_backend: bool,
    pub input_game_compatibility: bool,
}

impl VersionMarks {
    /// The marks of a file of the first version: a key that only it had, or a
    /// key missing that only it lacked.
    pub open spec fn of_first_version(self) -> bool {
        ||| self.role
        ||| self.release_hotkey
        ||| self.monitor
        ||| !self.preferred_role
        ||| !self.transport
        ||| self.peer_laptop
        ||| self.input_backend
        ||| self.input_game_compatibility
    }

    /// Whether the marks are those of a file of the first version.
    pub fn need_migration(&self) -> (needed: bool)
        ensures
            needed == self.of_first_version(),
    {
        self.role || self.release_hotkey || self.monitor || !self.preferred_role || !self.transport
            || self.peer_laptop || self.input_backend || self.input_game_compatibility
    }
}

/// The marks of a file; none where it is no TOML.
pub open spec fn marks_of(text: Seq<char>) -> Option<VersionMarks> {
    match toml_root_has(text, "role"@) {
        None => None,
        Some(role) => Some(
            VersionMarks {
                role,
                release_hotkey: toml_root_has(text, "release_hotkey"@) == Some(true),
                monitor: toml_root_has(text, "monitor"@) == Some(true),
                preferred_role: toml_root_has(text, "preferred_role"@) == Some(true),
                transport: toml_root_has(text, "transport"@) == Some(true),
                peer_laptop: toml_section_has(text, "peer"@, "laptop"@) == Some(true),
                input_backend: toml_section_has(text, "input"@, "backend"@) == Some(true),
                input_game_compatibility: toml_section_has(
                    text,
                    "input"@,
                    "game_compatibility"@,
                ) == Some(true),
            },
        ),
    }
}

/// A file is of the first version and to be written anew. A file that is no
/// TOML is left alone.
pub open spec fn is_of_first_version(text: Seq<char>) -> bool {
    marks_of(text) matches Some(marks) && marks.of_first_version()
}

/// Whether a file is of the first version and to be written anew.
pub fn config_needs_v2_migration(text: &str) -> (needed: bool)
    ensures
        needed == is_of_first_version(text@),
{
    let role: bool = match root_has(text, "role") {
        Some(role) => role,
        None => {
            return false;
        },
    };
    let marks = VersionMarks {
        role,
        release_hotkey: root_has(text, "release_hotkey").unwrap_or(false),
        monitor: root_has(text, "monitor").unwrap_or(false),
        preferred_role: root_has(text, "preferred_role").unwrap_or(false),
        transport: root_has(text, "transport").unwrap_or(false),
        peer_laptop: section_has(text, "peer", "laptop").unwrap_or(false),
        input_backend: section_has(text, "input", "backend").unwrap_or(false),
        input_game_compatibility: section_has(text, "input", "game_compatibility").unwrap_or(false),
    };
    marks.need_migration()
}

/// Where a file of the first version is kept.
pub open spec fn backup_name(path: Seq<char>) -> Seq<char> {
    path + ".v1.bak"@
}

/// The path under which a file of the first version is kept.
pub fn backup_path(path: &str) -> (backup: String)
    ensures
        backup@ == backup_name(path@),
{
    let mut backup: String = path.to_owned();
    backup.append(".v1.bak");
    backup
}

/// The path under which a backup is written before it has its name.
pub fn temporary_path(backup: &str, process: u32, nonce: u64) -> (temporary: String)
    ensures
        temporary@ == backup@ + ".tmp-"@ + decimal(process as nat) + "-"@ + decimal(nonce as nat),
{
    let mut temporary: String = backup.to_owned();
    temporary.append(".tmp-");
    push_decimal(&mut temporary, process as u64);
    temporary.append("-");
    push_decimal(&mut temporary, nonce);
    temporary
}

/// What is to be done next to keep a file of the first version.
#[derive(Clone, Copy, Debug, PartialEq, Eq, Structural)]
pub enum BackupStep {
    /// See whether there is a backup already.
    FindBackup,
    /// Create the temporary file; fails if there is one.
    CreateTemporary,
    /// Write the contents to the temporary file.
    WriteTemporary,
    /// Have the temporary file written to disk.
    SyncTemporary,
    /// Give the temporary file the name of the backup.
    NameBackup,
    /// See whether another process has made the backup meanwhile.
    FindOther,
    /// Remove the temporary file and fail with the error of writing it.
    RemoveUnwritten,
    /// Remove the temporary file and fail with the error of naming it.
    RemoveUnnamed,
    /// Remove the temporary file; there is a backup.
    RemoveSurplus,
    /// There is a backup.
    Kept,
    /// It is not known whether there is a backup.
    FailedToFind,
    /// The temporary file could not be written.
    FailedToWrite,
    /// The temporary file could not be given its name.
    FailedToName,
}

/// How a step went. For a step that looks for a file, `Yes` is that it is
/// there and `No` that it is not; for any other, `Yes` is that it was done.
#[derive(Clone, Copy, Debug, PartialEq, Eq, Structural)]
pub enum StepOutcome {
    Yes,
    No,
    Failed,
}

impl BackupStep {
    /// What is to be done after a step.
    pub open spec fn after(self, outcome: StepOutcome) -> BackupStep {
        match (self, outcome) {
            (BackupStep::FindBackup, StepOutcome::Yes) => BackupStep::Kept,
            (BackupStep::FindBackup, StepOutcome::No) => BackupStep::CreateTemporary,
            (BackupStep::FindBackup, StepOutcome::Failed) => BackupStep::FailedToFind,
            (BackupStep::CreateTemporary, StepOutcome::Yes) => BackupStep::WriteTemporary,
            (BackupStep::CreateTemporary, _) => BackupStep::FailedToWrite,
            (BackupStep::WriteTemporary, StepOutcome::Yes) => BackupStep::SyncTemporary,
            (BackupStep::WriteTemporary, _) => BackupStep::RemoveUnwritten,
            (BackupStep::SyncTemporary, StepOutcome::Yes) => BackupStep::NameBackup,
            (BackupStep::SyncTemporary, _) => BackupStep::RemoveUnwritten,
            (BackupStep::NameBackup, StepOutcome::Yes) => BackupStep::Kept,
            (BackupStep::NameBackup, _) => BackupStep::FindOther,
            (BackupStep::FindOther, StepOutcome::Yes) => BackupStep::RemoveSurplus,
            (BackupStep::FindOther, _) => BackupStep::RemoveUnnamed,
            (BackupStep::RemoveUnwritten, _) => BackupStep::FailedToWrite,
            (BackupStep::RemoveUnnamed, _) => BackupStep::FailedToName,
            (BackupStep::RemoveSurplus, _) => BackupStep::Kept,
            (done, _) => done,
        }
    }

    /// Nothing more is to be done.
    pub open spec fn is_last(self) -> bool {
        ||| self is Kept
        ||| self is FailedToFind
        ||| self is FailedToWrite
        ||| self is FailedToName
    }

    /// The temporary file may be there.
    pub open spec fn leaves_temporary(self) -> bool {
        ||| self is WriteTemporary
        ||| self is SyncTemporary
        ||| self is NameBackup
        ||| self is FindOther
    }

    /// What is to be done next.
    pub fn next(self, outcome: StepOutcome) -> (step: BackupStep)
        ensures
            step == self.after(outcome),
    {
        match (self, outcome) {
            (BackupStep::FindBackup, StepOutcome::Yes) => BackupStep::Kept,
            (BackupStep::FindBackup, StepOutcome::No) => BackupStep::CreateTemporary,
            (BackupStep::FindBackup, StepOutcome::Failed) => BackupStep::FailedToFind,
            (BackupStep::CreateTemporary, StepOutcome::Yes) => BackupStep::WriteTemporary,
            (BackupStep::CreateTemporary, _) => BackupStep::FailedToWrite,
            (BackupStep::WriteTemporary, StepOutcome::Yes) => BackupStep::SyncTemporary,
            (BackupStep::WriteTemporary, _) => BackupStep::RemoveUnwritten,
            (BackupStep::SyncTemporary, StepOutcome::Yes) => BackupStep::NameBackup,
            (BackupStep::SyncTemporary, _) => BackupStep::RemoveUnwritten,
            (BackupStep::NameBackup, StepOutcome::Yes) => BackupStep::Kept,
            (BackupStep::NameBackup, _) => BackupStep::FindOther,
            (BackupStep::FindOther, StepOutcome::Yes) => BackupStep::RemoveSurplus,
            (BackupStep::FindOther, _) => BackupStep::RemoveUnnamed,
            (BackupStep::RemoveUnwritten, _) => BackupStep::FailedToWrite,
            (BackupStep::RemoveUnnamed, _) => BackupStep::FailedToName,
            (BackupStep::RemoveSurplus, _) => BackupStep::Kept,
            (done, _) => done,
        }
    }
}

/// The step that is reached after some outcomes.
pub open spec fn backup_after(outcomes: Seq<StepOutcome>) -> BackupStep
    decreases outcomes.len(),
{
    if outcomes.len() == 0 {
        BackupStep::FindBackup
    } else {
        backup_after(outcomes.drop_last()).after(outcomes.last())
    }
}

/// A file of the first version is kept once: where a backup is found, nothing
/// is written, however often one asks.
pub proof fn law_backup_is_kept(outcomes: Seq<StepOutcome>)
    requires
        outcomes.len() > 0,
        outcomes[0] == StepOutcome::Yes,
    ensures
        backup_after(outcomes) == BackupStep::Kept,
    decreases outcomes.len(),
{
    if outcomes.len() > 1 {
        law_backup_is_kept(outcomes.drop_last());
    } else {
        reveal_with_fuel(backup_after, 2);
    }
}

/// A temporary file does not stay: from where it may be there, either it
/// becomes the backup or it is removed before the end.
pub proof fn law_temporary_does_not_stay(step: BackupStep, outcome: StepOutcome)
    requires
        step.leaves_temporary(),
        step.after(outcome).is_last(),
    ensures
        step is NameBackup && outcome is Yes,
{
}

/// With nothing that goes wrong, a backup that is not there is made: the
/// temporary file is created, written, put to disk and given its name.
pub proof fn law_backup_is_made()
    ensures
        ({
            let made = seq![
                StepOutcome::No,
                StepOutcome::Yes,
                StepOutcome::Yes,
                StepOutcome::Yes,
                StepOutcome::Yes,
            ];
            &&& backup_after(made.take(1)) == BackupStep::CreateTemporary
            &&& backup_after(made.take(2)) == BackupStep::WriteTemporary
            &&& backup_after(made.take(3)) == BackupStep::SyncTemporary
            &&& backup_after(made.take(4)) == BackupStep::NameBackup
            &&& backup_after(made) == BackupStep::Kept
        }),
{
    let made = seq![
        StepOutcome::No,
        StepOutcome::Yes,
        StepOutcome::Yes,
        StepOutcome::Yes,
        StepOutcome::Yes,
    ];
    assert(made.take(1).drop_last() =~= Seq::<StepOutcome>::empty());
    assert(made.take(2).drop_last() =~= made.take(1));
    assert(made.take(3).drop_last() =~= made.take(2));
    assert(made.take(4).drop_last() =~= made.take(3));
    assert(made.drop_last() =~= made.take(4));
    reveal_with_fuel(backup_after, 2);
}

/// The keys at the top of a file that a configuration is written to.
pub open spec fn is_written_key(key: Seq<char>) -> bool {
    ||| key == "device_name"@
    ||| key == "start_with_windows"@
    ||| key == "preferred_role"@
    ||| key == "transport"@
    ||| key == "listen"@
    ||| key == "peer"@
    ||| key == "layout"@
    ||| key == "input"@
    ||| key == "clipboard"@
    ||| key == "audio"@
}

/// The keys of the other device in a file that a configuration is written to.
pub open spec fn is_written_peer_key(key: Seq<char>) -> bool {
    ||| key == "name"@
    ||| key == "host"@
    ||| key == "port"@
    ||| key == "pinned_fingerprint"@
}

/// The keys of the input in a file that a configuration is written to.
pub open spec fn is_written_input_key(key: Seq<char>) -> bool {
    key == "capture"@ || key == "inject"@
}

/// A file has the keys that a configuration is written with: no others, and all
/// of them but an address to listen at, which may be left open.
pub open spec fn has_written_keys(text: Seq<char>) -> bool {
    &&& forall|key: Seq<char>| #[trigger]
        toml_root_has(text, key) == Some(is_written_key(key)) || key == "listen"@
    &&& forall|key: Seq<char>| #[trigger]
        toml_section_has(text, "peer"@, key) == Some(is_written_peer_key(key))
    &&& forall|key: Seq<char>| #[trigger]
        toml_section_has(text, "input"@, key) == Some(is_written_input_key(key))
}

/// A file that a configuration was written to is not of the first version.
pub proof fn law_written_file_is_not_migrated(text: Seq<char>)
    requires
        has_written_keys(text),
    ensures
        !is_of_first_version(text),
        toml_root_has(text, "preferred_role"@) == Some(true),
        toml_root_has(text, "transport"@) == Some(true),
        toml_root_has(text, "role"@) == Some(false),
        toml_root_has(text, "release_hotkey"@) == Some(false),
        toml_root_has(text, "monitor"@) == Some(false),
        toml_section_has(text, "peer"@, "laptop"@) == Some(false),
{
    reveal_strlit("device_name");
    reveal_strlit("start_with_windows");
    reveal_strlit("preferred_role");
    reveal_strlit("transport");
    reveal_strlit("listen");
    reveal_strlit("peer");
    reveal_strlit("layout");
    reveal_strlit("input");
    reveal_strlit("clipboard");
    reveal_strlit("audio");
    reveal_strlit("name");
    reveal_strlit("host");
    reveal_strlit("port");
    reveal_strlit("pinned_fingerprint");
    reveal_strlit("capture");
    reveal_strlit("inject");
    reveal_strlit("role");
    reveal_strlit("release_hotkey");
    reveal_strlit("monitor");
    reveal_strlit("laptop");
    reveal_strlit("backend");
    reveal_strlit("game_compatibility");
    assert("role"@[0] == 'r');
    assert("peer"@[0] == 'p');
    assert("release_hotkey"@[0] == 'r');
    assert("preferred_role"@[0] == 'p');
    assert("monitor"@[0] == 'm');
    assert("laptop"@[0] == 'l');
    assert("listen"@[0] == 'l');
    assert("listen"@[1] == 'i');
    assert("layout"@[0] == 'l');
    assert("backend"@[0] == 'b');
    assert("capture"@[0] == 'c');
    assert("name"@[0] == 'n');
    assert(toml_root_has(text, "role"@) == Some(is_written_key("role"@)));
    assert(toml_root_has(text, "release_hotkey"@) == Some(is_written_key("release_hotkey"@)));
    assert(toml_root_has(text, "monitor"@) == Some(is_written_key("monitor"@)));
    assert(toml_root_has(text, "preferred_role"@) == Some(is_written_key("preferred_role"@)));
    assert(toml_root_has(text, "transport"@) == Some(is_written_key("transport"@)));
    assert(toml_section_has(text, "peer"@, "laptop"@) == Some(false));
    assert(toml_section_has(text, "input"@, "backend"@) == Some(false));
    assert("game_compatibility"@.len() == 18 && "capture"@.len() == 7 && "inject"@.len() == 6);
    assert(toml_section_has(text, "input"@, "game_compatibility"@) == Some(false));
}

/// A file says what a configuration is, and leaves nothing open but an address
/// to listen at.
pub open spec fn writes(file: ConfigFile, config: AppConfig) -> bool {
    &&& file.device_name == config.device_name
    &&& file.start_with_windows == config.start_with_windows
    &&& file.preferred_role == Some(config.preferred_role)
    &&& file.transport == Some(config.transport)
    &&& file.role is None
    &&& file.release_hotkey is None
    &&& file.listen == config.listen
    &&& file.monitor is None
    &&& file.peer == (ConfigPeer {
        name: Some(config.peer.name),
        host: Some(config.peer.host),
        port: Some(config.peer.port),
        pinned_fingerprint: Some(config.peer.pinned_fingerprint),
        laptop: None,
    })
    &&& file.layout == Some(config.layout)
    &&& file.input == (ConfigInput {
        backend: None,
        game_compatibility: None,
        capture: Some(
            ConfigInputCapture {
                backend: Some(config.input.capture.backend),
                output: Some(config.input.capture.output),
                release_hotkey: Some(config.input.capture.release_hotkey),
                game_compatibility: Some(config.input.capture.game_compatibility),
            },
        ),
        inject: Some(
            ConfigInputInject {
                backend: Some(config.input.inject.backend),
                output: Some(config.input.inject.output),
            },
        ),
    })
    &&& file.clipboard == config.clipboard
    &&& file.audio == Some(config.audio)
}

/// Two configurations say the same.
pub open spec fn is_same_config(one: AppConfig, other: AppConfig) -> bool {
    &&& one.device_name@ == other.device_name@
    &&& one.start_with_windows == other.start_with_windows
    &&& one.preferred_role == other.preferred_role
    &&& one.transport == other.transport
    &&& one.listen == other.listen
    &&& one.peer.name@ == other.peer.name@
    &&& one.peer.host@ == other.peer.host@
    &&& one.peer.port == other.peer.port
    &&& one.peer.pinned_fingerprint@ == other.peer.pinned_fingerprint@
    &&& one.layout.listener_position == other.layout.listener_position
    &&& one.input.capture.backend@ == other.input.capture.backend@
    &&& one.input.capture.output@ == other.input.capture.output@
    &&& one.input.capture.release_hotkey@ == other.input.capture.release_hotkey@
    &&& one.input.capture.game_compatibility == other.input.capture.game_compatibility
    &&& one.input.inject.backend@ == other.input.inject.backend@
    &&& one.input.inject.output@ == other.input.inject.output@
    &&& one.clipboard == other.clipboard
    &&& one.audio == other.audio
}

/// A configuration that was written is read back as it was.
pub proof fn law_written_config_is_read_back(
    config: AppConfig,
    file: ConfigFile,
    again: AppConfig,
)
    requires
        writes(file, config),
        file.says(again),
    ensures
        is_same_config(again, config),
{
}

/// What is to be done next when a configuration is loaded.
#[derive(Clone, Copy, Debug, PartialEq, Eq, Structural)]
pub enum LoadStep {
    /// Keep the file of the first version.
    Keep(BackupStep),
    /// Write the configuration anew.
    Rewrite,
    /// The configuration could not be written anew.
    NotRewritten,
    Done,
}

impl LoadStep {
    /// What is to be done first with a file: one of the first version is kept.
    pub open spec fn first(text: Seq<char>) -> LoadStep {
        if is_of_first_version(text) {
            LoadStep::Keep(BackupStep::FindBackup)
        } else {
            LoadStep::Done
        }
    }

    /// What is to be done first with a file.
    pub fn begin(text: &str) -> (step: LoadStep)
        ensures
            step == LoadStep::first(text@),
    {
        if config_needs_v2_migration(text) {
            LoadStep::Keep(BackupStep::FindBackup)
        } else {
            LoadStep::Done
        }
    }

    /// What is to be done after a step: a file that was kept is written anew.
    pub open spec fn after(self, outcome: StepOutcome) -> LoadStep {
        match self {
            LoadStep::Keep(step) => if step.after(outcome) is Kept {
                LoadStep::Rewrite
            } else {
                LoadStep::Keep(step.after(outcome))
            },
            LoadStep::Rewrite => if outcome is Yes {
                LoadStep::Done
            } else {
                LoadStep::NotRewritten
            },
            done => done,
        }
    }

    /// What is to be done next.
    pub fn next(self, outcome: StepOutcome) -> (step: LoadStep)
        ensures
            step == self.after(outcome),
    {
        match self {
            LoadStep::Keep(step) => match step.next(outcome) {
                BackupStep::Kept => LoadStep::Rewrite,
                next => LoadStep::Keep(next),
            },
            LoadStep::Rewrite => match outcome {
                StepOutcome::Yes => LoadStep::Done,
                _ => LoadStep::NotRewritten,
            },
            done => done,
        }
    }

    /// How many steps there are at most where nothing goes wrong.
    pub open spec fn steps_left(self) -> nat {
        match self {
            LoadStep::Keep(BackupStep::FindBackup) => 7,
            LoadStep::Keep(BackupStep::CreateTemporary) => 6,
            LoadStep::Keep(BackupStep::WriteTemporary) => 5,
            LoadStep::Keep(BackupStep::SyncTemporary) => 4,
            LoadStep::Keep(BackupStep::NameBackup) => 3,
            LoadStep::Rewrite => 1,
            _ => 0,
        }
    }
}

/// A configuration's file, the backup beside it, and what is to become one.
pub ghost struct ConfigFiles {
    pub text: Seq<char>,
    pub backup: Option<Seq<char>>,
    pub temporary: Option<Seq<char>>,
}

impl ConfigFiles {
    /// How a step goes where nothing goes wrong: a backup is found where there
    /// is one.
    pub open spec fn outcome(self, step: LoadStep) -> StepOutcome {
        if step == LoadStep::Keep(BackupStep::FindBackup) && self.backup is None {
            StepOutcome::No
        } else {
            StepOutcome::Yes
        }
    }

    /// The files once a step was done, of a configuration that was read as
    /// `read` and is written as `written`.
    pub open spec fn after(self, step: LoadStep, read: Seq<char>, written: Seq<char>) -> Self {
        match step {
            LoadStep::Keep(BackupStep::CreateTemporary) => ConfigFiles {
                temporary: Some(Seq::empty()),
                ..self
            },
            LoadStep::Keep(BackupStep::WriteTemporary) => ConfigFiles {
                temporary: Some(read),
                ..self
            },
            LoadStep::Keep(BackupStep::NameBackup) => ConfigFiles {
                backup: self.temporary,
                temporary: None,
                ..self
            },
            LoadStep::Rewrite => ConfigFiles { text: written, ..self },
            _ => self,
        }
    }

    /// The files once a step and all behind it were done, and the last step.
    pub open spec fn after_all(self, step: LoadStep, read: Seq<char>, written: Seq<char>) -> (
        Self,
        LoadStep,
    )
        decreases step.steps_left(),
    {
        let next = step.after(self.outcome(step));
        let files = self.after(step, read, written);
        if next.steps_left() < step.steps_left() {
            files.after_all(next, read, written)
        } else {
            (self, step)
        }
    }

    /// The files once the configuration was loaded, and the last step of that.
    pub open spec fn after_load(self, written: Seq<char>) -> (Self, LoadStep) {
        self.after_all(LoadStep::first(self.text), self.text, written)
    }
}

/// A file of the first version is taken over once: its exact text is kept, the
/// file is written anew, reads as the same configuration, and is left alone
/// whenever it is loaded again.
pub proof fn law_first_version_is_taken_over_once(
    files: ConfigFiles,
    config: AppConfig,
    written: Seq<char>,
    file: ConfigFile,
    again: AppConfig,
    rewritten: Seq<char>,
)
    requires
        is_of_first_version(files.text),
        files.backup is None,
        files.temporary is None,
        has_written_keys(written),
        writes(file, config),
        file.says(again),
    ensures
        ({
            let (after, step) = files.after_load(written);
            &&& step is Done
            &&& after == (ConfigFiles {
                text: written,
                backup: Some(files.text),
                temporary: None,
            })
            &&& is_same_config(again, config)
            &&& after.after_load(rewritten) == (after, LoadStep::Done)
        }),
{
    law_written_file_is_not_migrated(written);
    law_written_config_is_read_back(config, file, again);
    reveal_with_fuel(ConfigFiles::after_all, 8);
}

/// A file of the first version that was kept before is not kept again: the
/// backup stays as it is.
pub proof fn law_backup_is_not_replaced(files: ConfigFiles, written: Seq<char>)
    requires
        is_of_first_version(files.text),
        files.backup is Some,
    ensures
        files.after_load(written) == ((ConfigFiles { text: written, ..files }), LoadStep::Done),
{
    reveal_with_fuel(ConfigFiles::after_all, 4);
}

/// What a file says in the words of today holds, whatever it says besides in
/// those of the first version.
pub proof fn law_todays_words_come_first(file: ConfigFile, config: AppConfig)
    requires
        file.says(config),
    ensures
        config.device_name == file.device_name,
        config.start_with_windows == file.start_with_windows,
        config.listen == file.listen,
        config.clipboard == file.clipboard,
        file.preferred_role matches Some(role) ==> config.preferred_role == role,
        file.transport matches Some(transport) ==> config.transport == transport,
        file.layout matches Some(layout) ==> config.layout.listener_position
            == layout.listener_position,
        file.audio matches Some(audio) ==> config.audio == audio,
        file.peer.name matches Some(name) ==> config.peer.name@ == name@,
        file.peer.host matches Some(host) ==> config.peer.host@ == host@,
        file.peer.port matches Some(port) ==> config.peer.port == port,
        file.peer.pinned_fingerprint matches Some(pinned) ==> config.peer.pinned_fingerprint@
            == pinned@,
        file.input.capture matches Some(said) ==> {
            &&& said.backend matches Some(backend) ==> config.input.capture.backend@ == backend@
            &&& said.output matches Some(output) ==> config.input.capture.output@ == output@
            &&& said.release_hotkey matches Some(hotkey) ==> config.input.capture.release_hotkey@
                == hotkey@
            &&& said.game_compatibility matches Some(mode)
                ==> config.input.capture.game_compatibility == mode
        },
        file.input.inject matches Some(said) ==> {
            &&& said.backend matches Some(backend) ==> config.input.inject.backend@ == backend@
            &&& said.output matches Some(output) ==> config.input.inject.output@ == output@
        },
{
}

/// What only the words of the first version say holds too: the backend for both
/// directions, the hotkey, the games, and the screen that input is put in at.
pub proof fn law_first_words_fill_the_gaps(file: ConfigFile, config: AppConfig)
    requires
        file.says(config),
        file.input.capture is None,
        file.input.inject is None,
    ensures
        file.input.backend matches Some(backend) ==> config.input.capture.backend@ == backend@
            && config.input.inject.backend@ == backend@,
        file.release_hotkey matches Some(hotkey) ==> config.input.capture.release_hotkey@
            == hotkey@,
        file.input.game_compatibility matches Some(mode) ==> config.input.capture.game_compatibility
            == mode,
        file.monitor matches Some(monitor) ==> config.input.inject.output@ == monitor@,
        file.input.backend is None ==> config.input.capture.backend@ == "auto"@
            && config.input.inject.backend@ == "auto"@,
        file.release_hotkey is None ==> config.input.capture.release_hotkey@ == "Ctrl+Alt+Pause"@,
{
}

/// A file that says nothing of its roles listens and is controlled; one that
/// only says how it connects is of the role that goes with it.
pub proof fn law_roles_that_are_not_said(file: ConfigFile, config: AppConfig)
    requires
        file.says(config),
        file.role is None,
    ensures
        file.preferred_role is None && file.transport is None ==> config.preferred_role
            == Role::Receiver && config.transport == TransportMode::Listen,
        file.preferred_role is None && file.transport == Some(TransportMode::Connect)
            ==> config.preferred_role == Role::Controller,
        file.preferred_role is None && file.transport == Some(TransportMode::Listen)
            ==> config.preferred_role == Role::Receiver,
        file.transport is None ==> config.transport == TransportMode::Listen,
        file.audio is None ==> !config.audio.enabled,
        file.layout is None && file.peer.laptop is None ==> config.layout.listener_position
            == PeerPosition::Left,
        file.peer.port is None && file.peer.laptop is None ==> config.peer.port == 42_420,
{
}

/// Each word of the first version, and each word of today that is missing, has
/// a file taken over; a file with none of the first and all of the second is
/// left alone, and so is one that cannot be read.
pub proof fn law_each_mark_has_the_file_taken_over(text: Seq<char>)
    ensures
        toml_root_has(text, "role"@) is None ==> !is_of_first_version(text),
        toml_root_has(text, "role"@) is Some ==> (is_of_first_version(text) <==> (toml_root_has(
            text,
            "role"@,
        ) == Some(true) || toml_root_has(text, "release_hotkey"@) == Some(true) || toml_root_has(
            text,
            "monitor"@,
        ) == Some(true) || toml_section_has(text, "peer"@, "laptop"@) == Some(true)
            || toml_section_has(text, "input"@, "backend"@) == Some(true) || toml_section_has(
            text,
            "input"@,
            "game_compatibility"@,
        ) == Some(true) || toml_root_has(text, "preferred_role"@) != Some(true) || toml_root_has(
            text,
            "transport"@,
        ) != Some(true))),
{
}

/// A file of the first version is written anew only once its backup is there; a
/// backup that could not be made leaves it as it is.
pub proof fn law_no_rewriting_without_a_backup(step: LoadStep, outcome: StepOutcome)
    ensures
        step.after(outcome) == LoadStep::Rewrite ==> (step matches LoadStep::Keep(made)
            && made.after(outcome) == BackupStep::Kept),
        BackupStep::FindBackup.after(StepOutcome::Failed) == BackupStep::FailedToFind,
        outcome != StepOutcome::Yes ==> BackupStep::CreateTemporary.after(outcome)
            == BackupStep::FailedToWrite,
        outcome != StepOutcome::Yes ==> BackupStep::WriteTemporary.after(outcome).after(
            StepOutcome::Yes,
        ) == BackupStep::FailedToWrite,
        outcome != StepOutcome::Yes ==> BackupStep::SyncTemporary.after(outcome).after(
            StepOutcome::Yes,
        ) == BackupStep::FailedToWrite,
        outcome != StepOutcome::Yes ==> BackupStep::NameBackup.after(outcome).after(
            StepOutcome::Yes,
        ).after(StepOutcome::Yes) == BackupStep::Kept,
        outcome != StepOutcome::Yes ==> BackupStep::NameBackup.after(outcome).after(
            StepOutcome::No,
        ).after(StepOutcome::Yes) == BackupStep::FailedToName,
        step == LoadStep::Rewrite && outcome == StepOutcome::Yes ==> step.after(outcome)
            == LoadStep::Done,
        step == LoadStep::Rewrite && outcome != StepOutcome::Yes ==> step.after(outcome)
            == LoadStep::NotRewritten,
{
}

} // verus!
