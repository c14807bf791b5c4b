use edge_kvm::config::{
    backup_path, config_needs_v2_migration, temporary_path, AppConfig, BackupStep, ClipboardConfig,
    ConfigFile, ConfigInput, ConfigPeer, GameCompatibilityMode, LegacyPeerConfig, LoadStep,
    PeerPosition, StepOutcome, TransportMode,
};
use edge_kvm::listen::{
    parse_listen_port, update_listen_port, validate_device_name, validate_host, validate_port,
    ConfigValidationError,
};
use edge_kvm::protocol::Role;

#[test]
fn new_controller_configs_enable_audio() {
    assert!(AppConfig::controller_default().audio.enabled);
}

#[test]
fn update_listen_port_preserves_host() {
    assert_eq!(
        update_listen_port(Some("127.0.0.1:42420"), 42421),
        "127.0.0.1:42421"
    );
    assert_eq!(update_listen_port(None, 42420), "0.0.0.0:42420");
}

#[test]
fn parse_listen_port_rejects_missing_or_zero_port() {
    assert_eq!(parse_listen_port("0.0.0.0:42420").unwrap(), 42420);
    assert_eq!(
        parse_listen_port("0.0.0.0"),
        Err(ConfigValidationError::MissingListenPort)
    );
    assert_eq!(
        parse_listen_port("0.0.0.0:0"),
        Err(ConfigValidationError::InvalidListenPort)
    );
}

#[test]
fn validation_rejects_empty_name_and_host() {
    assert_eq!(
        validate_device_name("  "),
        Err(ConfigValidationError::EmptyDeviceName)
    );
    assert_eq!(validate_host(""), Err(ConfigValidationError::EmptyHost));
    assert_eq!(validate_port(0), Err(ConfigValidationError::InvalidPort));
}

fn text_of(table: &toml::Table, key: &str) -> Option<String> {
    table
        .get(key)
        .and_then(|value| value.as_str())
        .map(str::to_string)
}

fn parse(text: &str) -> AppConfig {
    let table: toml::Table = text.parse().unwrap();
    let role = match text_of(&table, "role").as_deref() {
        Some("controller") => Some(Role::Controller),
        Some("receiver") => Some(Role::Receiver),
        _ => None,
    };
    let empty = toml::Table::new();
    let input = table
        .get("input")
        .and_then(|value| value.as_table())
        .unwrap_or(&empty);
    let laptop = table
        .get("peer")
        .and_then(|value| value.get("laptop"))
        .and_then(|value| value.as_table())
        .map(|laptop| LegacyPeerConfig {
            host: text_of(laptop, "host").unwrap(),
            port: laptop["port"].as_integer().unwrap() as u16,
            position: match text_of(laptop, "position").as_deref() {
                Some("right") => PeerPosition::Right,
                Some("top") => PeerPosition::Top,
                Some("bottom") => PeerPosition::Bottom,
                _ => PeerPosition::Left,
            },
            pinned_fingerprint: text_of(laptop, "pinned_fingerprint").unwrap_or_default(),
        });
    ConfigFile {
        device_name: text_of(&table, "device_name").unwrap(),
        start_with_windows: false,
        preferred_role: None,
        transport: None,
        role,
        release_hotkey: text_of(&table, "release_hotkey"),
        listen: text_of(&table, "listen"),
        monitor: text_of(&table, "monitor"),
        peer: ConfigPeer {
            name: None,
            host: None,
            port: None,
            pinned_fingerprint: None,
            laptop,
        },
        layout: None,
        input: ConfigInput {
            backend: text_of(input, "backend"),
            game_compatibility: None,
            capture: None,
            inject: None,
        },
        clipboard: ClipboardConfig::default(),
        audio: None,
    }
    .into_app_config()
}

#[test]
fn legacy_config_defaults_audio_to_disabled() {
    let config = parse(
        r#"
device_name = "Legacy"
role = "receiver"
listen = "0.0.0.0:42420"
"#,
    );
    assert!(!config.audio.enabled);
    assert_eq!(config.audio.jitter_target_ms, 60);
}

#[test]
fn legacy_input_config_defaults_to_always_enabled_for_games() {
    let config = parse(
        r#"
device_name = "Legacy"
role = "controller"

[input]
backend = "auto"
"#,
    );
    assert_eq!(
        config.input.capture.game_compatibility,
        GameCompatibilityMode::AlwaysEnabled
    );
}

#[test]
fn files_of_the_first_version_are_recognised() {
    assert!(config_needs_v2_migration(
        "device_name = \"Lua\"\nrole = \"receiver\"\n"
    ));
    let second = "device_name = \"Lua\"\npreferred_role = \"receiver\"\ntransport = \"listen\"\n";
    assert!(!config_needs_v2_migration(second));
    assert!(config_needs_v2_migration(&format!(
        "{second}[peer.laptop]\nhost = \"x\"\n"
    )));
    assert!(config_needs_v2_migration(&format!(
        "{second}[input]\nbackend = \"auto\"\n"
    )));
    assert!(!config_needs_v2_migration(&format!(
        "{second}[input.capture]\nbackend = \"auto\"\n"
    )));
    assert!(config_needs_v2_migration("device_name = \"Lua\"\n"));
    assert!(!config_needs_v2_migration("not = = toml"));
}

#[test]
fn backup_has_a_name_of_its_own() {
    assert_eq!(backup_path("/a/receiver.toml"), "/a/receiver.toml.v1.bak");
    assert_eq!(
        temporary_path("/a/receiver.toml.v1.bak", 17, 3),
        "/a/receiver.toml.v1.bak.tmp-17-3"
    );
}

#[test]
fn receiver_listens_and_controller_connects() {
    let receiver = AppConfig::receiver_default();
    assert_eq!(receiver.transport, TransportMode::Listen);
    assert_eq!(receiver.preferred_role, Role::Receiver);
    let controller = AppConfig::controller_default();
    assert_eq!(controller.transport, TransportMode::Connect);
    assert_eq!(controller.preferred_role, Role::Controller);
}

#[test]
fn phase_zero_v1_controller_config_fixture_loads() {
    let config = parse(
        r#"
device_name = "Main PC"
role = "controller"
release_hotkey = "Ctrl+Alt+Pause"

[peer.laptop]
host = "192.168.0.11"
port = 42420
position = "left"

[input]
backend = "auto"

[clipboard]
enabled = true
max_bytes = 1048576
"#,
    );
    assert_eq!(config.preferred_role, Role::Controller);
    assert_eq!(config.transport, TransportMode::Connect);
    assert_eq!(config.input.capture.release_hotkey, "Ctrl+Alt+Pause");
    assert_eq!(config.peer.host, "192.168.0.11");
    assert_eq!(config.layout.listener_position, PeerPosition::Left);
    assert!(config.clipboard.enabled);
    assert!(config.clipboard.images_enabled);
    assert!(config.audio.enabled);
}

#[test]
fn phase_zero_v1_receiver_config_fixture_loads() {
    let config = parse(
        r#"
device_name = "Lua"
role = "receiver"
listen = "0.0.0.0:42420"
monitor = "eDP-1"
release_hotkey = "Ctrl+Alt+Pause"

[input]
backend = "auto"

[clipboard]
enabled = true
max_bytes = 1048576
"#,
    );
    assert_eq!(config.preferred_role, Role::Receiver);
    assert_eq!(config.transport, TransportMode::Listen);
    assert_eq!(config.listen.as_deref(), Some("0.0.0.0:42420"));
    assert_eq!(config.input.inject.output, "eDP-1");
    assert_eq!(config.input.capture.release_hotkey, "Ctrl+Alt+Pause");
    assert!(config.clipboard.enabled);
    assert!(config.clipboard.images_enabled);
    assert!(!config.audio.enabled);
}

#[test]
fn file_that_was_written_is_not_taken_over_again() {
    assert!(!config_needs_v2_migration(
        r#"
device_name = "Main PC"
start_with_windows = false
preferred_role = "controller"
transport = "connect"

[peer]
name = "Linux PC"
host = "192.168.0.11"
port = 42420
pinned_fingerprint = ""

[layout]
listener_position = "left"

[input.capture]
backend = "auto"
output = ""
release_hotkey = "Ctrl+Alt+Pause"
game_compatibility = "always-enabled"

[input.inject]
backend = "auto"
output = ""

[clipboard]
enabled = true
images_enabled = true
max_bytes = 1048576
max_image_bytes = 4194304

[audio]
enabled = true
local_playback = "redirect"
jitter_target_ms = 60
"#
    ));
}

#[test]
fn backup_is_made_in_steps() {
    let mut step = BackupStep::FindBackup;
    for (outcome, next) in [
        (StepOutcome::No, BackupStep::CreateTemporary),
        (StepOutcome::Yes, BackupStep::WriteTemporary),
        (StepOutcome::Yes, BackupStep::SyncTemporary),
        (StepOutcome::Yes, BackupStep::NameBackup),
        (StepOutcome::Yes, BackupStep::Kept),
    ] {
        step = step.next(outcome);
        assert_eq!(step, next);
    }
}

#[test]
fn file_of_the_first_version_is_kept_and_written_anew() {
    let mut step = LoadStep::begin("device_name = \"Lua\"\nrole = \"receiver\"\n");
    let mut steps = vec![step];
    while step != LoadStep::Done {
        let outcome = match step {
            LoadStep::Keep(BackupStep::FindBackup) => StepOutcome::No,
            _ => StepOutcome::Yes,
        };
        step = step.next(outcome);
        steps.push(step);
    }
    assert_eq!(
        steps,
        [
            LoadStep::Keep(BackupStep::FindBackup),
            LoadStep::Keep(BackupStep::CreateTemporary),
            LoadStep::Keep(BackupStep::WriteTemporary),
            LoadStep::Keep(BackupStep::SyncTemporary),
            LoadStep::Keep(BackupStep::NameBackup),
            LoadStep::Rewrite,
            LoadStep::Done,
        ]
    );
    assert_eq!(
        LoadStep::Keep(BackupStep::FindBackup).next(StepOutcome::Yes),
        LoadStep::Rewrite
    );
    assert_eq!(
        LoadStep::Rewrite.next(StepOutcome::Failed),
        LoadStep::NotRewritten
    );
    let second = "device_name = \"Lua\"\npreferred_role = \"receiver\"\ntransport = \"listen\"\n";
    assert_eq!(LoadStep::begin(second), LoadStep::Done);
}
