//! What the two computers say to each other.

use vstd::prelude::*;

verus! {

/// The version of the protocol that this crate speaks.
pub const PROTOCOL_VERSION: u16 = 2;

/// The epoch of the first role assignment of a session.
pub const INITIAL_ROLE_EPOCH: u64 = 1;

/// The TCP port that a listener has unless it is configured otherwise.
pub const DEFAULT_PORT: u16 = 42_420;

/// The largest encoded frame.
pub const MAX_FRAME_BYTES: u32 = 4_194_304;

/// Announces that images can be exchanged through the clipboard.
pub const CLIPBOARD_IMAGE_EXTENSION: &'static str = "clipboard-image-v1";

/// Announces that input forwarding can be switched off from the other side.
pub const INPUT_TOGGLE_EXTENSION: &'static str = "input-toggle-v1";

/// Announces that a pairing is confirmed on both sides.
pub const PAIRING_CONFIRMATION_EXTENSION: &'static str = "pairing-confirmation-v1";

/// Announces that the direction of the audio can be chosen.
pub const AUDIO_ROUTE_EXTENSION: &'static str = "audio-route-v1";

/// A double precision number, as its IEEE 754 bits.
#[derive(Clone, Copy, Debug, PartialEq, Eq, Structural)]
pub struct F64Bits(pub u64);

/// A single precision number, as its IEEE 754 bits.
#[derive(Clone, Copy, Debug, PartialEq, Eq, Structural)]
pub struct F32Bits(pub u32);

/// Which part a computer plays.
#[derive(Clone, Copy, Debug, PartialEq, Eq, Structural)]
pub enum Role {
    Controller,
    Receiver,
}

/// One message of a session.
#[derive(Clone, Debug, PartialEq)]
pub enum Frame {
    Hello(Hello),
    ScreenInfo(ScreenInfo),
    Input(InputFrame),
    Clipboard(ClipboardEvent),
    Control(ControlFrame),
    Heartbeat(Heartbeat),
    Error(RemoteError),
    Audio(AudioControl),
    Pairing(PairingEvent),
    Role(RoleEvent),
}

impl Frame {
    /// An input event of a role epoch.
    pub fn input(role_epoch: u64, event: InputEvent) -> (frame: Self)
        ensures
            frame == Frame::Input(InputFrame { role_epoch, event }),
    {
        Frame::Input(InputFrame { role_epoch, event })
    }

    /// A control event of a role epoch.
    pub fn control(role_epoch: u64, event: ControlEvent) -> (frame: Self)
        ensures
            frame == Frame::Control(ControlFrame { role_epoch, event }),
    {
        Frame::Control(ControlFrame { role_epoch, event })
    }

    /// The input event that the frame holds, if it holds one.
    pub open spec fn held_input(self) -> Option<InputEvent> {
        match self {
            Frame::Input(input) => Some(input.event),
            _ => None,
        }
    }

    /// The input event that the frame holds, if it holds one.
    pub fn input_event(&self) -> (event: Option<&InputEvent>)
        ensures
            match event {
                Some(event) => self.held_input() == Some(*event),
                None => self.held_input() is None,
            },
    {
        match self {
            Frame::Input(input) => Some(&input.event),
            _ => None,
        }
    }

    /// The control event that the frame holds, if it holds one.
    pub fn control_event(&self) -> (event: Option<&ControlEvent>)
        ensures
            event == (match *self {
                Frame::Control(control) => Some(&control.event),
                _ => None,
            }),
    {
        match self {
            Frame::Control(control) => Some(&control.event),
            _ => None,
        }
    }
}

/// A step of pairing two computers.
#[derive(Clone, Copy, Debug, PartialEq, Eq, Structural)]
pub enum PairingEvent {
    Status { trusted: bool, armed: bool },
    Decision { accepted: bool },
}

/// How a computer introduces itself.
#[derive(Clone, Debug, PartialEq, Eq)]
pub struct Hello {
    pub protocol_version: u16,
    pub device_name: String,
    pub role: Role,
    pub public_key_fingerprint: String,
    pub capabilities: Vec<Capability>,
    pub extensions: Vec<String>,
    pub node_capabilities: Vec<NodeCapability>,
}

/// A capability of the first protocol version.
#[derive(Clone, Copy, Debug, PartialEq, Eq, Structural)]
pub enum Capability {
    AudioV1,
}

/// What a computer can do in either role.
#[derive(Clone, Copy, Debug, PartialEq, Eq, Structural)]
pub enum NodeCapability {
    InputCaptureV1,
    InputInjectV1,
    RoleSwitchV1,
    ScreenInfoBothSidesV1,
    AudioCaptureV1,
    AudioPlaybackV1,
}

/// An input event and the role epoch that it belongs to.
#[derive(Clone, Copy, Debug, PartialEq, Eq, Structural)]
pub struct InputFrame {
    pub role_epoch: u64,
    pub event: InputEvent,
}

/// A control event and the role epoch that it belongs to.
#[derive(Clone, Copy, Debug, PartialEq, Eq, Structural)]
pub struct ControlFrame {
    pub role_epoch: u64,
    pub event: ControlEvent,
}

/// How audio is encoded.
#[derive(Clone, Copy, Debug, PartialEq, Eq, Structural)]
pub enum AudioCodec {
    PcmS16Stereo48Khz,
}

/// How far the audio stream has come.
#[derive(Clone, Copy, Debug, PartialEq, Eq, Structural)]
pub enum AudioStreamState {
    Disabled,
    WaitingForUdp,
    Starting,
    Streaming,
    Error,
}

/// Why the audio stream was stopped.
#[derive(Clone, Copy, Debug, PartialEq, Eq, Structural)]
pub enum AudioStopReason {
    UserRequest,
    PeerDisconnected,
    TransportFailure,
    CaptureFailure,
    PlaybackFailure,
    Shutdown,
}

/// How the two sides agree on the audio stream.
#[derive(Clone, Debug, PartialEq, Eq)]
#[allow(inconsistent_fields)]
pub enum AudioControl {
    /// The listener asks the connector to commit a route. `None` disables audio.
    RequestRoute { source_fingerprint: Option<String> },
    /// The route that the connector committed. `None` disables audio.
    SetRoute { source_fingerprint: Option<String> },
    Offer { udp_port: u16, codecs: Vec<AudioCodec> },
    Start {
        udp_port: u16,
        session_id: [u8; 16],
        session_salt: [u8; 4],
        session_key: [u8; 32],
        codec: AudioCodec,
        frame_ms: u16,
        jitter_target_ms: u16,
    },
    SetEnabled { enabled: bool },
    State { state: AudioStreamState, detail: Option<String> },
    Stop { reason: AudioStopReason },
}

/// The screens of a computer.
#[derive(Clone, Debug, PartialEq, Eq)]
pub struct ScreenInfo {
    pub outputs: Vec<OutputInfo>,
    pub primary_output: String,
}

/// One screen.
#[derive(Clone, Debug, PartialEq, Eq)]
pub struct OutputInfo {
    pub name: String,
    pub width: u32,
    pub height: u32,
    pub scale: F32Bits,
    pub x: i32,
    pub y: i32,
}

/// What a mouse or a keyboard did.
#[derive(Clone, Copy, Debug, PartialEq, Eq, Structural)]
pub enum InputEvent {
    PointerMotion { dx: F64Bits, dy: F64Bits },
    PointerButton { button: MouseButton, down: bool },
    PointerWheel { x: F64Bits, y: F64Bits },
    Key { evdev_code: u16, down: bool },
    AllKeysUp,
}

/// A mouse button.
#[derive(Clone, Copy, Debug, PartialEq, Eq, Structural)]
pub enum MouseButton {
    Left,
    Right,
    Middle,
    Back,
    Forward,
}

/// What is said of the clipboard.
#[derive(Clone, Debug, PartialEq, Eq)]
#[allow(inconsistent_fields)]
pub enum ClipboardEvent {
    TextOffer { sequence: u64, text: String },
    TextRequest,
    ContentRequest,
    ImageStart {
        transfer_id: u64,
        sequence: u64,
        width: u32,
        height: u32,
        total_bytes: u32,
        content_sha256: [u8; 32],
    },
    ImageChunk { transfer_id: u64, offset: u32, bytes: Vec<u8> },
    ImageEnd { transfer_id: u64 },
    ImageCancel { transfer_id: u64, reason: ClipboardCancelReason },
}

impl ClipboardEvent {
    /// The image transfer that the event belongs to, if it belongs to one.
    pub open spec fn spec_image_transfer_id(&self) -> Option<u64> {
        match *self {
            ClipboardEvent::ImageStart { transfer_id, .. } => Some(transfer_id),
            ClipboardEvent::ImageChunk { transfer_id, .. } => Some(transfer_id),
            ClipboardEvent::ImageEnd { transfer_id } => Some(transfer_id),
            ClipboardEvent::ImageCancel { transfer_id, .. } => Some(transfer_id),
            _ => None,
        }
    }

    /// The image transfer that the event belongs to, if it belongs to one.
    pub fn image_transfer_id(&self) -> (id: Option<u64>)
        ensures
            id == self.spec_image_transfer_id(),
    {
        match self {
            ClipboardEvent::ImageStart { transfer_id, .. } => Some(*transfer_id),
            ClipboardEvent::ImageChunk { transfer_id, .. } => Some(*transfer_id),
            ClipboardEvent::ImageEnd { transfer_id } => Some(*transfer_id),
            ClipboardEvent::ImageCancel { transfer_id, .. } => Some(*transfer_id),
            _ => None,
        }
    }
}

/// Why an image transfer was given up.
#[derive(Clone, Copy, Debug, PartialEq, Eq, Structural)]
pub enum ClipboardCancelReason {
    Replaced,
    Rejected,
    TimedOut,
    Invalid,
}

/// Where the pointer goes, and whether input is forwarded.
#[derive(Clone, Copy, Debug, PartialEq, Eq, Structural)]
pub enum ControlEvent {
    EnterRemote { edge: Edge, normalized_position: F32Bits },
    LeaveRemote { edge: Edge, normalized_position: F32Bits },
    ReleaseToLocal { reason: ReleaseReason },
    SetInputForwarding { enabled: bool },
}

/// How far a change of roles has come.
#[derive(Clone, Debug, PartialEq, Eq)]
pub enum RoleTransitionState {
    Stable,
    Preparing { proposed_controller_fingerprint: String },
    Failed,
}

/// Who controls whom.
#[derive(Clone, Debug, PartialEq, Eq)]
pub struct RoleState {
    pub controller_fingerprint: Option<String>,
    pub role_epoch: u64,
    pub transition: RoleTransitionState,
    pub listener_position: Edge,
    pub paused: bool,
    pub failure_detail: Option<String>,
}

/// A step of a change of roles.
#[derive(Clone, Debug, PartialEq, Eq)]
pub enum RoleEvent {
    SessionState(RoleState),
    Request { controller_fingerprint: String },
    Prepare(RoleState),
    Ready {
        role_epoch: u64,
        capture_ready: bool,
        inject_ready: bool,
        failure_detail: Option<String>,
    },
    Commit(RoleState),
    Applied { role_epoch: u64 },
    Abort(RoleState),
    SetPaused { paused: bool },
}

/// An edge of a screen.
#[derive(Clone, Copy, Debug, PartialEq, Eq, Structural)]
pub enum Edge {
    Left,
    Right,
    Top,
    Bottom,
}

/// Why the pointer goes back to the controller's own screen.
#[derive(Clone, Copy, Debug, PartialEq, Eq, Structural)]
pub enum ReleaseReason {
    Hotkey,
    PeerDisconnected,
    HeartbeatTimeout,
    BackendFailure,
    UserRequest,
    Shutdown,
}

/// A sign of life.
#[derive(Clone, Copy, Debug, PartialEq, Eq, Structural)]
pub struct Heartbeat {
    pub sequence: u64,
}

/// An error that the other side reports.
#[derive(Clone, Debug, PartialEq, Eq)]
pub struct RemoteError {
    pub code: String,
    pub message: String,
}

} // verus!
