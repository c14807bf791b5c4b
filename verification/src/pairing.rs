//! How two computers introduce themselves and come to trust each other.
//!
//! A key is kept only when the people at both computers have approved it.

use crate::config::{AppConfig, PeerPosition};
use crate::identity::{pairing_code, pairing_digits};
use crate::pins::PinStatus;
use crate::protocol::{
    Edge, Frame, Hello, NodeCapability, PairingEvent, RemoteError, Role, RoleState,
    RoleTransitionState, AUDIO_ROUTE_EXTENSION, CLIPBOARD_IMAGE_EXTENSION, INITIAL_ROLE_EPOCH,
    INPUT_TOGGLE_EXTENSION, PAIRING_CONFIRMATION_EXTENSION, PROTOCOL_VERSION,
};
use crate::session::PeerSupport;
use crate::text::{decimal, is_blank, push_decimal, str_eq, str_is_blank};
use vstd::prelude::*;

verus! {

/// What is wrong with an introduction.
#[derive(Clone, Copy, Debug, PartialEq, Eq, Structural)]
pub enum HelloProblem {
    /// The other computer speaks another version.
    Version(u16),
    /// The other computer names another key than the one it has shown.
    Fingerprint,
}

/// Who is spoken of in a message: each side has its own word for the other.
#[derive(Clone, Copy, Debug, PartialEq, Eq, Structural)]
pub enum Other {
    Peer,
    Receiver,
}

impl Other {
    /// The word.
    pub open spec fn word(self) -> Seq<char> {
        match self {
            Other::Peer => "peer"@,
            Other::Receiver => "receiver"@,
        }
    }

    fn name(self) -> (word: &'static str)
        ensures
            word@ == self.word(),
    {
        match self {
            Other::Peer => "peer",
            Other::Receiver => "receiver",
        }
    }
}

impl HelloProblem {
    /// What is wrong, in words.
    pub open spec fn words(self, other: Other) -> Seq<char> {
        match self {
            HelloProblem::Version(version) => "Upgrade the other computer: "@ + other.word()
                + " protocol version "@ + decimal(version as nat) + " is incompatible with "@
                + decimal(PROTOCOL_VERSION as nat),
            HelloProblem::Fingerprint => other.word()
                + " hello fingerprint does not match its encrypted identity"@,
        }
    }

    /// What is wrong, in words.
    pub fn text(self, other: Other) -> (text: String)
        ensures
            text@ == self.words(other),
    {
        let mut text: String = String::new();
        match self {
            HelloProblem::Version(version) => {
                text.append("Upgrade the other computer: ");
                text.append(other.name());
                text.append(" protocol version ");
                push_decimal(&mut text, version as u64);
                text.append(" is incompatible with ");
                push_decimal(&mut text, PROTOCOL_VERSION as u64);
                assert(text@ =~= self.words(other));
            },
            HelloProblem::Fingerprint => {
                text.append(other.name());
                text.append(" hello fingerprint does not match its encrypted identity");
                assert(text@ =~= self.words(other));
            },
        }
        text
    }
}

/// What is wrong with an introduction, if anything is. The version comes
/// first: a computer of another version may mean something else by the rest.
pub open spec fn hello_problem(hello: Hello, noise_fingerprint: Seq<char>) -> Option<HelloProblem> {
    if hello.protocol_version != PROTOCOL_VERSION {
        Some(HelloProblem::Version(hello.protocol_version))
    } else if hello.public_key_fingerprint@ != noise_fingerprint {
        Some(HelloProblem::Fingerprint)
    } else {
        None
    }
}

fn check_hello(hello: &Hello, noise_fingerprint: &str) -> (out: Result<(), HelloProblem>)
    ensures
        out == (match hello_problem(*hello, noise_fingerprint@) {
            Some(problem) => Err(problem),
            None => Ok(()),
        }),
{
    if hello.protocol_version != PROTOCOL_VERSION {
        return Err(HelloProblem::Version(hello.protocol_version));
    }
    if !str_eq(hello.public_key_fingerprint.as_str(), noise_fingerprint) {
        return Err(HelloProblem::Fingerprint);
    }
    Ok(())
}

/// Checks how a controller introduces itself.
pub fn validate_controller_hello(hello: &Hello, noise_fingerprint: &str) -> (out: Result<
    (),
    HelloProblem,
>)
    ensures
        out == (match hello_problem(*hello, noise_fingerprint@) {
            Some(problem) => Err(problem),
            None => Ok(()),
        }),
{
    check_hello(hello, noise_fingerprint)
}

/// Checks how a receiver introduces itself.
pub fn validate_receiver_hello(hello: &Hello, noise_fingerprint: &str) -> (out: Result<
    (),
    HelloProblem,
>)
    ensures
        out == (match hello_problem(*hello, noise_fingerprint@) {
            Some(problem) => Err(problem),
            None => Ok(()),
        }),
{
    check_hello(hello, noise_fingerprint)
}

/// Some texts hold a given one.
pub open spec fn lists(texts: Seq<String>, text: Seq<char>) -> bool {
    exists|i: int| 0 <= i < texts.len() && #[trigger] texts[i]@ == text
}

/// Whether some extensions hold a given one.
pub fn has_extension(extensions: &Vec<String>, extension: &str) -> (found: bool)
    ensures
        found == lists(extensions@, extension@),
{
    let mut i: usize = 0;
    while i < extensions.len()
        invariant
            i <= extensions@.len(),
            forall|k: int| 0 <= k < i ==> #[trigger] extensions@[k]@ != extension@,
        decreases extensions@.len() - i,
    {
        if str_eq(extensions[i].as_str(), extension) {
            return true;
        }
        i = i + 1;
    }
    false
}

/// Whether some capabilities hold a given one.
pub fn has_capability(capabilities: &Vec<NodeCapability>, capability: NodeCapability) -> (found:
    bool)
    ensures
        found == capabilities@.contains(capability),
{
    let mut i: usize = 0;
    while i < capabilities.len()
        invariant
            i <= capabilities@.len(),
            forall|k: int| 0 <= k < i ==> #[trigger] capabilities@[k] != capability,
        decreases capabilities@.len() - i,
    {
        if capabilities[i] == capability {
            return true;
        }
        i = i + 1;
    }
    false
}

/// What a computer says that it can do.
pub open spec fn support_of(hello: Hello) -> PeerSupport {
    let can = hello.node_capabilities@;
    let knows = hello.extensions@;
    PeerSupport {
        audio_playback: can.contains(NodeCapability::AudioPlaybackV1),
        audio_capture: can.contains(NodeCapability::AudioCaptureV1),
        audio_route: lists(knows, AUDIO_ROUTE_EXTENSION@),
        input_toggle: lists(knows, INPUT_TOGGLE_EXTENSION@),
        images: lists(knows, CLIPBOARD_IMAGE_EXTENSION@),
        input_capture: can.contains(NodeCapability::InputCaptureV1),
        input_injection: can.contains(NodeCapability::InputInjectV1),
        role_switch: can.contains(NodeCapability::RoleSwitchV1),
    }
}

/// What a computer says that it can do.
pub fn peer_support(hello: &Hello) -> (support: PeerSupport)
    ensures
        support == support_of(*hello),
{
    let can = &hello.node_capabilities;
    let knows = &hello.extensions;
    PeerSupport {
        audio_playback: has_capability(can, NodeCapability::AudioPlaybackV1),
        audio_capture: has_capability(can, NodeCapability::AudioCaptureV1),
        audio_route: has_extension(knows, AUDIO_ROUTE_EXTENSION),
        input_toggle: has_extension(knows, INPUT_TOGGLE_EXTENSION),
        images: has_extension(knows, CLIPBOARD_IMAGE_EXTENSION),
        input_capture: has_capability(can, NodeCapability::InputCaptureV1),
        input_injection: has_capability(can, NodeCapability::InputInjectV1),
        role_switch: has_capability(can, NodeCapability::RoleSwitchV1),
    }
}

/// How a computer with Linux introduces itself: it can play either role.
pub fn linux_hello(device_name: &String, role: Role, fingerprint: String) -> (hello: Hello)
    ensures
        hello.protocol_version == PROTOCOL_VERSION,
        hello.device_name == *device_name,
        hello.role == role,
        hello.public_key_fingerprint == fingerprint,
        hello.capabilities@.len() == 0,
        hello.extensions@.len() == 4,
        hello.extensions@[0]@ == CLIPBOARD_IMAGE_EXTENSION@,
        hello.extensions@[1]@ == INPUT_TOGGLE_EXTENSION@,
        hello.extensions@[2]@ == PAIRING_CONFIRMATION_EXTENSION@,
        hello.extensions@[3]@ == AUDIO_ROUTE_EXTENSION@,
        hello.node_capabilities@ == seq![
            NodeCapability::InputCaptureV1,
            NodeCapability::InputInjectV1,
            NodeCapability::RoleSwitchV1,
            NodeCapability::ScreenInfoBothSidesV1,
            NodeCapability::AudioCaptureV1,
            NodeCapability::AudioPlaybackV1,
        ],
        support_of(hello) == (PeerSupport {
            audio_playback: true,
            audio_capture: true,
            audio_route: true,
            input_toggle: true,
            images: true,
            input_capture: true,
            input_injection: true,
            role_switch: true,
        }),
        support_of(hello).is_linux_node(),
{
    let mut extensions: Vec<String> = Vec::new();
    extensions.push(CLIPBOARD_IMAGE_EXTENSION.to_owned());
    extensions.push(INPUT_TOGGLE_EXTENSION.to_owned());
    extensions.push(PAIRING_CONFIRMATION_EXTENSION.to_owned());
    extensions.push(AUDIO_ROUTE_EXTENSION.to_owned());
    let mut can: Vec<NodeCapability> = Vec::new();
    can.push(NodeCapability::InputCaptureV1);
    can.push(NodeCapability::InputInjectV1);
    can.push(NodeCapability::RoleSwitchV1);
    can.push(NodeCapability::ScreenInfoBothSidesV1);
    can.push(NodeCapability::AudioCaptureV1);
    can.push(NodeCapability::AudioPlaybackV1);
    assert(extensions@[0]@ == CLIPBOARD_IMAGE_EXTENSION@);
    assert(extensions@[1]@ == INPUT_TOGGLE_EXTENSION@);
    assert(extensions@[2]@ == PAIRING_CONFIRMATION_EXTENSION@);
    assert(extensions@[3]@ == AUDIO_ROUTE_EXTENSION@);
    assert(can@[0] == NodeCapability::InputCaptureV1);
    assert(can@[1] == NodeCapability::InputInjectV1);
    assert(can@[2] == NodeCapability::RoleSwitchV1);
    assert(can@[4] == NodeCapability::AudioCaptureV1);
    assert(can@[5] == NodeCapability::AudioPlaybackV1);
    Hello {
        protocol_version: PROTOCOL_VERSION,
        device_name: device_name.clone(),
        role,
        public_key_fingerprint: fingerprint,
        capabilities: Vec::new(),
        extensions,
        node_capabilities: can,
    }
}

/// How a computer with Windows introduces itself: it controls.
pub fn windows_hello(device_name: &String, role: Role, fingerprint: String) -> (hello: Hello)
    ensures
        hello.protocol_version == PROTOCOL_VERSION,
        hello.device_name == *device_name,
        hello.role == role,
        hello.public_key_fingerprint == fingerprint,
        hello.capabilities@.len() == 0,
        hello.extensions@.len() == 3,
        hello.extensions@[0]@ == CLIPBOARD_IMAGE_EXTENSION@,
        hello.extensions@[1]@ == INPUT_TOGGLE_EXTENSION@,
        hello.extensions@[2]@ == PAIRING_CONFIRMATION_EXTENSION@,
        hello.node_capabilities@ == seq![
            NodeCapability::InputCaptureV1,
            NodeCapability::ScreenInfoBothSidesV1,
            NodeCapability::AudioPlaybackV1,
        ],
        !support_of(hello).is_linux_node(),
{
    let mut extensions: Vec<String> = Vec::new();
    extensions.push(CLIPBOARD_IMAGE_EXTENSION.to_owned());
    extensions.push(INPUT_TOGGLE_EXTENSION.to_owned());
    extensions.push(PAIRING_CONFIRMATION_EXTENSION.to_owned());
    let mut can: Vec<NodeCapability> = Vec::new();
    can.push(NodeCapability::InputCaptureV1);
    can.push(NodeCapability::ScreenInfoBothSidesV1);
    can.push(NodeCapability::AudioPlaybackV1);
    Hello {
        protocol_version: PROTOCOL_VERSION,
        device_name: device_name.clone(),
        role,
        public_key_fingerprint: fingerprint,
        capabilities: Vec::new(),
        extensions,
        node_capabilities: can,
    }
}

/// The edge that the pointer leaves the connecting computer over.
pub open spec fn edge_at(position: PeerPosition) -> Edge {
    match position {
        PeerPosition::Left => Edge::Left,
        PeerPosition::Right => Edge::Right,
        PeerPosition::Top => Edge::Top,
        PeerPosition::Bottom => Edge::Bottom,
    }
}

/// The edge that the pointer leaves the connecting computer over.
pub fn peer_position_to_edge(position: PeerPosition) -> (edge: Edge)
    ensures
        edge == edge_at(position),
{
    match position {
        PeerPosition::Left => Edge::Left,
        PeerPosition::Right => Edge::Right,
        PeerPosition::Top => Edge::Top,
        PeerPosition::Bottom => Edge::Bottom,
    }
}

/// The roles that a session begins with.
pub fn initial_role_state(
    controller_fingerprint: Option<String>,
    position: PeerPosition,
    paused: bool,
) -> (state: RoleState)
    ensures
        state == (RoleState {
            controller_fingerprint,
            role_epoch: INITIAL_ROLE_EPOCH,
            transition: RoleTransitionState::Stable,
            listener_position: edge_at(position),
            paused,
            failure_detail: None,
        }),
{
    RoleState {
        controller_fingerprint,
        role_epoch: INITIAL_ROLE_EPOCH,
        transition: RoleTransitionState::Stable,
        listener_position: peer_position_to_edge(position),
        paused,
        failure_detail: None,
    }
}

/// Why a connection is not tried.
#[derive(Clone, Copy, Debug, PartialEq, Eq, Structural)]
pub enum ConnectProblem {
    HostRequired,
    NotPaired,
}

impl ConnectProblem {
    /// Why, in words.
    pub open spec fn words(self) -> Seq<char> {
        match self {
            ConnectProblem::HostRequired =>
                "peer.host is required when transport = \"connect\""@,
            ConnectProblem::NotPaired =>
                "peer is not paired; choose 'Pair or replace peer...' on both computers"@,
        }
    }

    /// Why, in words.
    pub fn text(self) -> (text: String)
        ensures
            text@ == self.words(),
    {
        match self {
            ConnectProblem::HostRequired =>
                "peer.host is required when transport = \"connect\"".to_owned(),
            ConnectProblem::NotPaired =>
                "peer is not paired; choose 'Pair or replace peer...' on both computers".to_owned(),
        }
    }
}

fn is_empty(text: &String) -> (empty: bool)
    ensures
        empty == (text@.len() == 0),
{
    proof {
        reveal_strlit("");
    }
    let empty: bool = str_eq(text.as_str(), "");
    assert(text@.len() == 0 ==> text@ =~= ""@);
    empty
}

/// Why a connection to a host, with a pinned key or none, may not be tried.
pub open spec fn connect_problem(host: Seq<char>, pinned: Seq<char>, pairing_armed: bool) -> Option<
    ConnectProblem,
> {
    if is_blank(host) {
        Some(ConnectProblem::HostRequired)
    } else if pinned.len() == 0 && !pairing_armed {
        Some(ConnectProblem::NotPaired)
    } else {
        None
    }
}

/// Whether a connection may be tried: there is a host, and its key is known or
/// is about to be.
pub fn may_connect(config: &AppConfig, pairing_armed: bool) -> (out: Result<(), ConnectProblem>)
    ensures
        out == (match connect_problem(
            config.peer.host@,
            config.peer.pinned_fingerprint@,
            pairing_armed,
        ) {
            Some(problem) => Err(problem),
            None => Ok(()),
        }),
{
    if str_is_blank(config.peer.host.as_str()) {
        return Err(ConnectProblem::HostRequired);
    }
    if is_empty(&config.peer.pinned_fingerprint) && !pairing_armed {
        return Err(ConnectProblem::NotPaired);
    }
    Ok(())
}

/// Whether a key is known, where one may go on with it.
pub open spec fn trust_in(pinned: Seq<char>, peer: Seq<char>, pairing_armed: bool) -> Result<
    bool,
    ConnectProblem,
> {
    let trusted = pinned.len() > 0 && pinned == peer;
    if !trusted && !pairing_armed {
        Err(ConnectProblem::NotPaired)
    } else {
        Ok(trusted)
    }
}

/// Whether a computer with Windows knows the key of the other side. It goes on
/// with one that it does not know only while it pairs.
pub fn windows_trust(pinned: &String, peer: &String, pairing_armed: bool) -> (out: Result<
    bool,
    ConnectProblem,
>)
    ensures
        out == trust_in(pinned@, peer@, pairing_armed),
{
    let trusted: bool = !is_empty(pinned) && str_eq(pinned.as_str(), peer.as_str());
    if !trusted && !pairing_armed {
        Err(ConnectProblem::NotPaired)
    } else {
        Ok(trusted)
    }
}

/// What the user of a computer with Windows is told of a key that is not known.
pub fn windows_not_paired(addr: &str) -> (text: String)
    ensures
        text@ == "the laptop at "@ + addr@
            + " is not paired; choose 'Pair or replace laptop...' from both tray menus"@,
{
    "the laptop at ".to_owned().concat(addr).concat(
        " is not paired; choose 'Pair or replace laptop...' from both tray menus",
    )
}

/// The pinned key, and no other, is expected.
pub open spec fn is_expected(pinned: Seq<char>, pairing_armed: bool) -> bool {
    !pairing_armed && pinned.len() > 0
}

/// Whether the key that is expected of the other side is the pinned one: not
/// while pairing, and not where none is pinned.
pub fn expects_pinned_key(pinned: &String, pairing_armed: bool) -> (expects: bool)
    ensures
        expects == is_expected(pinned@, pairing_armed),
{
    !pairing_armed && !is_empty(pinned)
}

/// Another key than the pinned one is shown.
pub open spec fn is_replaced(pinned: Seq<char>, peer: Seq<char>) -> bool {
    pinned.len() > 0 && pinned != peer
}

/// The key that the other side had before, where it has changed.
pub fn replaced_fingerprint(pinned: &String, peer: &String) -> (previous: Option<String>)
    ensures
        match previous {
            Some(previous) => previous == *pinned && is_replaced(pinned@, peer@),
            None => !is_replaced(pinned@, peer@),
        },
{
    if !is_empty(pinned) && *pinned != *peer {
        Some(pinned.clone())
    } else {
        None
    }
}

/// The key that was pinned before, where it has changed.
pub fn previous_pin(status: &PinStatus) -> (previous: Option<String>)
    ensures
        match status {
            PinStatus::Changed { expected } => previous == Some(*expected),
            _ => previous is None,
        },
{
    match status {
        PinStatus::Changed { expected } => Some(expected.clone()),
        _ => None,
    }
}

/// Which side of a connection pairs: a computer with Linux that connects, one
/// that listens, or a computer with Windows, which connects.
#[derive(Clone, Copy, Debug, PartialEq, Eq, Structural)]
pub enum PairingSide {
    Connector,
    Listener,
    Windows,
}

/// Why two computers are not paired.
#[derive(Clone, Debug, PartialEq, Eq)]
pub enum PairingRefusal {
    /// The other side cannot confirm.
    UpdateRequired,
    /// A key is unknown, and pairing was not asked for on both sides.
    NotArmed,
    /// The user of this side did not approve.
    Cancelled,
    /// The user of the other side did not approve.
    Declined,
    PeerError(RemoteError),
    /// Something else came than what the other side knows.
    UnexpectedStatus,
    /// Something else came than what the other user decides.
    UnexpectedDecision,
}

/// What comes next.
#[derive(Clone, Debug, PartialEq, Eq)]
pub enum PairingStep {
    /// Each side knows the other's key: nothing is to be approved.
    Trusted,
    /// Wait for what the other side knows.
    AwaitStatus,
    /// Have the user compare the codes.
    Confirm,
    /// Wait for what the other user decides.
    AwaitDecision,
    /// Both users have approved: keep the other side's key.
    Pin,
    Refuse(PairingRefusal),
}

/// The pairing of two computers, seen from one.
#[derive(Debug)]
pub struct Pairing {
    /// This side knows the other's key.
    pub trusted: bool,
    /// Pairing was asked for here.
    pub armed: bool,
    pub step: PairingStep,
}

impl Pairing {
    /// A side that can confirm says what it knows. One that cannot has to be
    /// known.
    pub open spec fn beginning(trusted: bool, armed: bool, peer_confirms: bool) -> PairingStep {
        if peer_confirms {
            PairingStep::AwaitStatus
        } else if trusted {
            PairingStep::Trusted
        } else {
            PairingStep::Refuse(PairingRefusal::UpdateRequired)
        }
    }

    /// What a side says first, where the other one can take it: what it knows.
    pub open spec fn greeting(trusted: bool, armed: bool, peer_confirms: bool) -> Option<Frame> {
        if peer_confirms {
            Some(Frame::Pairing(PairingEvent::Status { trusted, armed }))
        } else {
            None
        }
    }

    /// Begins; what to send, if anything.
    pub fn begin(trusted: bool, armed: bool, peer_confirms: bool) -> (begun: (Self, Option<Frame>))
        ensures
            begun.0.trusted == trusted,
            begun.0.armed == armed,
            begun.0.step == Self::beginning(trusted, armed, peer_confirms),
            begun.1 == Self::greeting(trusted, armed, peer_confirms),
    {
        if peer_confirms {
            (
                Pairing { trusted, armed, step: PairingStep::AwaitStatus },
                Some(Frame::Pairing(PairingEvent::Status { trusted, armed })),
            )
        } else if trusted {
            (Pairing { trusted, armed, step: PairingStep::Trusted }, None)
        } else {
            (
                Pairing {
                    trusted,
                    armed,
                    step: PairingStep::Refuse(PairingRefusal::UpdateRequired),
                },
                None,
            )
        }
    }

    /// What the other side knows decides whether anything is to be approved,
    /// and whether both sides asked for it.
    pub open spec fn after_status(self, frame: Frame) -> PairingStep {
        match frame {
            Frame::Pairing(PairingEvent::Status { trusted, armed }) => if self.trusted && trusted {
                PairingStep::Trusted
            } else if self.armed && armed {
                PairingStep::Confirm
            } else {
                PairingStep::Refuse(PairingRefusal::NotArmed)
            },
            Frame::Error(error) => PairingStep::Refuse(PairingRefusal::PeerError(error)),
            _ => PairingStep::Refuse(PairingRefusal::UnexpectedStatus),
        }
    }

    /// Takes in what the other side knows.
    pub fn on_status(&mut self, frame: Frame)
        requires
            old(self).step is AwaitStatus,
        ensures
            *final(self) == (Pairing { step: old(self).after_status(frame), ..*old(self) }),
    {
        self.step = match frame {
            Frame::Pairing(PairingEvent::Status { trusted, armed }) => {
                if self.trusted && trusted {
                    PairingStep::Trusted
                } else if self.armed && armed {
                    PairingStep::Confirm
                } else {
                    PairingStep::Refuse(PairingRefusal::NotArmed)
                }
            },
            Frame::Error(error) => PairingStep::Refuse(PairingRefusal::PeerError(error)),
            _ => PairingStep::Refuse(PairingRefusal::UnexpectedStatus),
        };
    }

    /// What the user of this side decided: only an approval has the other side
    /// waited for.
    pub open spec fn after_confirmed(accepted: bool) -> PairingStep {
        if accepted {
            PairingStep::AwaitDecision
        } else {
            PairingStep::Refuse(PairingRefusal::Cancelled)
        }
    }

    /// How the other side is told what the user decided.
    pub open spec fn decided(accepted: bool) -> Frame {
        Frame::Pairing(PairingEvent::Decision { accepted })
    }

    /// What the user decided is told the other side; if they approved, it is
    /// waited for.
    pub fn on_confirmed(&mut self, accepted: bool) -> (frame: Frame)
        requires
            old(self).step is Confirm,
        ensures
            frame == Self::decided(accepted),
            *final(self) == (Pairing { step: Self::after_confirmed(accepted), ..*old(self) }),
    {
        self.step = if accepted {
            PairingStep::AwaitDecision
        } else {
            PairingStep::Refuse(PairingRefusal::Cancelled)
        };
        Frame::Pairing(PairingEvent::Decision { accepted })
    }

    /// What the other user decided. A listener takes whatever is no approval as
    /// a refusal of the other user.
    pub open spec fn after_decision(side: PairingSide, frame: Frame) -> PairingStep {
        match frame {
            Frame::Pairing(PairingEvent::Decision { accepted: true }) => PairingStep::Pin,
            Frame::Pairing(PairingEvent::Decision { accepted: false }) => PairingStep::Refuse(
                PairingRefusal::Declined,
            ),
            Frame::Error(error) => if side is Listener {
                PairingStep::Refuse(PairingRefusal::Declined)
            } else {
                PairingStep::Refuse(PairingRefusal::PeerError(error))
            },
            _ => if side is Listener {
                PairingStep::Refuse(PairingRefusal::Declined)
            } else {
                PairingStep::Refuse(PairingRefusal::UnexpectedDecision)
            },
        }
    }

    /// Takes in what the other user decided.
    pub fn on_decision(&mut self, side: PairingSide, frame: Frame)
        requires
            old(self).step is AwaitDecision,
        ensures
            *final(self) == (Pairing { step: Self::after_decision(side, frame), ..*old(self) }),
    {
        let listens: bool = match side {
            PairingSide::Listener => true,
            _ => false,
        };
        self.step = match frame {
            Frame::Pairing(PairingEvent::Decision { accepted }) => {
                if accepted {
                    PairingStep::Pin
                } else {
                    PairingStep::Refuse(PairingRefusal::Declined)
                }
            },
            _ if listens => PairingStep::Refuse(PairingRefusal::Declined),
            Frame::Error(error) => PairingStep::Refuse(PairingRefusal::PeerError(error)),
            _ => PairingStep::Refuse(PairingRefusal::UnexpectedDecision),
        };
    }
}

/// What two sides of a pairing went through, seen from one of them.
pub ghost struct PairingHistory {
    pub side: PairingSide,
    pub trusted: bool,
    pub armed: bool,
    pub peer_confirms: bool,
    pub status: Frame,
    pub accepted: bool,
    pub decision: Frame,
}

impl PairingHistory {
    /// How it ended.
    pub open spec fn outcome(self) -> PairingStep {
        let begun = Pairing::beginning(self.trusted, self.armed, self.peer_confirms);
        if !(begun is AwaitStatus) {
            begun
        } else {
            let compared = (Pairing {
                trusted: self.trusted,
                armed: self.armed,
                step: begun,
            }).after_status(self.status);
            if !(compared is Confirm) {
                compared
            } else {
                let confirmed = Pairing::after_confirmed(self.accepted);
                if !(confirmed is AwaitDecision) {
                    confirmed
                } else {
                    Pairing::after_decision(self.side, self.decision)
                }
            }
        }
    }
}

/// No key is replaced until both computers approve: a key is kept only where
/// both sides asked for the pairing, the user of this side approved, and the
/// other side said that its user did.
pub proof fn law_key_is_kept_only_when_both_approve(history: PairingHistory)
    requires
        history.outcome() is Pin,
    ensures
        history.armed,
        history.status matches Frame::Pairing(PairingEvent::Status { armed, .. }) && armed,
        history.accepted,
        history.decision == Frame::Pairing(PairingEvent::Decision { accepted: true }),
{
}

/// Where both approve, the key is kept, on every side: both computers can
/// confirm, pairing was asked for on both, they do not know each other's keys
/// both already, and each user approves.
pub proof fn law_both_approvals_keep_the_key(history: PairingHistory)
    requires
        history.peer_confirms,
        history.armed,
        history.status matches Frame::Pairing(PairingEvent::Status { trusted, armed }) && armed
            && !(history.trusted && trusted),
        history.accepted,
        history.decision == Frame::Pairing(PairingEvent::Decision { accepted: true }),
    ensures
        history.outcome() == PairingStep::Pin,
{
}

/// How a pairing ends where it ends in no connection: each end comes of what
/// was missing, and of nothing else.
pub proof fn law_each_refusal_has_its_cause(history: PairingHistory)
    ensures
        ({
            let known = history.status matches Frame::Pairing(PairingEvent::Status { trusted, .. })
                && trusted && history.trusted;
            let asked_for = history.status matches Frame::Pairing(
                PairingEvent::Status { armed, .. },
            ) && armed && history.armed;
            let is_status = history.status matches Frame::Pairing(PairingEvent::Status { .. });
            let compares = history.peer_confirms && is_status && !known && asked_for;
            let approves = history.decision == Frame::Pairing(
                PairingEvent::Decision { accepted: true },
            );
            &&& history.outcome() == PairingStep::Refuse(PairingRefusal::UpdateRequired)
                <==> !history.peer_confirms && !history.trusted
            &&& history.outcome() == PairingStep::Refuse(PairingRefusal::NotArmed)
                <==> history.peer_confirms && is_status && !known && !asked_for
            &&& history.outcome() == PairingStep::Refuse(PairingRefusal::Cancelled) <==> compares
                && !history.accepted
            &&& history.outcome() == PairingStep::Pin <==> compares && history.accepted && approves
            &&& history.outcome() == PairingStep::Refuse(PairingRefusal::Declined) <==> compares
                && history.accepted && (if history.side == PairingSide::Listener {
                !approves
            } else {
                history.decision == Frame::Pairing(PairingEvent::Decision { accepted: false })
            })
            &&& history.outcome() == PairingStep::Trusted <==> if history.peer_confirms {
                known
            } else {
                history.trusted
            }
        }),
{
}

/// Two computers that hear each other out come to the same: both connect as
/// known ones, or both keep the other's key, or neither does either. They keep
/// the keys exactly where both sides asked for it and both users approve, and
/// not both keys were known.
pub proof fn law_both_sides_come_to_the_same(one: PairingHistory, other: PairingHistory)
    requires
        one.peer_confirms,
        other.peer_confirms,
        Some(one.status) == Pairing::greeting(other.trusted, other.armed, true),
        Some(other.status) == Pairing::greeting(one.trusted, one.armed, true),
        one.decision == Pairing::decided(other.accepted),
        other.decision == Pairing::decided(one.accepted),
    ensures
        one.outcome() is Pin <==> other.outcome() is Pin,
        one.outcome() is Trusted <==> other.outcome() is Trusted,
        one.outcome() is Trusted <==> one.trusted && other.trusted,
        one.outcome() is Pin <==> !(one.trusted && other.trusted) && one.armed && other.armed
            && one.accepted && other.accepted,
{
}

/// Known computers are not asked about: where each side knows the other's key,
/// a connection goes on without anybody's approval and nothing is kept anew.
pub proof fn law_known_computers_reconnect(history: PairingHistory)
    requires
        history.trusted,
        history.peer_confirms ==> (history.status matches Frame::Pairing(
            PairingEvent::Status { trusted, .. },
        ) && trusted),
    ensures
        history.outcome() is Trusted,
{
}

/// A computer whose key is not known here is never connected to without an
/// approval here.
pub proof fn law_unknown_key_needs_approval(history: PairingHistory)
    requires
        !history.trusted,
        history.outcome() is Trusted || history.outcome() is Pin,
    ensures
        history.armed && history.accepted,
{
}

/// A listener tells its user that the other one declined, whatever came in
/// place of an approval.
pub proof fn law_listener_takes_no_approval_as_declined(frame: Frame)
    requires
        frame != Frame::Pairing(PairingEvent::Decision { accepted: true }),
    ensures
        Pairing::after_decision(PairingSide::Listener, frame) == PairingStep::Refuse(
            PairingRefusal::Declined,
        ),
{
}

impl PairingSide {
    /// What the side calls the other one in a message.
    pub open spec fn other(self) -> Other {
        match self {
            PairingSide::Windows => Other::Receiver,
            _ => Other::Peer,
        }
    }

    fn other_side(self) -> (other: Other)
        ensures
            other == self.other(),
    {
        match self {
            PairingSide::Windows => Other::Receiver,
            _ => Other::Peer,
        }
    }
}

impl PairingRefusal {
    /// What the user is told.
    pub open spec fn words(self, side: PairingSide) -> Seq<char> {
        match self {
            PairingRefusal::UpdateRequired => match side {
                PairingSide::Windows =>
                    "the laptop does not support two-sided pairing confirmation; update it before replacing its key"@,
                _ => "peer does not support two-sided pairing confirmation; update it first"@,
            },
            PairingRefusal::NotArmed => match side {
                PairingSide::Connector => "pairing needs approval on both computers"@,
                PairingSide::Listener =>
                    "pairing must be enabled from the tray on both computers before connecting"@,
                PairingSide::Windows =>
                    "pairing needs approval on both computers; choose the pairing action in both tray menus"@,
            },
            PairingRefusal::Cancelled => match side {
                PairingSide::Connector => "pairing was not approved on both computers"@,
                _ => "pairing was cancelled on this computer"@,
            },
            PairingRefusal::Declined => match side {
                PairingSide::Connector => "pairing was not approved on both computers"@,
                PairingSide::Listener => "pairing was declined on the peer"@,
                PairingSide::Windows => "pairing was declined on the laptop"@,
            },
            PairingRefusal::PeerError(error) => side.other().word() + " error: "@ + error.code@
                + ": "@ + error.message@,
            PairingRefusal::UnexpectedStatus => "expected "@ + side.other().word()
                + " pairing status"@,
            PairingRefusal::UnexpectedDecision => "expected "@ + side.other().word()
                + " pairing decision"@,
        }
    }

    /// What the user is told.
    pub fn text(&self, side: PairingSide) -> (text: String)
        ensures
            text@ == self.words(side),
    {
        match self {
            PairingRefusal::UpdateRequired => match side {
                PairingSide::Windows =>
                    "the laptop does not support two-sided pairing confirmation; update it before replacing its key".to_owned(),
                _ => "peer does not support two-sided pairing confirmation; update it first".to_owned(),
            },
            PairingRefusal::NotArmed => match side {
                PairingSide::Connector => "pairing needs approval on both computers".to_owned(),
                PairingSide::Listener =>
                    "pairing must be enabled from the tray on both computers before connecting".to_owned(),
                PairingSide::Windows =>
                    "pairing needs approval on both computers; choose the pairing action in both tray menus".to_owned(),
            },
            PairingRefusal::Cancelled => match side {
                PairingSide::Connector => "pairing was not approved on both computers".to_owned(),
                _ => "pairing was cancelled on this computer".to_owned(),
            },
            PairingRefusal::Declined => match side {
                PairingSide::Connector => "pairing was not approved on both computers".to_owned(),
                PairingSide::Listener => "pairing was declined on the peer".to_owned(),
                PairingSide::Windows => "pairing was declined on the laptop".to_owned(),
            },
            PairingRefusal::PeerError(error) => {
                let mut text: String = side.other_side().name().to_owned();
                text.append(" error: ");
                text.append(error.code.as_str());
                text.append(": ");
                text.append(error.message.as_str());
                text
            },
            PairingRefusal::UnexpectedStatus => {
                let mut text: String = "expected ".to_owned();
                text.append(side.other_side().name());
                text.append(" pairing status");
                text
            },
            PairingRefusal::UnexpectedDecision => {
                let mut text: String = "expected ".to_owned();
                text.append(side.other_side().name());
                text.append(" pairing decision");
                text
            },
        }
    }

    /// What the other side is told when this side refuses: one that connects
    /// declines what was not asked for, a listener says why it refuses.
    pub open spec fn is_told_by(self, side: PairingSide, frame: Option<Frame>) -> bool {
        match (self, side) {
            (PairingRefusal::NotArmed, PairingSide::Listener) => frame matches Some(
                Frame::Error(error),
            ) && error.code@ == "pairing_not_armed"@ && error.message@ == self.words(side),
            (PairingRefusal::NotArmed, _) => frame == Some(
                Frame::Pairing(PairingEvent::Decision { accepted: false }),
            ),
            (PairingRefusal::UpdateRequired, PairingSide::Listener) => frame matches Some(
                Frame::Error(error),
            ) && error.code@ == "pairing_update_required"@ && error.message@ == self.words(side),
            _ => frame is None,
        }
    }

    /// What the other side is told when this side refuses, if anything.
    pub fn frame(&self, side: PairingSide) -> (frame: Option<Frame>)
        ensures
            self.is_told_by(side, frame),
    {
        match (self, side) {
            (PairingRefusal::NotArmed, PairingSide::Listener) => Some(
                Frame::Error(
                    RemoteError {
                        code: "pairing_not_armed".to_owned(),
                        message: self.text(side),
                    },
                ),
            ),
            (PairingRefusal::NotArmed, _) => Some(
                Frame::Pairing(PairingEvent::Decision { accepted: false }),
            ),
            (PairingRefusal::UpdateRequired, PairingSide::Listener) => Some(
                Frame::Error(
                    RemoteError {
                        code: "pairing_update_required".to_owned(),
                        message: self.text(side),
                    },
                ),
            ),
            _ => None,
        }
    }
}

/// What a listener answers to an introduction that it refuses.
pub fn refuse_hello(problem: HelloProblem) -> (frame: Frame)
    ensures
        frame matches Frame::Error(error) && error.code@ == "invalid_hello"@ && error.message@
            == problem.words(Other::Peer),
{
    Frame::Error(
        RemoteError { code: "invalid_hello".to_owned(), message: problem.text(Other::Peer) },
    )
}

/// What the user is shown to compare.
#[derive(Clone, Debug, PartialEq, Eq)]
pub struct PairingPrompt {
    pub peer_name: String,
    pub peer_addr: Option<String>,
    pub local_fingerprint: String,
    pub peer_fingerprint: String,
    pub verification_code: String,
    pub previous_peer_fingerprint: Option<String>,
}

/// What the user is shown to compare.
pub fn pairing_prompt(
    peer_name: String,
    peer_addr: Option<String>,
    local_fingerprint: String,
    peer_fingerprint: String,
    previous_peer_fingerprint: Option<String>,
) -> (prompt: PairingPrompt)
    ensures
        prompt.peer_name == peer_name,
        prompt.peer_addr == peer_addr,
        prompt.local_fingerprint == local_fingerprint,
        prompt.peer_fingerprint == peer_fingerprint,
        prompt.previous_peer_fingerprint == previous_peer_fingerprint,
        prompt.verification_code@ == pairing_digits(local_fingerprint@, peer_fingerprint@),
{
    let verification_code: String = pairing_code(
        local_fingerprint.as_str(),
        peer_fingerprint.as_str(),
    );
    PairingPrompt {
        peer_name,
        peer_addr,
        local_fingerprint,
        peer_fingerprint,
        verification_code,
        previous_peer_fingerprint,
    }
}

/// What is waited for when a connection begins.
#[derive(Clone, Debug, PartialEq)]
pub enum Awaited<T> {
    /// It has come, or nothing will.
    Arrived(T),
    /// Something else has come: wait on.
    NotYet,
    Failed(RemoteError),
}

/// What a frame brings where an introduction is waited for.
pub open spec fn hello_in(frame: Frame) -> Awaited<Hello> {
    match frame {
        Frame::Hello(hello) => Awaited::Arrived(hello),
        Frame::Error(error) => Awaited::Failed(error),
        _ => Awaited::NotYet,
    }
}

/// The introduction of the other side, where a frame holds it.
pub fn await_hello(frame: Frame) -> (out: Awaited<Hello>)
    ensures
        out == hello_in(frame),
{
    match frame {
        Frame::Hello(hello) => Awaited::Arrived(hello),
        Frame::Error(error) => Awaited::Failed(error),
        _ => Awaited::NotYet,
    }
}

/// What a frame brings where the screens are waited for.
pub open spec fn screen_in(frame: Frame) -> Awaited<Option<crate::protocol::ScreenInfo>> {
    match frame {
        Frame::ScreenInfo(info) => Awaited::Arrived(Some(info)),
        Frame::Heartbeat(_) => Awaited::Arrived(None),
        Frame::Error(error) => Awaited::Failed(error),
        _ => Awaited::NotYet,
    }
}

/// The screens of the other side. A sign of life in their place says that it
/// does not know them.
pub fn await_screen(frame: Frame) -> (out: Awaited<Option<crate::protocol::ScreenInfo>>)
    ensures
        out == screen_in(frame),
{
    match frame {
        Frame::ScreenInfo(info) => Awaited::Arrived(Some(info)),
        Frame::Heartbeat(_) => Awaited::Arrived(None),
        Frame::Error(error) => Awaited::Failed(error),
        _ => Awaited::NotYet,
    }
}

/// What a computer with Windows knows of the other side when a session begins.
#[derive(Clone, Debug, PartialEq, Eq)]
pub struct InitialReceiverState {
    pub screen_info: Option<crate::protocol::ScreenInfo>,
    pub node_capabilities: Vec<NodeCapability>,
    pub extensions: Vec<String>,
}

impl InitialReceiverState {
    /// What the first introduction says.
    pub fn of(hello: Hello) -> (state: Self)
        ensures
            state == (InitialReceiverState {
                screen_info: None,
                node_capabilities: hello.node_capabilities,
                extensions: hello.extensions,
            }),
    {
        InitialReceiverState {
            screen_info: None,
            node_capabilities: hello.node_capabilities,
            extensions: hello.extensions,
        }
    }

    /// What is known after a frame, and whether that is all: another
    /// introduction replaces what the first one said, and the screens or a sign
    /// of life end the wait.
    pub open spec fn after(self, frame: Frame) -> (Self, Awaited<()>) {
        match frame {
            Frame::Hello(hello) => (
                InitialReceiverState {
                    node_capabilities: hello.node_capabilities,
                    extensions: hello.extensions,
                    ..self
                },
                Awaited::NotYet,
            ),
            Frame::ScreenInfo(info) => (
                InitialReceiverState { screen_info: Some(info), ..self },
                Awaited::Arrived(()),
            ),
            Frame::Heartbeat(_) => (self, Awaited::Arrived(())),
            Frame::Error(error) => (self, Awaited::Failed(error)),
            _ => (self, Awaited::NotYet),
        }
    }

    /// Takes in a frame of the other side.
    pub fn on_frame(&mut self, frame: Frame) -> (out: Awaited<()>)
        ensures
            (*final(self), out) == old(self).after(frame),
    {
        match frame {
            Frame::Hello(hello) => {
                self.node_capabilities = hello.node_capabilities;
                self.extensions = hello.extensions;
                Awaited::NotYet
            },
            Frame::ScreenInfo(info) => {
                self.screen_info = Some(info);
                Awaited::Arrived(())
            },
            Frame::Heartbeat(_) => Awaited::Arrived(()),
            Frame::Error(error) => Awaited::Failed(error),
            _ => Awaited::NotYet,
        }
    }
}

/// The output that is captured: the one that is configured for it, else the
/// one that input is put in at.
pub fn linux_capture_output(config: &AppConfig) -> (output: &str)
    ensures
        output@ == (if is_blank(config.input.capture.output@) {
            config.input.inject.output@
        } else {
            config.input.capture.output@
        }),
{
    if str_is_blank(config.input.capture.output.as_str()) {
        config.input.inject.output.as_str()
    } else {
        config.input.capture.output.as_str()
    }
}

/// Whether a computer is paired, as the settings show it.
#[derive(Clone, Debug)]
pub enum PairingUiState {
    Idle,
    Paired { peer_name: String, peer_fingerprint: String },
}

/// Whether this computer is paired: it is where it knows the key of its peer.
pub fn controller_pairing_state(config: &AppConfig) -> (state: PairingUiState)
    ensures
        is_blank(config.peer.pinned_fingerprint@) ==> state == PairingUiState::Idle,
        !is_blank(config.peer.pinned_fingerprint@) ==> state == (PairingUiState::Paired {
            peer_name: config.peer.name,
            peer_fingerprint: config.peer.pinned_fingerprint,
        }),
{
    if str_is_blank(config.peer.pinned_fingerprint.as_str()) {
        PairingUiState::Idle
    } else {
        PairingUiState::Paired {
            peer_name: config.peer.name.clone(),
            peer_fingerprint: config.peer.pinned_fingerprint.clone(),
        }
    }
}

/// What a connection is shown as.
pub fn connection_status(addr: &str, fingerprint: &str) -> (status: String)
    ensures
        status@ == "Connected to "@ + addr@ + " ("@ + fingerprint@ + ")"@,
{
    "Connected to ".to_owned().concat(addr).concat(" (").concat(fingerprint).concat(")")
}

/// A computer of this version that names the key that it has shown is let in,
/// and no other; what is wrong with another version comes first.
pub proof fn law_only_fitting_computers_are_let_in(hello: Hello, shown: Seq<char>)
    ensures
        hello_problem(hello, shown) is None <==> hello.protocol_version == PROTOCOL_VERSION
            && hello.public_key_fingerprint@ == shown,
        hello_problem(hello, shown) == Some(HelloProblem::Version(hello.protocol_version))
            <==> hello.protocol_version != PROTOCOL_VERSION,
{
}

/// What a computer says that it can do is what it is taken to be able to: each
/// ability is there exactly where the computer lists it.
pub proof fn law_listed_abilities_count(hello: Hello, i: int, j: int)
    requires
        0 <= i < hello.node_capabilities@.len(),
        0 <= j < hello.extensions@.len(),
    ensures
        hello.node_capabilities@[i] == NodeCapability::AudioPlaybackV1 ==> support_of(
            hello,
        ).audio_playback,
        hello.node_capabilities@[i] == NodeCapability::AudioCaptureV1 ==> support_of(
            hello,
        ).audio_capture,
        hello.node_capabilities@[i] == NodeCapability::InputCaptureV1 ==> support_of(
            hello,
        ).input_capture,
        hello.node_capabilities@[i] == NodeCapability::InputInjectV1 ==> support_of(
            hello,
        ).input_injection,
        hello.node_capabilities@[i] == NodeCapability::RoleSwitchV1 ==> support_of(
            hello,
        ).role_switch,
        hello.extensions@[j]@ == AUDIO_ROUTE_EXTENSION@ ==> support_of(hello).audio_route,
        hello.extensions@[j]@ == INPUT_TOGGLE_EXTENSION@ ==> support_of(hello).input_toggle,
        hello.extensions@[j]@ == CLIPBOARD_IMAGE_EXTENSION@ ==> support_of(hello).images,
        support_of(hello).role_switch ==> exists|k: int|
            0 <= k < hello.node_capabilities@.len() && hello.node_capabilities@[k]
                == NodeCapability::RoleSwitchV1,
        support_of(hello).images ==> exists|k: int|
            0 <= k < hello.extensions@.len() && (#[trigger] hello.extensions@[k])@
                == CLIPBOARD_IMAGE_EXTENSION@,
{
    assert(hello.node_capabilities@.contains(hello.node_capabilities@[i]));
    if support_of(hello).role_switch {
        let k = hello.node_capabilities@.index_of(NodeCapability::RoleSwitchV1);
        assert(hello.node_capabilities@[k] == NodeCapability::RoleSwitchV1);
    }
}

/// A connection is tried where there is a host and its key is pinned, or where
/// pairing is armed; never without a host.
pub proof fn law_connection_is_tried_where_it_can_be(
    host: Seq<char>,
    pinned: Seq<char>,
    pairing_armed: bool,
)
    ensures
        connect_problem(host, pinned, pairing_armed) is None <==> !is_blank(host) && (pinned.len()
            > 0 || pairing_armed),
        is_blank(host) ==> connect_problem(host, pinned, pairing_armed) == Some(
            ConnectProblem::HostRequired,
        ),
{
}

/// Only the pinned key is trusted; one that is not is gone on with only while
/// pairing.
pub proof fn law_only_the_pinned_key_is_trusted(
    pinned: Seq<char>,
    peer: Seq<char>,
    pairing_armed: bool,
)
    requires
        peer.len() > 0,
    ensures
        trust_in(peer, peer, pairing_armed) == Ok::<bool, ConnectProblem>(true),
        pinned != peer && pairing_armed ==> trust_in(pinned, peer, pairing_armed) == Ok::<
            bool,
            ConnectProblem,
        >(false),
        pinned != peer && !pairing_armed ==> trust_in(pinned, peer, pairing_armed) == Err::<
            bool,
            ConnectProblem,
        >(ConnectProblem::NotPaired),
{
}

/// A frame that is waited for ends the wait with what it brought, a failure of
/// the other side ends it too, and another introduction is taken over.
pub proof fn law_first_frames_are_taken_in(
    state: InitialReceiverState,
    hello: Hello,
    info: crate::protocol::ScreenInfo,
    beat: crate::protocol::Heartbeat,
    error: RemoteError,
)
    ensures
        state.after(Frame::ScreenInfo(info)).0.screen_info == Some(info),
        state.after(Frame::ScreenInfo(info)).1 == Awaited::Arrived(()),
        state.after(Frame::Heartbeat(beat)) == (state, Awaited::Arrived(())),
        state.after(Frame::Error(error)) == (state, Awaited::<()>::Failed(error)),
        state.after(Frame::Hello(hello)).1 == Awaited::<()>::NotYet,
        state.after(Frame::Hello(hello)).0 == (InitialReceiverState {
            screen_info: state.screen_info,
            node_capabilities: hello.node_capabilities,
            extensions: hello.extensions,
        }),
{
}

/// A refusal is told so that the other side ends as well: one that connects
/// declines what was not asked for, and a listener says why.
pub proof fn law_refusal_is_told(side: PairingSide, frame: Option<Frame>)
    ensures
        PairingRefusal::NotArmed.is_told_by(side, frame) ==> frame is Some,
        PairingRefusal::NotArmed.is_told_by(side, frame) && side != PairingSide::Listener
            ==> Pairing::after_decision(PairingSide::Listener, frame->Some_0)
            == PairingStep::Refuse(PairingRefusal::Declined),
        PairingRefusal::NotArmed.is_told_by(side, frame) && side == PairingSide::Listener ==> (
        frame matches Some(Frame::Error(error)) && error.code@ == "pairing_not_armed"@),
        PairingRefusal::UpdateRequired.is_told_by(side, frame) && side == PairingSide::Listener
            ==> (frame matches Some(Frame::Error(error)) && error.code@
            == "pairing_update_required"@),
        PairingRefusal::Cancelled.is_told_by(side, frame) ==> frame is None,
        PairingRefusal::Declined.is_told_by(side, frame) ==> frame is None,
{
}

/// While nothing is paired, a pinned key is held to; while pairing, any key may
/// be shown, and the user is told where it takes the place of another.
pub proof fn law_pinned_key_is_held_to(pinned: Seq<char>, peer: Seq<char>)
    requires
        pinned.len() > 0,
    ensures
        is_expected(pinned, false),
        !is_expected(pinned, true),
        !is_expected(Seq::empty(), false),
        is_replaced(pinned, peer) <==> pinned != peer,
        !is_replaced(Seq::empty(), peer),
        !is_replaced(pinned, pinned),
{
}

/// The pointer leaves over the side that the peer stands at.
pub proof fn law_edge_is_where_the_peer_stands(position: PeerPosition, edge: Edge)
    ensures
        edge_at(position) == edge <==> (position == PeerPosition::Left && edge == Edge::Left
            || position == PeerPosition::Right && edge == Edge::Right || position
            == PeerPosition::Top && edge == Edge::Top || position == PeerPosition::Bottom && edge
            == Edge::Bottom),
{
}

/// What is waited for is taken as it came, a failure of the other side ends the
/// wait, and anything else is waited past.
pub proof fn law_waits_end_with_what_they_wait_for(frame: Frame)
    ensures
        hello_in(frame) is Arrived <==> frame is Hello,
        frame matches Frame::Hello(hello) ==> hello_in(frame) == Awaited::Arrived(hello),
        hello_in(frame) is Failed <==> frame is Error,
        frame matches Frame::Error(error) ==> hello_in(frame) == Awaited::<Hello>::Failed(error),
        screen_in(frame) is Arrived <==> frame is ScreenInfo || frame is Heartbeat,
        frame matches Frame::ScreenInfo(info) ==> screen_in(frame) == Awaited::Arrived(Some(info)),
        frame is Heartbeat ==> screen_in(frame) == Awaited::Arrived(
            None::<crate::protocol::ScreenInfo>,
        ),
        screen_in(frame) is Failed <==> frame is Error,
{
}

} // verus!
