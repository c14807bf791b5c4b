//! Playing input through libei.

use crate::held::{ascending, held_after, lemma_ascending_lists_all, HeldCodes};
use crate::injection::{
    button_code, mouse_button_code, DeviceCapability, LinuxInputError, LIBEI_PKG_CONFIG,
};
use crate::protocol::{F64Bits, InputEvent, MouseButton};
use crate::session::{lemma_holds_empty, lemma_holds_push, EffectList};
use crate::text::{trim, trimmed};
use std::collections::BTreeSet;
use vstd::prelude::*;

verus! {

broadcast use vstd::laws_cmp::group_laws_cmp;

/// Whether libei is installed, and in which version.
#[derive(Clone, Debug)]
pub struct LibeiBackend {
    available: bool,
    version: Option<String>,
    connected: bool,
}

impl LibeiBackend {
    /// Whether libei is installed.
    pub closed spec fn has_libei(self) -> bool {
        self.available
    }

    /// The version that is installed.
    pub closed spec fn installed_version(self) -> Option<Seq<char>> {
        match self.version {
            Some(version) => Some(version@),
            None => None,
        }
    }

    /// Whether a sender stands behind it.
    pub closed spec fn has_sender(self) -> bool {
        self.connected
    }

    /// What was found, given what the lookup printed where it succeeded.
    pub fn probe(printed: Option<String>) -> (backend: Self)
        ensures
            backend.installed_version() == (match printed {
                Some(text) if trimmed(text@).len() > 0 => Some(trimmed(text@)),
                _ => None,
            }),
            backend.has_libei() == (backend.installed_version() is Some),
            !backend.has_sender(),
    {
        let version = match printed {
            Some(text) => {
                let version = trim(text.as_str()).to_owned();
                if version.as_str().unicode_len() > 0 {
                    Some(version)
                } else {
                    None
                }
            },
            None => None,
        };
        LibeiBackend { available: version.is_some(), version, connected: false }
    }

    /// The backend once a sender stands behind it; refused where libei is not installed.
    pub fn connect(self) -> (connected: Result<Self, LinuxInputError>)
        ensures
            !self.has_libei() ==> (connected matches Err(
                LinuxInputError::LibeiUnavailable { pkg_config },
            ) && pkg_config@ == LIBEI_PKG_CONFIG@),
            self.has_libei() ==> (connected matches Ok(backend) && backend.has_libei()
                && backend.has_sender() && backend.installed_version()
                == self.installed_version()),
    {
        if !self.available {
            return Err(LinuxInputError::LibeiUnavailable { pkg_config: LIBEI_PKG_CONFIG });
        }
        Ok(LibeiBackend { available: true, version: self.version, connected: true })
    }

    /// Whether libei is installed.
    pub fn is_available(&self) -> (available: bool)
        ensures
            available == self.has_libei(),
    {
        self.available
    }

    /// The name by which libei is looked up.
    pub fn pkg_config_name(&self) -> (name: &'static str)
        ensures
            name@ == LIBEI_PKG_CONFIG@,
    {
        LIBEI_PKG_CONFIG
    }

    /// The version that is installed.
    pub fn version(&self) -> (version: Option<&str>)
        ensures
            version is Some <==> self.installed_version() is Some,
            version matches Some(text) ==> Some(text@) == self.installed_version(),
    {
        match &self.version {
            Some(version) => Some(version.as_str()),
            None => None,
        }
    }

    /// Whether input can be played: not without libei, nor without a sender.
    pub fn may_inject(&self) -> (allowed: Result<(), LinuxInputError>)
        ensures
            !self.has_libei() ==> (allowed matches Err(
                LinuxInputError::LibeiUnavailable { pkg_config },
            ) && pkg_config@ == LIBEI_PKG_CONFIG@),
            self.has_libei() && !self.has_sender() ==> allowed == Err::<(), LinuxInputError>(
                LinuxInputError::LibeiNotConnected,
            ),
            self.has_libei() && self.has_sender() ==> allowed is Ok,
    {
        if !self.available {
            Err(LinuxInputError::LibeiUnavailable { pkg_config: LIBEI_PKG_CONFIG })
        } else if !self.connected {
            Err(LinuxInputError::LibeiNotConnected)
        } else {
            Ok(())
        }
    }
}

/// What a device can do.
#[derive(Clone, Copy, Debug, PartialEq, Eq, Structural)]
pub struct DeviceCapabilities {
    pub pointer: bool,
    pub button: bool,
    pub scroll: bool,
    pub keyboard: bool,
}

/// What the server reports.
#[derive(Clone, Copy, Debug, PartialEq, Eq, Structural)]
pub enum LibeiEvent {
    SeatAdded,
    DeviceAdded { device: usize, capabilities: DeviceCapabilities },
    DeviceResumed { device: usize },
    DevicePaused { device: usize },
    Other,
}

/// What to send to the server.
#[derive(Clone, Copy, Debug, PartialEq, Eq, Structural)]
pub enum LibeiRequest {
    /// Ask for the devices of the seat that was reported.
    BindSeat,
    /// Keep a device.
    Keep { device: usize },
    StartEmulating { device: usize, sequence: u32 },
    PointerMotion { device: usize, dx: F64Bits, dy: F64Bits },
    Button { device: usize, code: u16, pressed: bool },
    Scroll { device: usize, x: F64Bits, y: F64Bits },
    Key { device: usize, code: u16, pressed: bool },
    Frame { device: usize },
}

/// The devices of a server, and what is held on them.
#[derive(Debug)]
pub struct LibeiSender {
    pointer: Option<usize>,
    button: Option<usize>,
    scroll: Option<usize>,
    keyboard: Option<usize>,
    started: BTreeSet<usize>,
    pressed_keys: HeldCodes,
    pressed_buttons: HeldCodes,
    sequence: u32,
}

/// What is known of the devices of a server.
#[verifier::ext_equal]
pub struct LibeiState {
    pub pointer: Option<usize>,
    pub button: Option<usize>,
    pub scroll: Option<usize>,
    pub keyboard: Option<usize>,
    /// The devices that take input.
    pub started: Set<usize>,
    pub keys: Set<u16>,
    pub buttons: Set<u16>,
    /// The number of the next start.
    pub sequence: u32,
}

impl View for LibeiSender {
    type V = LibeiState;

    closed spec fn view(&self) -> LibeiState {
        LibeiState {
            pointer: self.pointer,
            button: self.button,
            scroll: self.scroll,
            keyboard: self.keyboard,
            started: self.started@,
            keys: self.pressed_keys@,
            buttons: self.pressed_buttons@,
            sequence: self.sequence,
        }
    }
}

/// Keys of a device going up.
pub open spec fn keys_up(device: usize, codes: Seq<u16>) -> Seq<LibeiRequest> {
    codes.map_values(|code: u16| LibeiRequest::Key { device, code, pressed: false })
}

/// Buttons of a device going up.
pub open spec fn buttons_up(device: usize, codes: Seq<u16>) -> Seq<LibeiRequest> {
    codes.map_values(|code: u16| LibeiRequest::Button { device, code, pressed: false })
}

fn push_keys_up(out: &mut Vec<LibeiRequest>, device: usize, codes: &Vec<u16>)
    ensures
        final(out)@ == old(out)@ + keys_up(device, codes@),
{
    let ghost before = out@;
    for i in 0..codes.len()
        invariant
            out@ == before + keys_up(device, codes@.take(i as int)),
    {
        out.push(LibeiRequest::Key { device, code: codes[i], pressed: false });
        assert(codes@.take(i + 1) == codes@.take(i as int).push(codes@[i as int]));
        assert(out@ == before + keys_up(device, codes@.take(i + 1)));
    }
    assert(codes@.take(codes@.len() as int) == codes@);
}

fn push_buttons_up(out: &mut Vec<LibeiRequest>, device: usize, codes: &Vec<u16>)
    ensures
        final(out)@ == old(out)@ + buttons_up(device, codes@),
{
    let ghost before = out@;
    for i in 0..codes.len()
        invariant
            out@ == before + buttons_up(device, codes@.take(i as int)),
    {
        out.push(LibeiRequest::Button { device, code: codes[i], pressed: false });
        assert(codes@.take(i + 1) == codes@.take(i as int).push(codes@[i as int]));
        assert(out@ == before + buttons_up(device, codes@.take(i + 1)));
    }
    assert(codes@.take(codes@.len() as int) == codes@);
}

/// The number of the start behind one: never zero.
pub open spec fn next_sequence(sequence: u32) -> u32 {
    if sequence == u32::MAX {
        1
    } else {
        (sequence + 1) as u32
    }
}

impl LibeiState {
    /// No device is known.
    pub open spec fn fresh() -> Self {
        LibeiState {
            pointer: None,
            button: None,
            scroll: None,
            keyboard: None,
            started: Set::empty(),
            keys: Set::empty(),
            buttons: Set::empty(),
            sequence: 1,
        }
    }

    /// Whether there is something to play input on.
    pub open spec fn ready(self) -> bool {
        self.pointer is Some || self.button is Some || self.keyboard is Some
    }

    /// After a device was started, where it was not.
    pub open spec fn after_start(self, before: Seq<LibeiRequest>, device: usize) -> (
        Self,
        Seq<LibeiRequest>,
    ) {
        if self.started.contains(device) {
            (self, before)
        } else {
            (
                LibeiState {
                    started: self.started.insert(device),
                    sequence: next_sequence(self.sequence),
                    ..self
                },
                before.push(LibeiRequest::StartEmulating { device, sequence: self.sequence }),
            )
        }
    }

    /// A new device takes every part that is open and that it can play.
    pub open spec fn registered(self, device: usize, can: DeviceCapabilities) -> Self {
        LibeiState {
            pointer: if self.pointer is None && can.pointer {
                Some(device)
            } else {
                self.pointer
            },
            button: if self.button is None && can.button {
                Some(device)
            } else {
                self.button
            },
            scroll: if self.scroll is None && can.scroll {
                Some(device)
            } else {
                self.scroll
            },
            keyboard: if self.keyboard is None && can.keyboard {
                Some(device)
            } else {
                self.keyboard
            },
            ..self
        }
    }

    /// After a report of the server.
    pub open spec fn after_event(self, event: LibeiEvent) -> (Self, Seq<LibeiRequest>) {
        let none = Seq::<LibeiRequest>::empty();
        match event {
            LibeiEvent::SeatAdded => (self, none.push(LibeiRequest::BindSeat)),
            LibeiEvent::DeviceAdded { device, capabilities } => (
                self.registered(device, capabilities),
                none.push_if(
                    self.pointer is None && capabilities.pointer,
                    LibeiRequest::Keep { device },
                ).push_if(
                    self.button is None && capabilities.button,
                    LibeiRequest::Keep { device },
                ).push_if(
                    self.scroll is None && capabilities.scroll,
                    LibeiRequest::Keep { device },
                ).push_if(
                    self.keyboard is None && capabilities.keyboard,
                    LibeiRequest::Keep { device },
                ),
            ),
            LibeiEvent::DeviceResumed { device } => self.after_start(none, device),
            LibeiEvent::DevicePaused { device } => (
                LibeiState { started: self.started.remove(device), ..self },
                none,
            ),
            LibeiEvent::Other => (self, none),
        }
    }

    /// The part that an event of the other computer needs, and the device that plays it.
    pub open spec fn part(self, event: InputEvent) -> Option<(DeviceCapability, Option<usize>)> {
        match event {
            InputEvent::PointerMotion { .. } => Some((DeviceCapability::Pointer, self.pointer)),
            InputEvent::PointerButton { .. } => Some((DeviceCapability::Button, self.button)),
            InputEvent::PointerWheel { .. } => Some((DeviceCapability::Scroll, self.scroll)),
            InputEvent::Key { .. } => Some((DeviceCapability::Keyboard, self.keyboard)),
            InputEvent::AllKeysUp => None,
        }
    }

    /// After an event was played on a device.
    pub open spec fn after_play(self, device: usize, event: InputEvent) -> (
        Self,
        Seq<LibeiRequest>,
    ) {
        let (started, out) = self.after_start(Seq::empty(), device);
        match event {
            InputEvent::PointerMotion { dx, dy } => (
                started,
                out.push(LibeiRequest::PointerMotion { device, dx, dy }).push(
                    LibeiRequest::Frame { device },
                ),
            ),
            InputEvent::PointerButton { button, down } => (
                LibeiState {
                    buttons: held_after(self.buttons, button_code(button), down),
                    ..started
                },
                out.push(
                    LibeiRequest::Button { device, code: button_code(button), pressed: down },
                ).push(LibeiRequest::Frame { device }),
            ),
            InputEvent::PointerWheel { x, y } => (
                started,
                out.push(LibeiRequest::Scroll { device, x, y }).push(
                    LibeiRequest::Frame { device },
                ),
            ),
            InputEvent::Key { evdev_code, down } => (
                LibeiState { keys: held_after(self.keys, evdev_code, down), ..started },
                out.push(LibeiRequest::Key { device, code: evdev_code, pressed: down }).push(
                    LibeiRequest::Frame { device },
                ),
            ),
            InputEvent::AllKeysUp => (started, out),
        }
    }

    /// After the keys were let go, where there is a keyboard.
    pub open spec fn after_keys_up(self) -> (Self, Seq<LibeiRequest>) {
        match self.keyboard {
            Some(device) => {
                let (started, out) = self.after_start(Seq::empty(), device);
                (
                    LibeiState { keys: Set::empty(), ..started },
                    (out + keys_up(device, ascending(self.keys))).push(
                        LibeiRequest::Frame { device },
                    ),
                )
            },
            None => (self, Seq::empty()),
        }
    }

    /// After the buttons were let go, where there are any.
    pub open spec fn after_buttons_up(self, before: Seq<LibeiRequest>) -> (
        Self,
        Seq<LibeiRequest>,
    ) {
        match self.button {
            Some(device) => {
                let (started, out) = self.after_start(before, device);
                (
                    LibeiState { buttons: Set::empty(), ..started },
                    (out + buttons_up(device, ascending(self.buttons))).push(
                        LibeiRequest::Frame { device },
                    ),
                )
            },
            None => (self, before),
        }
    }

    /// After everything was let go.
    pub open spec fn after_all_keys_up(self) -> (Self, Seq<LibeiRequest>) {
        let (keys, out) = self.after_keys_up();
        keys.after_buttons_up(out)
    }
}

impl LibeiSender {
    /// No device is known.
    pub fn new() -> (sender: Self)
        ensures
            sender@ == LibeiState::fresh(),
    {
        LibeiSender {
            pointer: None,
            button: None,
            scroll: None,
            keyboard: None,
            started: BTreeSet::new(),
            pressed_keys: HeldCodes::default(),
            pressed_buttons: HeldCodes::default(),
            sequence: 1,
        }
    }

    /// Whether there is something to play input on.
    pub fn is_ready(&self) -> (ready: bool)
        ensures
            ready == self@.ready(),
    {
        self.pointer.is_some() || self.button.is_some() || self.keyboard.is_some()
    }

    fn start(&mut self, out: &mut Vec<LibeiRequest>, device: usize)
        ensures
            (final(self)@, final(out)@) == old(self)@.after_start(old(out)@, device),
    {
        if self.started.insert(device) {
            let sequence: u32 = self.sequence;
            self.sequence = if sequence == u32::MAX {
                1
            } else {
                sequence + 1
            };
            out.push(LibeiRequest::StartEmulating { device, sequence });
        } else {
            assert(self.started@ == old(self).started@);
        }
    }

    fn register(&mut self, out: &mut Vec<LibeiRequest>, device: usize, can: DeviceCapabilities)
        ensures
            (final(self)@, old(out)@ + Seq::<LibeiRequest>::empty().push_if(
                old(self)@.pointer is None && can.pointer,
                LibeiRequest::Keep { device },
            ).push_if(
                old(self)@.button is None && can.button,
                LibeiRequest::Keep { device },
            ).push_if(
                old(self)@.scroll is None && can.scroll,
                LibeiRequest::Keep { device },
            ).push_if(
                old(self)@.keyboard is None && can.keyboard,
                LibeiRequest::Keep { device },
            )) == (old(self)@.registered(device, can), final(out)@),
    {
        if self.pointer.is_none() && can.pointer {
            self.pointer = Some(device);
            out.push(LibeiRequest::Keep { device });
        }
        if self.button.is_none() && can.button {
            self.button = Some(device);
            out.push(LibeiRequest::Keep { device });
        }
        if self.scroll.is_none() && can.scroll {
            self.scroll = Some(device);
            out.push(LibeiRequest::Keep { device });
        }
        if self.keyboard.is_none() && can.keyboard {
            self.keyboard = Some(device);
            out.push(LibeiRequest::Keep { device });
        }
    }

    /// Takes a report of the server.
    pub fn handle_event(&mut self, event: LibeiEvent) -> (out: Vec<LibeiRequest>)
        ensures
            (final(self)@, out@) == old(self)@.after_event(event),
    {
        let mut out: Vec<LibeiRequest> = Vec::new();
        match event {
            LibeiEvent::SeatAdded => out.push(LibeiRequest::BindSeat),
            LibeiEvent::DeviceAdded { device, capabilities } => {
                self.register(&mut out, device, capabilities);
            },
            LibeiEvent::DeviceResumed { device } => self.start(&mut out, device),
            LibeiEvent::DevicePaused { device } => {
                self.started.remove(&device);
            },
            LibeiEvent::Other => {},
        }
        out
    }

    fn play(&mut self, device: usize, event: InputEvent) -> (out: Vec<LibeiRequest>)
        ensures
            (final(self)@, out@) == old(self)@.after_play(device, event),
    {
        let mut out: Vec<LibeiRequest> = Vec::new();
        self.start(&mut out, device);
        match event {
            InputEvent::PointerMotion { dx, dy } => {
                out.push(LibeiRequest::PointerMotion { device, dx, dy });
                out.push(LibeiRequest::Frame { device });
            },
            InputEvent::PointerButton { button, down } => {
                let code: u16 = mouse_button_code(button);
                out.push(LibeiRequest::Button { device, code, pressed: down });
                out.push(LibeiRequest::Frame { device });
                self.pressed_buttons.update(code, down);
            },
            InputEvent::PointerWheel { x, y } => {
                out.push(LibeiRequest::Scroll { device, x, y });
                out.push(LibeiRequest::Frame { device });
            },
            InputEvent::Key { evdev_code, down } => {
                out.push(LibeiRequest::Key { device, code: evdev_code, pressed: down });
                out.push(LibeiRequest::Frame { device });
                self.pressed_keys.update(evdev_code, down);
            },
            InputEvent::AllKeysUp => {},
        }
        out
    }

    /// Plays an event; refused where no device plays the part. Devices are
    /// waited for before the refusal is reported.
    pub fn inject(&mut self, event: InputEvent) -> (out: Result<
        Vec<LibeiRequest>,
        DeviceCapability,
    >)
        ensures
            match old(self)@.part(event) {
                None => out matches Ok(requests) && (final(self)@, requests@)
                    == old(self)@.after_all_keys_up(),
                Some((capability, None)) => out == Err::<Vec<LibeiRequest>, DeviceCapability>(
                    capability,
                ) && final(self)@ == old(self)@,
                Some((capability, Some(device))) => out matches Ok(requests) && (
                    final(self)@,
                    requests@,
                ) == old(self)@.after_play(device, event),
            },
    {
        let (capability, device) = match event {
            InputEvent::PointerMotion { .. } => (DeviceCapability::Pointer, self.pointer),
            InputEvent::PointerButton { .. } => (DeviceCapability::Button, self.button),
            InputEvent::PointerWheel { .. } => (DeviceCapability::Scroll, self.scroll),
            InputEvent::Key { .. } => (DeviceCapability::Keyboard, self.keyboard),
            InputEvent::AllKeysUp => {
                return Ok(self.all_keys_up());
            },
        };
        match device {
            Some(device) => Ok(self.play(device, event)),
            None => Err(capability),
        }
    }

    /// Lets go of everything.
    pub fn all_keys_up(&mut self) -> (out: Vec<LibeiRequest>)
        ensures
            (final(self)@, out@) == old(self)@.after_all_keys_up(),
    {
        let mut out: Vec<LibeiRequest> = Vec::new();
        match self.keyboard {
            Some(device) => {
                self.start(&mut out, device);
                push_keys_up(&mut out, device, &self.pressed_keys.list());
                self.pressed_keys.clear();
                out.push(LibeiRequest::Frame { device });
            },
            None => {},
        }
        match self.button {
            Some(device) => {
                self.start(&mut out, device);
                push_buttons_up(&mut out, device, &self.pressed_buttons.list());
                self.pressed_buttons.clear();
                out.push(LibeiRequest::Frame { device });
            },
            None => {},
        }
        out
    }
}

/// Input goes only to devices that were started: what plays an event starts
/// the device first, where it was not.
pub proof fn law_devices_are_started_first(state: LibeiState, device: usize, event: InputEvent)
    ensures
        state.after_play(device, event).0.started.contains(device),
        !state.started.contains(device) ==> state.after_play(device, event).1[0]
            == (LibeiRequest::StartEmulating { device, sequence: state.sequence }),
        !state.started.contains(device) ==> state.after_play(device, event).0.sequence
            != state.sequence,
{
}

/// The numbers of starts are never zero.
pub proof fn law_start_numbers_are_not_zero(
    state: LibeiState,
    event: LibeiEvent,
    device: usize,
    input: InputEvent,
)
    requires
        state.sequence != 0,
    ensures
        state.after_event(event).0.sequence != 0,
        state.after_play(device, input).0.sequence != 0,
        state.after_all_keys_up().0.sequence != 0,
{
}

/// A part that a device plays stays with it.
pub proof fn law_parts_are_given_once(state: LibeiState, event: LibeiEvent)
    ensures
        state.pointer is Some ==> state.after_event(event).0.pointer == state.pointer,
        state.button is Some ==> state.after_event(event).0.button == state.button,
        state.scroll is Some ==> state.after_event(event).0.scroll == state.scroll,
        state.keyboard is Some ==> state.after_event(event).0.keyboard == state.keyboard,
{
}

/// Letting go of everything leaves no key held on a keyboard, and no button
/// held on a pointer.
pub proof fn law_libei_lets_everything_go(state: LibeiState)
    ensures
        state.keyboard is Some ==> state.after_all_keys_up().0.keys == Set::<u16>::empty(),
        state.button is Some ==> state.after_all_keys_up().0.buttons == Set::<u16>::empty(),
{
}

/// What the helper library reports while a session of the desktop is set up.
#[derive(Clone, Debug)]
pub enum OeffisEvent {
    Nothing,
    ConnectedToEis,
    Closed,
    /// The session was lost, with the words for it where there are any.
    Disconnected(Option<String>),
    Other,
}

/// What a report of the helper library calls for.
#[derive(Clone, Debug)]
pub enum OeffisStep {
    /// Wait for more to come.
    Wait,
    /// Take the next report.
    Next,
    Connected,
    Failed(LinuxInputError),
}

/// Takes a report of the helper library.
pub fn oeffis_step(event: OeffisEvent) -> (step: OeffisStep)
    ensures
        match event {
            OeffisEvent::Nothing => step is Wait,
            OeffisEvent::Other => step is Next,
            OeffisEvent::ConnectedToEis => step is Connected,
            OeffisEvent::Closed => step matches OeffisStep::Failed(
                LinuxInputError::LibeiInit(text),
            ) && text@ == "RemoteDesktop portal session was closed"@,
            OeffisEvent::Disconnected(words) => step matches OeffisStep::Failed(
                LinuxInputError::LibeiInit(text),
            ) && text@ == (match words {
                Some(words) => words@,
                None => "RemoteDesktop portal disconnected"@,
            }),
        },
{
    match event {
        OeffisEvent::Nothing => OeffisStep::Wait,
        OeffisEvent::Other => OeffisStep::Next,
        OeffisEvent::ConnectedToEis => OeffisStep::Connected,
        OeffisEvent::Closed => OeffisStep::Failed(
            LinuxInputError::LibeiInit("RemoteDesktop portal session was closed".to_owned()),
        ),
        OeffisEvent::Disconnected(words) => OeffisStep::Failed(
            LinuxInputError::LibeiInit(
                match words {
                    Some(words) => words,
                    None => "RemoteDesktop portal disconnected".to_owned(),
                },
            ),
        ),
    }
}

/// Every event is played on the device that has its part: a move, a button by
/// its code, a turn, a key; it is closed by the end of its group, and what is
/// down counts as held.
pub proof fn law_libei_plays_each_event(state: LibeiState, event: InputEvent)
    ensures
        state.part(event) == (match event {
            InputEvent::PointerMotion { .. } => Some((DeviceCapability::Pointer, state.pointer)),
            InputEvent::PointerButton { .. } => Some((DeviceCapability::Button, state.button)),
            InputEvent::PointerWheel { .. } => Some((DeviceCapability::Scroll, state.scroll)),
            InputEvent::Key { .. } => Some((DeviceCapability::Keyboard, state.keyboard)),
            InputEvent::AllKeysUp => None,
        }),
        state.part(event) matches Some((_, Some(device))) ==> ({
            let (after, requests) = state.after_play(device, event);
            let n = requests.len();
            &&& n == if state.started.contains(device) {
                2int
            } else {
                3
            }
            &&& requests[n - 1] == (LibeiRequest::Frame { device })
            &&& after.started.contains(device)
            &&& match event {
                InputEvent::PointerMotion { dx, dy } => requests[n - 2]
                    == (LibeiRequest::PointerMotion { device, dx, dy }) && after.keys == state.keys
                    && after.buttons == state.buttons,
                InputEvent::PointerWheel { x, y } => requests[n - 2] == (LibeiRequest::Scroll {
                    device,
                    x,
                    y,
                }) && after.keys == state.keys && after.buttons == state.buttons,
                InputEvent::PointerButton { button, down } => {
                    let code = match button {
                        MouseButton::Left => 0x110,
                        MouseButton::Right => 0x111,
                        MouseButton::Middle => 0x112,
                        MouseButton::Back => 0x116,
                        MouseButton::Forward => 0x115,
                    };
                    &&& requests[n - 2] == (LibeiRequest::Button { device, code, pressed: down })
                    &&& after.buttons.contains(code) == down
                    &&& after.keys == state.keys
                },
                InputEvent::Key { evdev_code, down } => {
                    &&& requests[n - 2] == (LibeiRequest::Key {
                        device,
                        code: evdev_code,
                        pressed: down,
                    })
                    &&& after.keys.contains(evdev_code) == down
                    &&& after.buttons == state.buttons
                },
                InputEvent::AllKeysUp => true,
            }
        }),
{
}

/// A release of all keys lets go of every key that is held, on the keyboard,
/// and of every button, on the device for buttons.
pub proof fn law_libei_releases_what_is_held(state: LibeiState, code: u16)
    ensures
        state.keyboard matches Some(device) ==> state.keys.contains(code)
            ==> state.after_all_keys_up().1.contains(
            LibeiRequest::Key { device, code, pressed: false },
        ),
        state.button matches Some(device) ==> state.buttons.contains(code)
            ==> state.after_all_keys_up().1.contains(
            LibeiRequest::Button { device, code, pressed: false },
        ),
{
    lemma_ascending_lists_all(state.keys, 0x1_0000, code);
    lemma_ascending_lists_all(state.buttons, 0x1_0000, code);
    let (keys, released) = state.after_keys_up();
    let (_, all) = state.after_all_keys_up();
    if state.keyboard is Some && state.keys.contains(code) {
        let device = state.keyboard->Some_0;
        let list = ascending(state.keys);
        let i = list.index_of(code);
        let (_, out) = state.after_start(Seq::empty(), device);
        assert(released[out.len() + i] == (LibeiRequest::Key { device, code, pressed: false }));
        assert(all[out.len() + i] == released[out.len() + i]);
    }
    if state.button is Some && state.buttons.contains(code) {
        let device = state.button->Some_0;
        let list = ascending(state.buttons);
        let i = list.index_of(code);
        let (_, out) = keys.after_start(released, device);
        assert(keys.buttons == state.buttons);
        assert(all[out.len() + i] == (LibeiRequest::Button { device, code, pressed: false }));
    }
}

/// A device takes each part that it can play and that no other has, and is kept
/// exactly where it takes one; a device that is resumed is started, and one
/// that is paused is not any more.
pub proof fn law_devices_take_their_parts(
    state: LibeiState,
    device: usize,
    capabilities: DeviceCapabilities,
)
    ensures
        ({
            let (after, requests) = state.after_event(
                LibeiEvent::DeviceAdded { device, capabilities },
            );
            let takes = |part: Option<usize>, can: bool| part is None && can;
            let any = takes(state.pointer, capabilities.pointer) || takes(
                state.button,
                capabilities.button,
            ) || takes(state.scroll, capabilities.scroll) || takes(
                state.keyboard,
                capabilities.keyboard,
            );
            &&& state.pointer is None ==> after.pointer == if capabilities.pointer {
                Some(device)
            } else {
                None
            }
            &&& state.button is None ==> after.button == if capabilities.button {
                Some(device)
            } else {
                None
            }
            &&& state.scroll is None ==> after.scroll == if capabilities.scroll {
                Some(device)
            } else {
                None
            }
            &&& state.keyboard is None ==> after.keyboard == if capabilities.keyboard {
                Some(device)
            } else {
                None
            }
            &&& requests.contains(LibeiRequest::Keep { device }) <==> any
            &&& after.started == state.started
        }),
        state.after_event(LibeiEvent::DeviceResumed { device }).0.started.contains(device),
        !state.started.contains(device) ==> state.after_event(
            LibeiEvent::DeviceResumed { device },
        ).1 =~= seq![LibeiRequest::StartEmulating { device, sequence: state.sequence }],
        !state.after_event(LibeiEvent::DevicePaused { device }).0.started.contains(device),
        state.after_event(LibeiEvent::SeatAdded).1 =~= seq![LibeiRequest::BindSeat],
{
    broadcast use {lemma_holds_push, lemma_holds_empty};

}

} // verus!
