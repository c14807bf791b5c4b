//! Playing the input of the other computer on this one.

use crate::held::{ascending, held_after, HeldCodes};
use crate::protocol::{F64Bits, InputEvent, MouseButton};
use crate::text::push_decimal;
use vstd::prelude::*;

verus! {

/// The name by which libei is looked up.
pub const LIBEI_PKG_CONFIG: &'static str = "libei-1.0";

/// The name by which the helper library of libei is looked up.
pub const LIBOEFFIS_PKG_CONFIG: &'static str = "liboeffis-1.0";

/// The highest key code that a virtual device offers.
pub const EVDEV_KEY_MAX: u16 = 0x2ff;

/// The key code of Caps Lock.
pub const KEY_CAPS_LOCK: u16 = 58;

/// What a virtual input device can do.
#[derive(Clone, Copy, Debug, PartialEq, Eq, Structural)]
pub enum DeviceCapability {
    Pointer,
    Button,
    Scroll,
    Keyboard,
}

impl DeviceCapability {
    /// Its name.
    pub open spec fn words(self) -> Seq<char> {
        match self {
            DeviceCapability::Pointer => "pointer"@,
            DeviceCapability::Button => "button"@,
            DeviceCapability::Scroll => "scroll"@,
            DeviceCapability::Keyboard => "keyboard"@,
        }
    }

    /// Its name.
    pub fn text(self) -> (text: &'static str)
        ensures
            text@ == self.words(),
    {
        match self {
            DeviceCapability::Pointer => "pointer",
            DeviceCapability::Button => "button",
            DeviceCapability::Scroll => "scroll",
            DeviceCapability::Keyboard => "keyboard",
        }
    }
}

/// Why input could not be played, or the desktop not be asked.
#[derive(Clone, Debug)]
pub enum LinuxInputError {
    LibeiUnavailable { pkg_config: &'static str },
    LibeiInit(String),
    LibeiNotConnected,
    LibeiUnsupportedPlatform,
    LibeiLockPoisoned,
    LibeiMissingDevice(DeviceCapability),
    HyprlandVirtualInputInit(String),
    HyprlandVirtualInputUnsupportedPlatform,
    HyprlandVirtualInputLockPoisoned,
    CommandFailed { program: String, message: String },
    Io(String),
    Json(String),
    ClipboardTooLarge { max_bytes: usize },
}

impl LinuxInputError {
    /// The words for it.
    pub open spec fn words(self) -> Seq<char> {
        match self {
            LinuxInputError::LibeiUnavailable { pkg_config } => pkg_config@
                + " is not available through pkg-config"@,
            LinuxInputError::LibeiInit(error) => "failed to initialize libei backend: "@ + error@,
            LinuxInputError::LibeiNotConnected => "libei backend is not connected"@,
            LinuxInputError::LibeiUnsupportedPlatform =>
                "libei backend is unavailable on this platform"@,
            LinuxInputError::LibeiLockPoisoned => "libei backend lock was poisoned"@,
            LinuxInputError::LibeiMissingDevice(capability) => "libei backend has no device for "@
                + capability.words(),
            LinuxInputError::HyprlandVirtualInputInit(error) =>
                "failed to initialize Hyprland virtual input backend: "@ + error@,
            LinuxInputError::HyprlandVirtualInputUnsupportedPlatform =>
                "Hyprland virtual input backend is unavailable on this platform"@,
            LinuxInputError::HyprlandVirtualInputLockPoisoned =>
                "Hyprland virtual input backend lock was poisoned"@,
            LinuxInputError::CommandFailed { program, message } => "command `"@ + program@
                + "` failed: "@ + message@,
            LinuxInputError::Io(error) => "io error: "@ + error@,
            LinuxInputError::Json(error) => "json error: "@ + error@,
            LinuxInputError::ClipboardTooLarge { max_bytes } =>
                "clipboard text exceeds configured max_bytes ("@ + crate::text::decimal(
                    max_bytes as nat,
                ) + ")"@,
        }
    }

    /// The words for it.
    pub fn text(self) -> (text: String)
        ensures
            text@ == self.words(),
    {
        match self {
            LinuxInputError::LibeiUnavailable { pkg_config } => pkg_config.to_owned().concat(
                " is not available through pkg-config",
            ),
            LinuxInputError::LibeiInit(error) =>
                "failed to initialize libei backend: ".to_owned().concat(error.as_str()),
            LinuxInputError::LibeiNotConnected => "libei backend is not connected".to_owned(),
            LinuxInputError::LibeiUnsupportedPlatform =>
                "libei backend is unavailable on this platform".to_owned(),
            LinuxInputError::LibeiLockPoisoned => "libei backend lock was poisoned".to_owned(),
            LinuxInputError::LibeiMissingDevice(capability) =>
                "libei backend has no device for ".to_owned().concat(capability.text()),
            LinuxInputError::HyprlandVirtualInputInit(error) =>
                "failed to initialize Hyprland virtual input backend: ".to_owned().concat(
                    error.as_str(),
                ),
            LinuxInputError::HyprlandVirtualInputUnsupportedPlatform =>
                "Hyprland virtual input backend is unavailable on this platform".to_owned(),
            LinuxInputError::HyprlandVirtualInputLockPoisoned =>
                "Hyprland virtual input backend lock was poisoned".to_owned(),
            LinuxInputError::CommandFailed { program, message } => "command `".to_owned().concat(
                program.as_str(),
            ).concat("` failed: ").concat(message.as_str()),
            LinuxInputError::Io(error) => "io error: ".to_owned().concat(error.as_str()),
            LinuxInputError::Json(error) => "json error: ".to_owned().concat(error.as_str()),
            LinuxInputError::ClipboardTooLarge { max_bytes } => {
                let mut text = "clipboard text exceeds configured max_bytes (".to_owned();
                push_decimal(&mut text, max_bytes as u64);
                text.concat(")")
            },
        }
    }
}

/// Whether text of some bytes goes to or from the clipboard: it does not where
/// the clipboard is not shared, and it must not where it is too long.
pub fn admit_clipboard_text(enabled: bool, max_bytes: usize, len: usize) -> (admitted: Result<
    bool,
    LinuxInputError,
>)
    ensures
        !enabled ==> admitted == Ok::<bool, LinuxInputError>(false),
        enabled && len <= max_bytes ==> admitted == Ok::<bool, LinuxInputError>(true),
        enabled && len > max_bytes ==> admitted == Err::<bool, LinuxInputError>(
            LinuxInputError::ClipboardTooLarge { max_bytes },
        ),
{
    if !enabled {
        Ok(false)
    } else if len > max_bytes {
        Err(LinuxInputError::ClipboardTooLarge { max_bytes })
    } else {
        Ok(true)
    }
}

/// The Linux code of a mouse button.
pub open spec fn button_code(button: MouseButton) -> u16 {
    match button {
        MouseButton::Left => 0x110,
        MouseButton::Right => 0x111,
        MouseButton::Middle => 0x112,
        MouseButton::Back => 0x116,
        MouseButton::Forward => 0x115,
    }
}

/// The Linux code of a mouse button.
pub fn mouse_button_code(button: MouseButton) -> (code: u16)
    ensures
        code == button_code(button),
{
    match button {
        MouseButton::Left => 0x110,
        MouseButton::Right => 0x111,
        MouseButton::Middle => 0x112,
        MouseButton::Back => 0x116,
        MouseButton::Forward => 0x115,
    }
}

/// Every mouse button that is captured on one computer is played as the same
/// button on the other, and the other way round.
pub proof fn law_buttons_keep_their_meaning(button: MouseButton, code: u32)
    ensures
        crate::capture::button_of(button_code(button) as u32) == Some(button),
        crate::capture::button_of(code) matches Some(found) ==> button_code(found) == code,
{
}

/// A key or a button of a virtual device going down or up.
#[derive(Clone, Copy, Debug, PartialEq, Eq, Structural)]
pub struct KeyChange {
    pub code: u16,
    pub down: bool,
}

/// The code going up.
pub open spec fn let_go(code: u16) -> KeyChange {
    KeyChange { code, down: false }
}

/// All codes going up.
pub open spec fn let_all_go(codes: Seq<u16>) -> Seq<KeyChange> {
    codes.map_values(|code: u16| let_go(code))
}

fn push_let_go(out: &mut Vec<KeyChange>, codes: &Vec<u16>)
    ensures
        final(out)@ == old(out)@ + let_all_go(codes@),
{
    let ghost before = out@;
    for i in 0..codes.len()
        invariant
            out@ == before + let_all_go(codes@.take(i as int)),
    {
        out.push(KeyChange { code: codes[i], down: false });
        assert(codes@.take(i + 1) == codes@.take(i as int).push(codes@[i as int]));
        assert(out@ == before + let_all_go(codes@.take(i + 1)));
    }
    assert(codes@.take(codes@.len() as int) == codes@);
}

/// What to send to a virtual device of the kernel.
#[derive(Clone, Debug)]
pub enum UinputRequest {
    /// Move the pointer by whole steps, and keep the rest for the next time.
    Motion { dx: F64Bits, dy: F64Bits },
    /// Turn the wheel by whole notches, and keep the rest for the next time.
    Wheel { x: F64Bits, y: F64Bits },
    /// Send these changes at once.
    Keys(Vec<KeyChange>),
}

/// A key that no virtual device offers.
#[derive(Clone, Copy, Debug, PartialEq, Eq, Structural)]
pub struct UnsupportedKey(pub u16);

/// What is held on a virtual device of the kernel.
#[derive(Debug)]
pub struct UinputKeys {
    pressed_keys: HeldCodes,
    pressed_buttons: HeldCodes,
}

/// What is held on a virtual device: the keys, and the buttons.
#[verifier::ext_equal]
pub struct HeldState {
    pub keys: Set<u16>,
    pub buttons: Set<u16>,
}

impl View for UinputKeys {
    type V = HeldState;

    closed spec fn view(&self) -> HeldState {
        HeldState { keys: self.pressed_keys@, buttons: self.pressed_buttons@ }
    }
}

impl HeldState {
    /// Whether a request puts an event in. A key that the device does not have
    /// cannot be.
    pub open spec fn is_put_in_by(
        self,
        event: InputEvent,
        request: Result<UinputRequest, UnsupportedKey>,
    ) -> bool {
        match event {
            InputEvent::PointerMotion { dx, dy } => request == Ok::<UinputRequest, UnsupportedKey>(
                UinputRequest::Motion { dx, dy },
            ),
            InputEvent::PointerWheel { x, y } => request == Ok::<UinputRequest, UnsupportedKey>(
                UinputRequest::Wheel { x, y },
            ),
            InputEvent::Key { evdev_code, .. } if evdev_code > EVDEV_KEY_MAX => request == Err::<
                UinputRequest,
                UnsupportedKey,
            >(UnsupportedKey(evdev_code)),
            _ => request matches Ok(UinputRequest::Keys(changes)) && changes@ == self.changes(
                event,
            ),
        }
    }

    /// Nothing is held.
    pub open spec fn none() -> Self {
        HeldState { keys: Set::empty(), buttons: Set::empty() }
    }

    /// What is held once an event was played.
    pub open spec fn after(self, event: InputEvent) -> Self {
        match event {
            InputEvent::PointerButton { button, down } => HeldState {
                buttons: held_after(self.buttons, button_code(button), down),
                ..self
            },
            InputEvent::Key { evdev_code, down } => HeldState {
                keys: held_after(self.keys, evdev_code, down),
                ..self
            },
            InputEvent::AllKeysUp => HeldState::none(),
            _ => self,
        }
    }

    /// The changes that an event calls for.
    pub open spec fn changes(self, event: InputEvent) -> Seq<KeyChange> {
        match event {
            InputEvent::PointerButton { button, down } => Seq::<KeyChange>::empty().push(
                KeyChange { code: button_code(button), down },
            ),
            InputEvent::Key { evdev_code, down } => Seq::<KeyChange>::empty().push(
                KeyChange { code: evdev_code, down },
            ),
            InputEvent::AllKeysUp => Seq::<KeyChange>::empty() + let_all_go(ascending(self.keys))
                + let_all_go(ascending(self.buttons)),
            _ => Seq::empty(),
        }
    }
}

impl UinputKeys {
    /// Nothing is held.
    pub fn new() -> (keys: Self)
        ensures
            keys@ == HeldState::none(),
    {
        UinputKeys { pressed_keys: HeldCodes::default(), pressed_buttons: HeldCodes::default() }
    }

    /// What to send for an event.
    pub fn request(&self, event: InputEvent) -> (request: Result<UinputRequest, UnsupportedKey>)
        ensures
            self@.is_put_in_by(event, request),
    {
        match event {
            InputEvent::PointerMotion { dx, dy } => Ok(UinputRequest::Motion { dx, dy }),
            InputEvent::PointerWheel { x, y } => Ok(UinputRequest::Wheel { x, y }),
            InputEvent::PointerButton { button, down } => {
                let mut changes: Vec<KeyChange> = Vec::new();
                changes.push(KeyChange { code: mouse_button_code(button), down });
                Ok(UinputRequest::Keys(changes))
            },
            InputEvent::Key { evdev_code, down } => {
                if evdev_code > EVDEV_KEY_MAX {
                    return Err(UnsupportedKey(evdev_code));
                }
                let mut changes: Vec<KeyChange> = Vec::new();
                changes.push(KeyChange { code: evdev_code, down });
                Ok(UinputRequest::Keys(changes))
            },
            InputEvent::AllKeysUp => {
                let mut changes: Vec<KeyChange> = Vec::new();
                push_let_go(&mut changes, &self.pressed_keys.list());
                push_let_go(&mut changes, &self.pressed_buttons.list());
                Ok(UinputRequest::Keys(changes))
            },
        }
    }

    /// Notes that what an event called for was sent. Where sending failed,
    /// nothing is noted, so that it is let go later.
    pub fn sent(&mut self, event: InputEvent)
        ensures
            final(self)@ == old(self)@.after(event),
    {
        match event {
            InputEvent::PointerButton { button, down } => self.pressed_buttons.update(
                mouse_button_code(button),
                down,
            ),
            InputEvent::Key { evdev_code, down } => self.pressed_keys.update(evdev_code, down),
            InputEvent::AllKeysUp => {
                self.pressed_keys.clear();
                self.pressed_buttons.clear();
            },
            _ => {},
        }
    }
}

/// Letting go of all keys lets go of every key and every button that is held,
/// of nothing else, and leaves nothing held.
pub proof fn law_all_keys_up_lets_everything_go(state: HeldState, code: u16)
    ensures
        state.changes(InputEvent::AllKeysUp).contains(let_go(code)) <==> state.keys.contains(code)
            || state.buttons.contains(code),
        state.after(InputEvent::AllKeysUp) == HeldState::none(),
        state.after(InputEvent::AllKeysUp).changes(InputEvent::AllKeysUp) == Seq::<
            KeyChange,
        >::empty(),
{
    let keys = ascending(state.keys);
    let buttons = ascending(state.buttons);
    let all = state.changes(InputEvent::AllKeysUp);
    crate::held::lemma_ascending_lists_all(state.keys, 0x1_0000, code);
    crate::held::lemma_ascending_lists_all(state.buttons, 0x1_0000, code);
    if all.contains(let_go(code)) {
        let i = choose|i: int| 0 <= i < all.len() && all[i] == let_go(code);
        if i < keys.len() {
            assert(keys[i] == code);
        } else {
            assert(buttons[i - keys.len()] == code);
        }
    }
    if state.keys.contains(code) {
        let i = choose|i: int| 0 <= i < keys.len() && keys[i] == code;
        assert(all[i] == let_go(code));
    }
    if state.buttons.contains(code) {
        let i = choose|i: int| 0 <= i < buttons.len() && buttons[i] == code;
        assert(all[keys.len() + i] == let_go(code));
    }
    let none = HeldState::none();
    assert forall|c: u16| !ascending(none.keys).contains(c) by {
        crate::held::lemma_ascending_lists_all(none.keys, 0x1_0000, c);
    }
    if ascending(none.keys).len() > 0 {
        assert(ascending(none.keys).contains(ascending(none.keys)[0]));
    }
    assert(none.changes(InputEvent::AllKeysUp) == Seq::<KeyChange>::empty());
}

/// The axis of a motion or of the wheel, as the kernel numbers it.
pub const REL_X: u16 = 0;

/// The vertical axis of a motion.
pub const REL_Y: u16 = 1;

/// The horizontal axis of the wheel.
pub const REL_HWHEEL: u16 = 6;

/// The vertical axis of the wheel.
pub const REL_WHEEL: u16 = 8;

/// The moves along two axes; an axis along which nothing moves is left out.
pub open spec fn moves(x_axis: u16, x: i32, y_axis: u16, y: i32) -> Seq<(u16, i32)> {
    let horizontal = if x != 0 {
        Seq::<(u16, i32)>::empty().push((x_axis, x))
    } else {
        Seq::empty()
    };
    if y != 0 {
        horizontal.push((y_axis, y))
    } else {
        horizontal
    }
}

/// The moves along two axes; an axis along which nothing moves is left out.
pub fn relative_moves(x_axis: u16, x: i32, y_axis: u16, y: i32) -> (out: Vec<(u16, i32)>)
    ensures
        out@ == moves(x_axis, x, y_axis, y),
{
    let mut out: Vec<(u16, i32)> = Vec::new();
    if x != 0 {
        out.push((x_axis, x));
    }
    if y != 0 {
        out.push((y_axis, y));
    }
    out
}

/// How many keys of each modifier are held, and whether Caps Lock is on.
#[derive(Clone, Copy, Debug, PartialEq, Eq, Structural)]
pub struct ModifierState {
    pub shift: u8,
    pub control: u8,
    pub alt: u8,
    pub logo: u8,
    pub caps_lock: bool,
}

/// A modifier that two keys stand for.
#[derive(Clone, Copy, Debug, PartialEq, Eq, Structural)]
pub enum Modifier {
    Shift,
    Control,
    Alt,
    Logo,
}

/// The modifier that a key stands for.
pub open spec fn modifier_of(evdev_code: u16) -> Option<Modifier> {
    match evdev_code {
        42 => Some(Modifier::Shift),
        54 => Some(Modifier::Shift),
        29 => Some(Modifier::Control),
        97 => Some(Modifier::Control),
        56 => Some(Modifier::Alt),
        100 => Some(Modifier::Alt),
        125 => Some(Modifier::Logo),
        126 => Some(Modifier::Logo),
        _ => None,
    }
}

fn modifier_for(evdev_code: u16) -> (modifier: Option<Modifier>)
    ensures
        modifier == modifier_of(evdev_code),
{
    match evdev_code {
        42 | 54 => Some(Modifier::Shift),
        29 | 97 => Some(Modifier::Control),
        56 | 100 => Some(Modifier::Alt),
        125 | 126 => Some(Modifier::Logo),
        _ => None,
    }
}

/// A count once one more key is held, or one fewer.
pub open spec fn counted(count: u8, down: bool) -> u8 {
    if down {
        if count == u8::MAX {
            count
        } else {
            (count + 1) as u8
        }
    } else if count == 0 {
        count
    } else {
        (count - 1) as u8
    }
}

fn count_key(count: u8, down: bool) -> (after: u8)
    ensures
        after == counted(count, down),
{
    if down {
        count.saturating_add(1)
    } else {
        count.saturating_sub(1)
    }
}

/// A bit that is set on a condition.
pub open spec fn bit_if(condition: bool, bit: u32) -> int {
    if condition {
        bit as int
    } else {
        0
    }
}

impl Default for ModifierState {
    /// No modifier is held, and Caps Lock is off.
    fn default() -> (state: Self)
        ensures
            state == ModifierState::none(),
    {
        ModifierState { shift: 0, control: 0, alt: 0, logo: 0, caps_lock: false }
    }
}

impl ModifierState {
    /// No modifier is held, and Caps Lock is off.
    pub open spec fn none() -> Self {
        ModifierState { shift: 0, control: 0, alt: 0, logo: 0, caps_lock: false }
    }

    /// How many keys of a modifier are held.
    pub open spec fn count(self, modifier: Modifier) -> u8 {
        match modifier {
            Modifier::Shift => self.shift,
            Modifier::Control => self.control,
            Modifier::Alt => self.alt,
            Modifier::Logo => self.logo,
        }
    }

    /// The state with another count.
    pub open spec fn with_count(self, modifier: Modifier, count: u8) -> Self {
        match modifier {
            Modifier::Shift => ModifierState { shift: count, ..self },
            Modifier::Control => ModifierState { control: count, ..self },
            Modifier::Alt => ModifierState { alt: count, ..self },
            Modifier::Logo => ModifierState { logo: count, ..self },
        }
    }

    /// The state after a key. Caps Lock turns over when it goes down; another
    /// modifier is counted, but for a key that repeats.
    pub open spec fn after(self, evdev_code: u16, down: bool, was_pressed: bool) -> Self {
        if evdev_code == KEY_CAPS_LOCK {
            if down && !was_pressed {
                ModifierState { caps_lock: !self.caps_lock, ..self }
            } else {
                self
            }
        } else if down && was_pressed {
            self
        } else {
            match modifier_of(evdev_code) {
                Some(modifier) => self.with_count(modifier, counted(self.count(modifier), down)),
                None => self,
            }
        }
    }

    /// Whether what applications see of the modifiers changes.
    pub open spec fn differs(self, other: Self) -> bool {
        self.caps_lock != other.caps_lock || self.depressed_mask() != other.depressed_mask()
    }

    /// The modifiers that are held, as bits.
    pub open spec fn depressed_mask(self) -> int {
        bit_if(self.shift > 0, 1) + bit_if(self.control > 0, 4) + bit_if(self.alt > 0, 8) + bit_if(
            self.logo > 0,
            64,
        )
    }

    /// The modifiers that are locked, as bits.
    pub open spec fn locked_mask(self) -> int {
        bit_if(self.caps_lock, 2)
    }

    /// No modifier is held; Caps Lock stays.
    pub open spec fn cleared(self) -> Self {
        ModifierState { shift: 0, control: 0, alt: 0, logo: 0, caps_lock: self.caps_lock }
    }

    /// Takes a key, and says whether what applications see of the modifiers changed.
    pub fn update(&mut self, evdev_code: u16, down: bool, was_pressed: bool) -> (changed: bool)
        ensures
            *final(self) == old(self).after(evdev_code, down, was_pressed),
            changed == old(self).differs(*final(self)),
    {
        if evdev_code == KEY_CAPS_LOCK {
            if down && !was_pressed {
                self.caps_lock = !self.caps_lock;
                return true;
            }
            return false;
        }
        if down && was_pressed {
            return false;
        }
        match modifier_for(evdev_code) {
            Some(Modifier::Shift) => {
                let previous: u8 = self.shift;
                self.shift = count_key(previous, down);
                (previous > 0) != (self.shift > 0)
            },
            Some(Modifier::Control) => {
                let previous: u8 = self.control;
                self.control = count_key(previous, down);
                (previous > 0) != (self.control > 0)
            },
            Some(Modifier::Alt) => {
                let previous: u8 = self.alt;
                self.alt = count_key(previous, down);
                (previous > 0) != (self.alt > 0)
            },
            Some(Modifier::Logo) => {
                let previous: u8 = self.logo;
                self.logo = count_key(previous, down);
                (previous > 0) != (self.logo > 0)
            },
            None => false,
        }
    }

    /// Forgets which modifiers are held, and says whether any was.
    pub fn clear_depressed(&mut self) -> (had_modifiers: bool)
        ensures
            *final(self) == old(self).cleared(),
            had_modifiers == (old(self).depressed_mask() != 0),
    {
        let had_modifiers = self.depressed() != 0;
        self.shift = 0;
        self.control = 0;
        self.alt = 0;
        self.logo = 0;
        had_modifiers
    }

    /// The modifiers that are held, as bits.
    pub fn depressed(&self) -> (mask: u32)
        ensures
            mask == self.depressed_mask(),
    {
        let mut mask: u32 = 0;
        if self.shift > 0 {
            mask = mask + 1;
        }
        if self.control > 0 {
            mask = mask + 4;
        }
        if self.alt > 0 {
            mask = mask + 8;
        }
        if self.logo > 0 {
            mask = mask + 64;
        }
        mask
    }

    /// The modifiers that are locked, as bits.
    pub fn locked(&self) -> (mask: u32)
        ensures
            mask == self.locked_mask(),
    {
        if self.caps_lock {
            2
        } else {
            0
        }
    }
}

/// How many of two keys are held.
pub open spec fn held_of(held: Set<u16>, left: u16, right: u16) -> int {
    bit_if(held.contains(left), 1) + bit_if(held.contains(right), 1)
}

/// Whether the counts are those of the keys that are held.
pub open spec fn counts_agree(modifiers: ModifierState, held: Set<u16>) -> bool {
    &&& modifiers.shift == held_of(held, 42, 54)
    &&& modifiers.control == held_of(held, 29, 97)
    &&& modifiers.alt == held_of(held, 56, 100)
    &&& modifiers.logo == held_of(held, 125, 126)
}

/// The counts of the modifiers stay those of the keys that are held, as long
/// as no key is let go that was not held; so a modifier shows until both of its
/// keys are up.
pub proof fn law_modifiers_follow_the_keys(
    modifiers: ModifierState,
    held: Set<u16>,
    evdev_code: u16,
    down: bool,
)
    requires
        counts_agree(modifiers, held),
        down || held.contains(evdev_code),
    ensures
        counts_agree(
            modifiers.after(evdev_code, down, held.contains(evdev_code)),
            held_after(held, evdev_code, down),
        ),
        counts_agree(modifiers.cleared(), Set::empty()),
{
}

/// Every event is put in as what it is: moves and turns as they came, a button
/// or a key as one change to the state that it came with, whatever is held. Only
/// a key that the device does not have is refused.
pub proof fn law_each_event_is_put_in(
    state: HeldState,
    event: InputEvent,
    request: Result<UinputRequest, UnsupportedKey>,
)
    requires
        state.is_put_in_by(event, request),
    ensures
        request is Err <==> (event matches InputEvent::Key { evdev_code, .. } && evdev_code
            > 0x2ff),
        event matches InputEvent::PointerMotion { dx, dy } ==> request == Ok::<
            UinputRequest,
            UnsupportedKey,
        >(UinputRequest::Motion { dx, dy }),
        event matches InputEvent::PointerWheel { x, y } ==> request == Ok::<
            UinputRequest,
            UnsupportedKey,
        >(UinputRequest::Wheel { x, y }),
        event matches InputEvent::Key { evdev_code, down } ==> evdev_code <= 0x2ff ==> (
        request matches Ok(UinputRequest::Keys(changes)) && changes@ =~= seq![
            KeyChange { code: evdev_code, down },
        ]),
        event matches InputEvent::PointerButton { button, down } ==> (
        request matches Ok(UinputRequest::Keys(changes)) && changes@ =~= seq![
            KeyChange {
                code: match button {
                    MouseButton::Left => 0x110,
                    MouseButton::Right => 0x111,
                    MouseButton::Middle => 0x112,
                    MouseButton::Back => 0x116,
                    MouseButton::Forward => 0x115,
                },
                down,
            },
        ]),
{
}

/// What was put in counts as held while it is down: a key among the keys, a
/// button among the buttons; moves and turns hold nothing.
pub proof fn law_what_is_down_is_held(state: HeldState, event: InputEvent, code: u16)
    ensures
        ({
            let after = state.after(event);
            match event {
                InputEvent::Key { evdev_code, down } => {
                    &&& after.buttons == state.buttons
                    &&& after.keys.contains(evdev_code) == down
                    &&& code != evdev_code ==> after.keys.contains(code) == state.keys.contains(
                        code,
                    )
                },
                InputEvent::PointerButton { button, down } => {
                    &&& after.keys == state.keys
                    &&& after.buttons.contains(button_code(button)) == down
                    &&& code != button_code(button) ==> after.buttons.contains(code)
                        == state.buttons.contains(code)
                },
                InputEvent::AllKeysUp => !after.keys.contains(code) && !after.buttons.contains(
                    code,
                ),
                _ => after == state,
            }
        }),
{
}

/// A move is made of its steps along each axis, sideways first; an axis along
/// which nothing moves is left out.
pub proof fn law_moves_keep_their_steps(x_axis: u16, x: i32, y_axis: u16, y: i32)
    ensures
        moves(x_axis, x, y_axis, y).len() == (if x != 0 {
            1int
        } else {
            0
        }) + (if y != 0 {
            1int
        } else {
            0
        }),
        x != 0 ==> moves(x_axis, x, y_axis, y)[0] == (x_axis, x),
        y != 0 ==> moves(x_axis, x, y_axis, y).last() == (y_axis, y),
{
}

/// What the desktop is told of the modifiers is what is held: each of the four
/// has its bit exactly while one of its two keys is down, and the lock of the
/// capitals turns with each press of its key.
pub proof fn law_modifier_bits_follow_the_keys(
    modifiers: ModifierState,
    held: Set<u16>,
    evdev_code: u16,
    down: bool,
)
    requires
        counts_agree(modifiers, held),
        down || held.contains(evdev_code),
    ensures
        ({
            let after = modifiers.after(evdev_code, down, held.contains(evdev_code));
            let now_held = |code: u16| if code == evdev_code { down } else { held.contains(code) };
            &&& after.depressed_mask() == bit_if(now_held(42) || now_held(54), 1) + bit_if(
                now_held(29) || now_held(97),
                4,
            ) + bit_if(now_held(56) || now_held(100), 8) + bit_if(
                now_held(125) || now_held(126),
                64,
            )
            &&& after.caps_lock == (modifiers.caps_lock != (evdev_code == 58 && down
                && !held.contains(58)))
            &&& after.locked_mask() == if after.caps_lock {
                2int
            } else {
                0
            }
        }),
{
    law_modifiers_follow_the_keys(modifiers, held, evdev_code, down);
}

} // verus!
