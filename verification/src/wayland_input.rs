//! Playing input through the virtual pointer and keyboard of a Wayland compositor.

use crate::held::{ascending, held_after, lemma_ascending_lists_all, HeldCodes};
use crate::injection::{button_code, mouse_button_code, ModifierState};
use crate::protocol::{F64Bits, InputEvent, MouseButton};
use crate::session::{lemma_holds_empty, lemma_holds_push, EffectList};
use vstd::prelude::*;

verus! {

/// What to send to the compositor.
#[derive(Clone, Copy, Debug, PartialEq, Eq, Structural)]
pub enum WaylandRequest {
    Motion { dx: F64Bits, dy: F64Bits },
    Button { code: u16, pressed: bool },
    HorizontalWheel(F64Bits),
    VerticalWheel(F64Bits),
    /// What was sent to the pointer belongs together.
    PointerFrame,
    Key { code: u16, pressed: bool },
    Modifiers { depressed: u32, locked: u32 },
}

/// Whether a double precision number is zero, of either sign.
pub open spec fn is_zero(number: F64Bits) -> bool {
    number.0 == 0 || number.0 == 0x8000_0000_0000_0000
}

fn number_is_zero(number: F64Bits) -> (zero: bool)
    ensures
        zero == is_zero(number),
{
    number.0 == 0 || number.0 == 0x8000_0000_0000_0000
}

/// What is held on the virtual devices.
#[derive(Debug)]
pub struct HyprlandVirtualInput {
    pressed_keys: HeldCodes,
    pressed_buttons: HeldCodes,
    modifiers: ModifierState,
}

/// What is held on the virtual devices: the keys, the buttons and the modifiers.
#[verifier::ext_equal]
pub struct WaylandHeld {
    pub keys: Set<u16>,
    pub buttons: Set<u16>,
    pub modifiers: ModifierState,
}

impl View for HyprlandVirtualInput {
    type V = WaylandHeld;

    closed spec fn view(&self) -> WaylandHeld {
        WaylandHeld {
            keys: self.pressed_keys@,
            buttons: self.pressed_buttons@,
            modifiers: self.modifiers,
        }
    }
}

/// Keys going up.
pub open spec fn keys_up(codes: Seq<u16>) -> Seq<WaylandRequest> {
    codes.map_values(|code: u16| WaylandRequest::Key { code, pressed: false })
}

/// Buttons going up.
pub open spec fn buttons_up(codes: Seq<u16>) -> Seq<WaylandRequest> {
    codes.map_values(|code: u16| WaylandRequest::Button { code, pressed: false })
}

fn push_keys_up(out: &mut Vec<WaylandRequest>, codes: &Vec<u16>)
    ensures
        final(out)@ == old(out)@ + keys_up(codes@),
{
    let ghost before = out@;
    for i in 0..codes.len()
        invariant
            out@ == before + keys_up(codes@.take(i as int)),
    {
        out.push(WaylandRequest::Key { code: codes[i], pressed: false });
        assert(codes@.take(i + 1) == codes@.take(i as int).push(codes@[i as int]));
        assert(out@ == before + keys_up(codes@.take(i + 1)));
    }
    assert(codes@.take(codes@.len() as int) == codes@);
}

fn push_buttons_up(out: &mut Vec<WaylandRequest>, codes: &Vec<u16>)
    ensures
        final(out)@ == old(out)@ + buttons_up(codes@),
{
    let ghost before = out@;
    for i in 0..codes.len()
        invariant
            out@ == before + buttons_up(codes@.take(i as int)),
    {
        out.push(WaylandRequest::Button { code: codes[i], pressed: false });
        assert(codes@.take(i + 1) == codes@.take(i as int).push(codes@[i as int]));
        assert(out@ == before + buttons_up(codes@.take(i + 1)));
    }
    assert(codes@.take(codes@.len() as int) == codes@);
}

impl WaylandHeld {
    /// Nothing is held; Caps Lock is off.
    pub open spec fn none() -> Self {
        WaylandHeld {
            keys: Set::empty(),
            buttons: Set::empty(),
            modifiers: ModifierState::none(),
        }
    }

    /// After a key.
    pub open spec fn after_key(self, code: u16, down: bool) -> (Self, Seq<WaylandRequest>) {
        let modifiers = self.modifiers.after(code, down, self.keys.contains(code));
        (
            WaylandHeld { keys: held_after(self.keys, code, down), modifiers, ..self },
            Seq::<WaylandRequest>::empty().push(
                WaylandRequest::Key { code, pressed: down },
            ).push_if(
                self.modifiers.differs(modifiers),
                WaylandRequest::Modifiers {
                    depressed: modifiers.depressed_mask() as u32,
                    locked: modifiers.locked_mask() as u32,
                },
            ),
        )
    }

    /// After everything was let go: the keys, the modifiers, then the buttons.
    pub open spec fn after_all_keys_up(self) -> (Self, Seq<WaylandRequest>) {
        let keys = Seq::<WaylandRequest>::empty() + keys_up(ascending(self.keys));
        let modifiers = keys.push_if(
            self.modifiers.depressed_mask() != 0,
            WaylandRequest::Modifiers {
                depressed: 0,
                locked: self.modifiers.locked_mask() as u32,
            },
        );
        (
            WaylandHeld {
                keys: Set::empty(),
                buttons: Set::empty(),
                modifiers: self.modifiers.cleared(),
            },
            (modifiers + buttons_up(ascending(self.buttons))).push(WaylandRequest::PointerFrame),
        )
    }

    /// After an event.
    pub open spec fn after(self, event: InputEvent) -> (Self, Seq<WaylandRequest>) {
        let none = Seq::<WaylandRequest>::empty();
        match event {
            InputEvent::PointerMotion { dx, dy } => (
                self,
                none.push(WaylandRequest::Motion { dx, dy }).push(WaylandRequest::PointerFrame),
            ),
            InputEvent::PointerButton { button, down } => (
                WaylandHeld {
                    buttons: held_after(self.buttons, button_code(button), down),
                    ..self
                },
                none.push(
                    WaylandRequest::Button { code: button_code(button), pressed: down },
                ).push(WaylandRequest::PointerFrame),
            ),
            InputEvent::PointerWheel { x, y } => (
                self,
                none.push_if(!is_zero(x), WaylandRequest::HorizontalWheel(x)).push_if(
                    !is_zero(y),
                    WaylandRequest::VerticalWheel(y),
                ).push(WaylandRequest::PointerFrame),
            ),
            InputEvent::Key { evdev_code, down } => self.after_key(evdev_code, down),
            InputEvent::AllKeysUp => self.after_all_keys_up(),
        }
    }
}

impl HyprlandVirtualInput {
    /// Nothing is held.
    pub fn new() -> (input: Self)
        ensures
            input@ == WaylandHeld::none(),
    {
        HyprlandVirtualInput {
            pressed_keys: HeldCodes::default(),
            pressed_buttons: HeldCodes::default(),
            modifiers: ModifierState::default(),
        }
    }

    fn press(&mut self, code: u16, down: bool) -> (out: Vec<WaylandRequest>)
        ensures
            (final(self)@, out@) == old(self)@.after_key(code, down),
    {
        let mut out: Vec<WaylandRequest> = Vec::new();
        out.push(WaylandRequest::Key { code, pressed: down });
        let was_pressed = self.pressed_keys.is_held(code);
        self.pressed_keys.update(code, down);
        if self.modifiers.update(code, down, was_pressed) {
            out.push(
                WaylandRequest::Modifiers {
                    depressed: self.modifiers.depressed(),
                    locked: self.modifiers.locked(),
                },
            );
        }
        out
    }

    /// Lets go of everything.
    pub fn all_keys_up(&mut self) -> (out: Vec<WaylandRequest>)
        ensures
            (final(self)@, out@) == old(self)@.after_all_keys_up(),
    {
        let mut out: Vec<WaylandRequest> = Vec::new();
        push_keys_up(&mut out, &self.pressed_keys.list());
        self.pressed_keys.clear();
        if self.modifiers.clear_depressed() {
            out.push(
                WaylandRequest::Modifiers { depressed: 0, locked: self.modifiers.locked() },
            );
        }
        push_buttons_up(&mut out, &self.pressed_buttons.list());
        self.pressed_buttons.clear();
        out.push(WaylandRequest::PointerFrame);
        out
    }

    /// Plays an event.
    pub fn inject(&mut self, event: InputEvent) -> (out: Vec<WaylandRequest>)
        ensures
            (final(self)@, out@) == old(self)@.after(event),
    {
        match event {
            InputEvent::PointerMotion { dx, dy } => {
                let mut out: Vec<WaylandRequest> = Vec::new();
                out.push(WaylandRequest::Motion { dx, dy });
                out.push(WaylandRequest::PointerFrame);
                out
            },
            InputEvent::PointerButton { button, down } => {
                let mut out: Vec<WaylandRequest> = Vec::new();
                let code: u16 = mouse_button_code(button);
                out.push(WaylandRequest::Button { code, pressed: down });
                out.push(WaylandRequest::PointerFrame);
                self.pressed_buttons.update(code, down);
                out
            },
            InputEvent::PointerWheel { x, y } => {
                let mut out: Vec<WaylandRequest> = Vec::new();
                if !number_is_zero(x) {
                    out.push(WaylandRequest::HorizontalWheel(x));
                }
                if !number_is_zero(y) {
                    out.push(WaylandRequest::VerticalWheel(y));
                }
                out.push(WaylandRequest::PointerFrame);
                out
            },
            InputEvent::Key { evdev_code, down } => self.press(evdev_code, down),
            InputEvent::AllKeysUp => self.all_keys_up(),
        }
    }
}

/// Letting go of everything leaves no key, button or modifier held, and leaves
/// Caps Lock as it is; the last modifiers that are announced are none.
pub proof fn law_wayland_lets_everything_go(state: WaylandHeld)
    ensures
        state.after_all_keys_up().0.keys == Set::<u16>::empty(),
        state.after_all_keys_up().0.buttons == Set::<u16>::empty(),
        state.after_all_keys_up().0.modifiers.depressed_mask() == 0,
        state.after_all_keys_up().0.modifiers.caps_lock == state.modifiers.caps_lock,
{
}

/// The modifiers that are announced are those of the state: where a key changes
/// them, the change is announced behind it.
pub proof fn law_modifier_changes_are_announced(state: WaylandHeld, code: u16, down: bool)
    requires
        state.modifiers.differs(state.after_key(code, down).0.modifiers),
    ensures
        state.after_key(code, down).1.last() == (WaylandRequest::Modifiers {
            depressed: state.after_key(code, down).0.modifiers.depressed_mask() as u32,
            locked: state.after_key(code, down).0.modifiers.locked_mask() as u32,
        }),
{
}

/// Every event is put in as what it is: a move, a button by its code, a turn
/// along each axis that it has, a key. What is sent to the pointer is closed by
/// the end of its group.
pub proof fn law_wayland_plays_each_event(state: WaylandHeld, event: InputEvent)
    ensures
        ({
            let (after, requests) = state.after(event);
            match event {
                InputEvent::PointerMotion { dx, dy } => after == state && requests =~= seq![
                    WaylandRequest::Motion { dx, dy },
                    WaylandRequest::PointerFrame,
                ],
                InputEvent::PointerButton { button, down } => {
                    let code = match button {
                        MouseButton::Left => 0x110,
                        MouseButton::Right => 0x111,
                        MouseButton::Middle => 0x112,
                        MouseButton::Back => 0x116,
                        MouseButton::Forward => 0x115,
                    };
                    &&& requests =~= seq![
                        WaylandRequest::Button { code, pressed: down },
                        WaylandRequest::PointerFrame,
                    ]
                    &&& after.buttons.contains(code) == down
                    &&& after.keys == state.keys
                    &&& after.modifiers == state.modifiers
                },
                InputEvent::PointerWheel { x, y } => {
                    &&& after == state
                    &&& requests.last() == WaylandRequest::PointerFrame
                    &&& requests.contains(WaylandRequest::HorizontalWheel(x)) <==> x.0 != 0 && x.0
                        != 0x8000_0000_0000_0000
                    &&& requests.contains(WaylandRequest::VerticalWheel(y)) <==> y.0 != 0 && y.0
                        != 0x8000_0000_0000_0000
                },
                InputEvent::Key { evdev_code, down } => {
                    &&& requests.len() > 0 && requests[0] == (WaylandRequest::Key {
                        code: evdev_code,
                        pressed: down,
                    })
                    &&& after.keys.contains(evdev_code) == down
                    &&& after.buttons == state.buttons
                    &&& requests.len() <= 2
                },
                InputEvent::AllKeysUp => (after, requests) == state.after_all_keys_up(),
            }
        }),
{
    broadcast use {lemma_holds_push, lemma_holds_empty};

}

/// A release of all keys lets go of every key and every button that is held,
/// and of nothing else; the modifiers are told where one was down.
pub proof fn law_wayland_releases_what_is_held(state: WaylandHeld, code: u16)
    ensures
        ({
            let requests = state.after_all_keys_up().1;
            &&& requests.contains(WaylandRequest::Key { code, pressed: false })
                <==> state.keys.contains(code)
            &&& requests.contains(WaylandRequest::Button { code, pressed: false })
                <==> state.buttons.contains(code)
            &&& !requests.contains(WaylandRequest::Key { code, pressed: true })
            &&& !requests.contains(WaylandRequest::Button { code, pressed: true })
            &&& requests.last() == WaylandRequest::PointerFrame
        }),
{
    broadcast use {lemma_holds_push, lemma_holds_empty};

    lemma_ascending_lists_all(state.keys, 0x1_0000, code);
    lemma_ascending_lists_all(state.buttons, 0x1_0000, code);
    let keys = keys_up(ascending(state.keys));
    let buttons = buttons_up(ascending(state.buttons));
    lemma_keys_up_holds(ascending(state.keys), code);
    lemma_buttons_up_holds(ascending(state.buttons), code);
    let before = Seq::<WaylandRequest>::empty() + keys;
    assert(before =~= keys);
    let told = before.push_if(
        state.modifiers.depressed_mask() != 0,
        WaylandRequest::Modifiers {
            depressed: 0,
            locked: state.modifiers.locked_mask() as u32,
        },
    );
    assert forall|request: WaylandRequest| #[trigger] (told + buttons).contains(request)
        <==> told.contains(request) || buttons.contains(request) by {
        let both = told + buttons;
        if told.contains(request) {
            let i = told.index_of(request);
            assert(both[i] == request);
        }
        if buttons.contains(request) {
            let i = buttons.index_of(request);
            assert(both[told.len() + i] == request);
        }
        if both.contains(request) {
            let i = both.index_of(request);
            if i < told.len() {
                assert(told[i] == request);
            } else {
                assert(buttons[i - told.len()] == request);
            }
        }
    }
}

proof fn lemma_keys_up_holds(codes: Seq<u16>, code: u16)
    ensures
        keys_up(codes).contains(WaylandRequest::Key { code, pressed: false }) <==> codes.contains(
            code,
        ),
        !keys_up(codes).contains(WaylandRequest::Key { code, pressed: true }),
        !keys_up(codes).contains(WaylandRequest::Button { code, pressed: false }),
        !keys_up(codes).contains(WaylandRequest::Button { code, pressed: true }),
{
    if codes.contains(code) {
        let i = codes.index_of(code);
        assert(keys_up(codes)[i] == (WaylandRequest::Key { code, pressed: false }));
    }
}

proof fn lemma_buttons_up_holds(codes: Seq<u16>, code: u16)
    ensures
        buttons_up(codes).contains(WaylandRequest::Button { code, pressed: false })
            <==> codes.contains(code),
        !buttons_up(codes).contains(WaylandRequest::Button { code, pressed: true }),
        !buttons_up(codes).contains(WaylandRequest::Key { code, pressed: false }),
        !buttons_up(codes).contains(WaylandRequest::Key { code, pressed: true }),
{
    if codes.contains(code) {
        let i = codes.index_of(code);
        assert(buttons_up(codes)[i] == (WaylandRequest::Button { code, pressed: false }));
    }
}

} // verus!
