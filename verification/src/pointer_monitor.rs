//! Watching the pointers of this computer for signs of its user.

use crate::text::{join, joined, texts};
use vstd::prelude::*;

verus! {

/// The kernel's kind of a key or a button.
pub const EV_KEY: u16 = 0x01;

/// The kernel's kind of a move.
pub const EV_REL: u16 = 0x02;

/// The kernel's kind of a touch.
pub const EV_ABS: u16 = 0x03;

/// The lowest code of a mouse button.
pub const BTN_MOUSE: u16 = 0x110;

/// The highest code of a mouse button.
pub const BTN_TASK: u16 = 0x117;

/// The code of a finger on a touchpad.
pub const BTN_TOUCH: u16 = 0x14a;

/// What a pointer is.
#[derive(Clone, Copy, Debug, PartialEq, Eq, Structural)]
pub enum LocalPointerKind {
    Mouse,
    Touchpad,
}

/// A sign of the user.
#[derive(Clone, Copy, Debug, PartialEq, Eq, Structural)]
pub struct LocalPointerActivity {
    pub kind: LocalPointerKind,
}

/// What the kernel reports of a device.
#[derive(Clone, Copy, Debug, PartialEq, Eq, Structural)]
pub struct KernelInputEvent {
    pub event_type: u16,
    pub code: u16,
    pub value: i32,
}

/// Whether a report is a sign of the user: a mouse that moves or whose button
/// changes, a touchpad that is touched.
pub open spec fn is_activity(kind: LocalPointerKind, event: KernelInputEvent) -> bool {
    match kind {
        LocalPointerKind::Mouse => event.event_type == EV_REL || (event.event_type == EV_KEY
            && BTN_MOUSE <= event.code <= BTN_TASK),
        LocalPointerKind::Touchpad => event.event_type == EV_ABS || (event.event_type == EV_KEY
            && event.code == BTN_TOUCH),
    }
}

/// Whether a report is a sign of the user.
pub fn event_is_activity(kind: LocalPointerKind, event: &KernelInputEvent) -> (activity: bool)
    ensures
        activity == is_activity(kind, *event),
{
    match kind {
        LocalPointerKind::Mouse => event.event_type == EV_REL || (event.event_type == EV_KEY
            && BTN_MOUSE <= event.code && event.code <= BTN_TASK),
        LocalPointerKind::Touchpad => event.event_type == EV_ABS || (event.event_type == EV_KEY
            && event.code == BTN_TOUCH),
    }
}

/// The sign of the user in some reports, where there is one.
pub fn activity_in(kind: LocalPointerKind, events: &Vec<KernelInputEvent>) -> (activity: Option<
    LocalPointerActivity,
>)
    ensures
        activity == (if exists|i: int|
            0 <= i < events@.len() && is_activity(kind, #[trigger] events@[i]) {
            Some(LocalPointerActivity { kind })
        } else {
            None
        }),
{
    for i in 0..events.len()
        invariant
            forall|j: int| 0 <= j < i ==> !is_activity(kind, #[trigger] events@[j]),
    {
        if event_is_activity(kind, &events[i]) {
            assert(is_activity(kind, events@[i as int]));
            return Some(LocalPointerActivity { kind });
        }
    }
    None
}

/// What a device is watched as, if it is.
pub open spec fn device_kind(
    wake_on_mouse: bool,
    wake_on_touchpad: bool,
    is_mouse: bool,
    is_touchpad: bool,
) -> Option<LocalPointerKind> {
    if wake_on_touchpad && is_touchpad {
        Some(LocalPointerKind::Touchpad)
    } else if wake_on_mouse && is_mouse {
        Some(LocalPointerKind::Mouse)
    } else {
        None
    }
}

/// What a device is watched as: a touchpad where touchpads are watched, else a
/// mouse where mice are.
pub fn classify_device(
    wake_on_mouse: bool,
    wake_on_touchpad: bool,
    is_mouse: bool,
    is_touchpad: bool,
) -> (kind: Option<LocalPointerKind>)
    ensures
        kind == device_kind(wake_on_mouse, wake_on_touchpad, is_mouse, is_touchpad),
{
    if wake_on_touchpad && is_touchpad {
        Some(LocalPointerKind::Touchpad)
    } else if wake_on_mouse && is_mouse {
        Some(LocalPointerKind::Mouse)
    } else {
        None
    }
}

/// The first characters of the name of a node that reports events.
pub open spec fn event_prefix() -> Seq<u8> {
    Seq::<u8>::empty().push(101).push(118).push(101).push(110).push(116)
}

/// Whether the name of a node begins with `event`.
pub fn is_event_node(name: &[u8]) -> (event: bool)
    ensures
        event == (name@.len() >= 5 && name@.take(5) == event_prefix()),
{
    let found = name.len() >= 5 && name[0] == 101 && name[1] == 118 && name[2] == 101 && name[3]
        == 110 && name[4] == 116;
    proof {
        if found {
            assert(name@.take(5) == event_prefix());
        } else if name@.len() >= 5 && name@.take(5) == event_prefix() {
            assert(name@.take(5)[0] == 101 && name@.take(5)[1] == 118 && name@.take(5)[2] == 101
                && name@.take(5)[3] == 110 && name@.take(5)[4] == 116);
        }
    }
    found
}

/// Where no device can be watched.
pub const NO_POINTER_DEVICES: &'static str = "no enabled physical mouse or touchpad devices found";

/// What is said where no device could be opened.
pub fn unreadable_devices(failures: &Vec<String>) -> (text: String)
    ensures
        text@
            == "cannot read any physical pointer devices; install packaging/udev/72-edge-kvm-pointer.rules: "@
            + joined(texts(failures@), "; "@),
{
    "cannot read any physical pointer devices; install packaging/udev/72-edge-kvm-pointer.rules: ".to_owned().concat(
        join(failures, "; ").as_str(),
    )
}

/// A device, by its number.
#[derive(Clone, Copy, Debug, PartialEq, Eq, Structural)]
pub struct DeviceKey {
    pub major: u32,
    pub minor: u32,
}

/// The devices that are watched.
#[derive(Clone, Debug)]
pub struct PointerReaders {
    active: Vec<DeviceKey>,
}

impl View for PointerReaders {
    type V = Set<DeviceKey>;

    closed spec fn view(&self) -> Set<DeviceKey> {
        self.active@.to_set()
    }
}

impl PointerReaders {
    /// No device is listed twice.
    pub closed spec fn wf(self) -> bool {
        self.active@.no_duplicates()
    }

    /// No device is watched.
    pub fn new() -> (readers: Self)
        ensures
            readers.wf(),
            readers@ == Set::<DeviceKey>::empty(),
    {
        let readers = PointerReaders { active: Vec::new() };
        assert(readers@ == Set::<DeviceKey>::empty());
        readers
    }

    fn position(&self, key: DeviceKey) -> (at: Option<usize>)
        ensures
            match at {
                Some(i) => i < self.active@.len() && self.active@[i as int] == key,
                None => !self.active@.contains(key),
            },
    {
        for i in 0..self.active.len()
            invariant
                forall|j: int| 0 <= j < i ==> self.active@[j] != key,
        {
            if self.active[i] == key {
                return Some(i);
            }
        }
        None
    }

    /// Whether a device that was found is to be opened: where it is not watched.
    pub fn wants(&self, key: DeviceKey) -> (wanted: bool)
        ensures
            wanted == !self@.contains(key),
    {
        self.position(key).is_none()
    }

    /// Notes that a device is watched.
    pub fn opened(&mut self, key: DeviceKey)
        requires
            old(self).wf(),
        ensures
            final(self).wf(),
            final(self)@ == old(self)@.insert(key),
    {
        if self.position(key).is_none() {
            self.active.push(key);
            proof {
                let before = old(self).active@;
                assert forall|k: DeviceKey|
                    self.active@.contains(k) <==> before.contains(k) || k == key by {
                    if before.contains(k) {
                        let i = choose|i: int| 0 <= i < before.len() && before[i] == k;
                        assert(self.active@[i] == k);
                    }
                    assert(self.active@[before.len() as int] == key);
                }
            }
        }
        assert(self@ == old(self)@.insert(key));
    }

    /// Notes that a device is watched no more, and says whether none is left.
    pub fn stopped(&mut self, key: DeviceKey) -> (none_left: bool)
        requires
            old(self).wf(),
        ensures
            final(self).wf(),
            final(self)@ == old(self)@.remove(key),
            none_left == (final(self)@ == Set::<DeviceKey>::empty()),
    {
        match self.position(key) {
            Some(at) => {
                self.active.remove(at);
                proof {
                    let before = old(self).active@;
                    let after = self.active@;
                    assert forall|k: DeviceKey|
                        after.contains(k) <==> before.contains(k) && k != key by {
                        if after.contains(k) {
                            let i = choose|i: int| 0 <= i < after.len() && after[i] == k;
                            let j = if i < at {
                                i
                            } else {
                                i + 1
                            };
                            assert(before[j] == k);
                        }
                        if before.contains(k) && k != key {
                            let i = choose|i: int| 0 <= i < before.len() && before[i] == k;
                            let j = if i < at {
                                i
                            } else {
                                i - 1
                            };
                            assert(after[j] == k);
                        }
                    }
                }
            },
            None => {},
        }
        assert(self@ == old(self)@.remove(key));
        let none_left = self.active.len() == 0;
        proof {
            if !none_left {
                assert(self@.contains(self.active@[0]));
            } else {
                assert(self@ == Set::<DeviceKey>::empty());
            }
        }
        none_left
    }
}

/// A mouse is used by its moves and its buttons, a touchpad by the place of a
/// finger and its touch; other keys and events of either do not count.
pub proof fn law_use_of_a_pointer_is_noticed(code: u16, value: i32)
    ensures
        is_activity(LocalPointerKind::Mouse, KernelInputEvent { event_type: 2, code, value }),
        is_activity(LocalPointerKind::Touchpad, KernelInputEvent { event_type: 3, code, value }),
        !is_activity(LocalPointerKind::Mouse, KernelInputEvent { event_type: 3, code, value }),
        !is_activity(LocalPointerKind::Touchpad, KernelInputEvent { event_type: 2, code, value }),
        !is_activity(LocalPointerKind::Mouse, KernelInputEvent { event_type: 0, code, value }),
        !is_activity(LocalPointerKind::Touchpad, KernelInputEvent { event_type: 0, code, value }),
        is_activity(LocalPointerKind::Mouse, KernelInputEvent { event_type: 1, code, value })
            <==> 0x110 <= code <= 0x117,
        is_activity(LocalPointerKind::Touchpad, KernelInputEvent { event_type: 1, code, value })
            <==> code == 0x14a,
{
}

/// A device is watched exactly where it is of a kind that is to wake, and as
/// that kind; one of both kinds as a touchpad first.
pub proof fn law_wanted_devices_are_watched(
    wake_on_mouse: bool,
    wake_on_touchpad: bool,
    is_mouse: bool,
    is_touchpad: bool,
)
    ensures
        ({
            let kind = device_kind(wake_on_mouse, wake_on_touchpad, is_mouse, is_touchpad);
            &&& kind == Some(LocalPointerKind::Touchpad) <==> wake_on_touchpad && is_touchpad
            &&& kind == Some(LocalPointerKind::Mouse) <==> wake_on_mouse && is_mouse && !(
            wake_on_touchpad && is_touchpad)
        }),
{
}

} // verus!
