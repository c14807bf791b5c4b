//! Windows scan codes as evdev key codes.

use vstd::prelude::*;

verus! {

/// A key as Windows reports it.
#[derive(Clone, Copy, Debug, PartialEq, Eq, Hash, Structural)]
pub struct WindowsScanCode {
    pub scan_code: u16,
    pub extended: bool,
}

impl WindowsScanCode {
    /// A key as Windows reports it.
    pub fn new(scan_code: u16, extended: bool) -> (key: Self)
        ensures
            key == (WindowsScanCode { scan_code, extended }),
    {
        WindowsScanCode { scan_code, extended }
    }
}

/// The evdev code of a key. A key that is not extended has its scan code,
/// from Escape to F12 but for the keypad, Caps Lock and the lock keys; an
/// extended one has a code of its own.
pub open spec fn evdev_code(key: WindowsScanCode) -> Option<u16> {
    let s = key.scan_code;
    if !key.extended {
        if 0x01 <= s <= 0x36 || s == 0x38 || s == 0x39 || 0x3b <= s <= 0x44 || s == 0x57 || s
            == 0x58 {
            Some(s)
        } else {
            None
        }
    } else {
        match s {
            0x1c => Some(28),
            0x1d => Some(97),
            0x38 => Some(100),
            0x47 => Some(102),
            0x48 => Some(103),
            0x49 => Some(104),
            0x4b => Some(105),
            0x4d => Some(106),
            0x4f => Some(107),
            0x50 => Some(108),
            0x51 => Some(109),
            0x52 => Some(110),
            0x53 => Some(111),
            0x5b => Some(125),
            0x5c => Some(126),
            _ => None,
        }
    }
}

/// The evdev code of a key, where it has one.
pub fn windows_scancode_to_evdev(key: WindowsScanCode) -> (code: Option<u16>)
    ensures
        code == evdev_code(key),
{
    let s: u16 = key.scan_code;
    if !key.extended {
        let mapped: bool = match s {
            // Escape, the number row, letters, punctuation, and the modifiers among them.
            0x01..=0x36 => true,
            // Alt and space.
            0x38 | 0x39 => true,
            // F1 to F12.
            0x3b..=0x44 | 0x57 | 0x58 => true,
            _ => false,
        };
        if mapped {
            Some(s)
        } else {
            None
        }
    } else {
        match s {
            // Enter on the keypad.
            0x1c => Some(28),
            // Modifiers on the right.
            0x1d => Some(97),
            0x38 => Some(100),
            0x5b => Some(125),
            0x5c => Some(126),
            // Arrows and navigation.
            0x48 => Some(103),
            0x50 => Some(108),
            0x4b => Some(105),
            0x4d => Some(106),
            0x52 => Some(110),
            0x53 => Some(111),
            0x47 => Some(102),
            0x4f => Some(107),
            0x49 => Some(104),
            0x51 => Some(109),
            _ => None,
        }
    }
}

/// No two keys share a code, but for the two Enter keys.
pub proof fn law_keys_keep_their_codes(a: WindowsScanCode, b: WindowsScanCode)
    requires
        evdev_code(a) is Some,
        evdev_code(a) == evdev_code(b),
    ensures
        a == b || (a.scan_code == 0x1c && b.scan_code == 0x1c),
{
}

/// Which key has which code: the keys of the main block keep their numbers, and
/// so do the first ten function keys and the last two. Of the others, each of
/// the fifteen has its own.
pub proof fn law_keys_mean_what_they_say(key: WindowsScanCode)
    ensures
        ({
            let s = key.scan_code;
            let main = 0x01 <= s <= 0x36 || s == 0x38 || s == 0x39;
            let function = 0x3b <= s <= 0x44 || s == 0x57 || s == 0x58;
            let arrows = s == 0x48 || s == 0x4b || s == 0x4d || s == 0x50;
            let places = s == 0x47 || s == 0x49 || s == 0x4f || s == 0x51 || s == 0x52 || s == 0x53;
            let sides = s == 0x1c || s == 0x1d || s == 0x38 || s == 0x5b || s == 0x5c;
            &&& !key.extended && (main || function) ==> evdev_code(key) == Some(s)
            &&& !key.extended && !(main || function) ==> evdev_code(key) is None
            &&& key.extended ==> (evdev_code(key) is Some <==> arrows || places || sides)
            &&& key.extended && 0x47 <= s <= 0x49 ==> evdev_code(key) == Some((s + 31) as u16)
            &&& key.extended && s == 0x4b ==> evdev_code(key) == Some(105u16)
            &&& key.extended && s == 0x4d ==> evdev_code(key) == Some(106u16)
            &&& key.extended && 0x4f <= s <= 0x53 ==> evdev_code(key) == Some((s + 28) as u16)
            &&& key.extended && (s == 0x5b || s == 0x5c) ==> evdev_code(key) == Some(
                (s + 34) as u16,
            )
            &&& key.extended && s == 0x1c ==> evdev_code(key) == Some(28u16)
            &&& key.extended && s == 0x1d ==> evdev_code(key) == Some(97u16)
            &&& key.extended && s == 0x38 ==> evdev_code(key) == Some(100u16)
        }),
{
}

} // verus!
