//! Counters of what a session has carried.

use crate::protocol::{Frame, InputEvent};
use crate::text::{decimal, push_decimal};
use vstd::prelude::*;

verus! {

/// A counter one higher, or at its limit.
pub open spec fn bumped(n: u64) -> u64 {
    if n == u64::MAX {
        n
    } else {
        (n + 1) as u64
    }
}

/// A counter one higher, or at its limit.
pub fn bump(n: u64) -> (next: u64)
    ensures
        next == bumped(n),
{
    n.saturating_add(1)
}

/// What a receiving computer has seen.
#[derive(Clone, Copy, Debug, PartialEq, Eq, Structural)]
pub struct ReceiverInputStats {
    pub motion: u64,
    pub buttons: u64,
    pub wheel: u64,
    pub keys: u64,
    pub all_keys_up: u64,
    pub clipboard: u64,
    pub control: u64,
    pub return_releases: u64,
    pub heartbeats: u64,
}

impl ReceiverInputStats {
    /// Nothing yet.
    pub open spec fn zero() -> Self {
        ReceiverInputStats {
            motion: 0,
            buttons: 0,
            wheel: 0,
            keys: 0,
            all_keys_up: 0,
            clipboard: 0,
            control: 0,
            return_releases: 0,
            heartbeats: 0,
        }
    }

    /// Nothing yet.
    pub fn new() -> (stats: Self)
        ensures
            stats == Self::zero(),
    {
        ReceiverInputStats {
            motion: 0,
            buttons: 0,
            wheel: 0,
            keys: 0,
            all_keys_up: 0,
            clipboard: 0,
            control: 0,
            return_releases: 0,
            heartbeats: 0,
        }
    }

    /// The counters with one more input event: the one of its sort goes up.
    pub open spec fn with_input(self, event: InputEvent) -> Self {
        match event {
            InputEvent::PointerMotion { .. } => ReceiverInputStats {
                motion: bumped(self.motion),
                ..self
            },
            InputEvent::PointerButton { .. } => ReceiverInputStats {
                buttons: bumped(self.buttons),
                ..self
            },
            InputEvent::PointerWheel { .. } => ReceiverInputStats {
                wheel: bumped(self.wheel),
                ..self
            },
            InputEvent::Key { .. } => ReceiverInputStats { keys: bumped(self.keys), ..self },
            InputEvent::AllKeysUp => ReceiverInputStats {
                all_keys_up: bumped(self.all_keys_up),
                ..self
            },
        }
    }

    /// Counts an input event.
    pub fn record_input(&mut self, event: &InputEvent)
        ensures
            *final(self) == old(self).with_input(*event),
    {
        match event {
            InputEvent::PointerMotion { .. } => {
                self.motion = bump(self.motion);
            },
            InputEvent::PointerButton { .. } => {
                self.buttons = bump(self.buttons);
            },
            InputEvent::PointerWheel { .. } => {
                self.wheel = bump(self.wheel);
            },
            InputEvent::Key { .. } => {
                self.keys = bump(self.keys);
            },
            InputEvent::AllKeysUp => {
                self.all_keys_up = bump(self.all_keys_up);
            },
        }
    }
}

impl ReceiverInputStats {
    /// The counters as a line of a log.
    pub open spec fn line_words(self, side: Seq<char>) -> Seq<char> {
        side + " status motion="@ + decimal(self.motion as nat) + " buttons="@ + decimal(
            self.buttons as nat,
        ) + " wheel="@ + decimal(self.wheel as nat) + " keys="@ + decimal(self.keys as nat)
            + " all_keys_up="@ + decimal(self.all_keys_up as nat) + " clipboard="@ + decimal(
            self.clipboard as nat,
        ) + " control="@ + decimal(self.control as nat) + " return_releases="@ + decimal(
            self.return_releases as nat,
        ) + " heartbeats="@ + decimal(self.heartbeats as nat)
    }

    /// The counters as a line of a log.
    pub fn line(&self, side: &str) -> (line: String)
        ensures
            line@ == self.line_words(side@),
    {
        let mut line = side.to_owned();
        line.append(" status motion=");
        push_decimal(&mut line, self.motion);
        line.append(" buttons=");
        push_decimal(&mut line, self.buttons);
        line.append(" wheel=");
        push_decimal(&mut line, self.wheel);
        line.append(" keys=");
        push_decimal(&mut line, self.keys);
        line.append(" all_keys_up=");
        push_decimal(&mut line, self.all_keys_up);
        line.append(" clipboard=");
        push_decimal(&mut line, self.clipboard);
        line.append(" control=");
        push_decimal(&mut line, self.control);
        line.append(" return_releases=");
        push_decimal(&mut line, self.return_releases);
        line.append(" heartbeats=");
        push_decimal(&mut line, self.heartbeats);
        line
    }
}

/// What a controlling computer has sent.
#[derive(Clone, Copy, Debug, PartialEq, Eq, Structural)]
pub struct ControllerInputStats {
    pub frames: u64,
    pub motion: u64,
    pub buttons: u64,
    pub wheel: u64,
    pub keys: u64,
    pub clipboard: u64,
    pub control: u64,
}

impl ControllerInputStats {
    /// Nothing yet.
    pub fn new() -> (stats: Self)
        ensures
            stats == (ControllerInputStats {
                frames: 0,
                motion: 0,
                buttons: 0,
                wheel: 0,
                keys: 0,
                clipboard: 0,
                control: 0,
            }),
    {
        ControllerInputStats {
            frames: 0,
            motion: 0,
            buttons: 0,
            wheel: 0,
            keys: 0,
            clipboard: 0,
            control: 0,
        }
    }

    /// The counters with one more frame: the count of all frames goes up, and
    /// that of its sort where it has one. A release of all keys counts as a key.
    pub open spec fn with_frame(self, frame: Frame) -> Self {
        let all = ControllerInputStats { frames: bumped(self.frames), ..self };
        match frame {
            Frame::Input(input) => match input.event {
                InputEvent::PointerMotion { .. } => ControllerInputStats {
                    motion: bumped(self.motion),
                    ..all
                },
                InputEvent::PointerButton { .. } => ControllerInputStats {
                    buttons: bumped(self.buttons),
                    ..all
                },
                InputEvent::PointerWheel { .. } => ControllerInputStats {
                    wheel: bumped(self.wheel),
                    ..all
                },
                InputEvent::Key { .. } | InputEvent::AllKeysUp => ControllerInputStats {
                    keys: bumped(self.keys),
                    ..all
                },
            },
            Frame::Clipboard(_) => ControllerInputStats { clipboard: bumped(self.clipboard), ..all },
            Frame::Control(_) => ControllerInputStats { control: bumped(self.control), ..all },
            _ => all,
        }
    }

    /// Counts a frame.
    pub fn record_frame(&mut self, frame: &Frame)
        ensures
            *final(self) == old(self).with_frame(*frame),
    {
        self.frames = bump(self.frames);
        match frame.input_event() {
            Some(event) => match event {
                InputEvent::PointerMotion { .. } => {
                    self.motion = bump(self.motion);
                },
                InputEvent::PointerButton { .. } => {
                    self.buttons = bump(self.buttons);
                },
                InputEvent::PointerWheel { .. } => {
                    self.wheel = bump(self.wheel);
                },
                InputEvent::Key { .. } | InputEvent::AllKeysUp => {
                    self.keys = bump(self.keys);
                },
            },
            None => match frame {
                Frame::Clipboard(_) => {
                    self.clipboard = bump(self.clipboard);
                },
                Frame::Control(_) => {
                    self.control = bump(self.control);
                },
                _ => {},
            },
        }
    }
}

impl ControllerInputStats {
    /// The counters as the start of a line of a log; what the capture has
    /// counted follows them.
    pub open spec fn line_words(self, side: Seq<char>) -> Seq<char> {
        side + " status frames="@ + decimal(self.frames as nat) + " motion="@ + decimal(
            self.motion as nat,
        ) + " buttons="@ + decimal(self.buttons as nat) + " wheel="@ + decimal(self.wheel as nat)
            + " keys="@ + decimal(self.keys as nat) + " clipboard="@ + decimal(
            self.clipboard as nat,
        ) + " control="@ + decimal(self.control as nat)
    }

    /// The counters as the start of a line of a log.
    pub fn line(&self, side: &str) -> (line: String)
        ensures
            line@ == self.line_words(side@),
    {
        let mut line = side.to_owned();
        line.append(" status frames=");
        push_decimal(&mut line, self.frames);
        line.append(" motion=");
        push_decimal(&mut line, self.motion);
        line.append(" buttons=");
        push_decimal(&mut line, self.buttons);
        line.append(" wheel=");
        push_decimal(&mut line, self.wheel);
        line.append(" keys=");
        push_decimal(&mut line, self.keys);
        line.append(" clipboard=");
        push_decimal(&mut line, self.clipboard);
        line.append(" control=");
        push_decimal(&mut line, self.control);
        line
    }
}

/// Every input is counted, once and under its kind; no other count changes.
pub proof fn law_each_input_is_counted_once(
    stats: ReceiverInputStats,
    event: InputEvent,
)
    requires
        stats.motion < u64::MAX,
        stats.buttons < u64::MAX,
        stats.wheel < u64::MAX,
        stats.keys < u64::MAX,
        stats.all_keys_up < u64::MAX,
    ensures
        ({
            let after = stats.with_input(event);
            &&& after.motion == stats.motion + if event is PointerMotion {
                1int
            } else {
                0
            }
            &&& after.buttons == stats.buttons + if event is PointerButton {
                1int
            } else {
                0
            }
            &&& after.wheel == stats.wheel + if event is PointerWheel {
                1int
            } else {
                0
            }
            &&& after.keys == stats.keys + if event is Key {
                1int
            } else {
                0
            }
            &&& after.all_keys_up == stats.all_keys_up + if event is AllKeysUp {
                1int
            } else {
                0
            }
            &&& after.clipboard == stats.clipboard
            &&& after.control == stats.control
            &&& after.return_releases == stats.return_releases
            &&& after.heartbeats == stats.heartbeats
        }),
{
}

/// Every frame that is sent is counted, and under its kind where it has one:
/// the kinds never add up to more than all.
pub proof fn law_each_frame_is_counted_once(stats: ControllerInputStats, frame: Frame)
    requires
        stats.frames < u64::MAX,
        stats.motion < u64::MAX,
        stats.buttons < u64::MAX,
        stats.wheel < u64::MAX,
        stats.keys < u64::MAX,
        stats.clipboard < u64::MAX,
        stats.control < u64::MAX,
    ensures
        ({
            let after = stats.with_frame(frame);
            let known = frame is Input || frame is Clipboard || frame is Control;
            &&& after.frames == stats.frames + 1
            &&& after.motion + after.buttons + after.wheel + after.keys + after.clipboard
                + after.control == stats.motion + stats.buttons + stats.wheel + stats.keys
                + stats.clipboard + stats.control + if known {
                1int
            } else {
                0
            }
            &&& frame is Clipboard ==> after.clipboard == stats.clipboard + 1
            &&& frame is Control ==> after.control == stats.control + 1
            &&& frame matches Frame::Input(input) ==> {
                &&& input.event is PointerMotion ==> after.motion == stats.motion + 1
                &&& input.event is PointerButton ==> after.buttons == stats.buttons + 1
                &&& input.event is PointerWheel ==> after.wheel == stats.wheel + 1
                &&& input.event is Key || input.event is AllKeysUp ==> after.keys == stats.keys + 1
            }
        }),
{
}

} // verus!
