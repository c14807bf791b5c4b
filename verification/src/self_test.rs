//! Trying out capture and playback without a session.

use crate::protocol::{
    F64Bits, Frame, InputEvent, InputFrame, MouseButton, INITIAL_ROLE_EPOCH,
};
use crate::session::CaptureEvent;
use crate::stats::{bump, bumped};
use crate::text::{decimal, push_decimal};
use vstd::prelude::*;

verus! {

/// What is tried out.
#[derive(Clone, Copy, Debug, PartialEq, Eq, Structural)]
pub enum TestInput {
    Pointer,
    Click,
    Wheel,
    Key,
}

/// The key that is tried out: the letter A.
pub const TEST_KEY: u16 = 30;

/// The bits of fifty.
pub const FIFTY: u64 = 0x4049_0000_0000_0000;

/// The bits of eighty.
pub const EIGHTY: u64 = 0x4054_0000_0000_0000;

/// The bits of minus one.
pub const MINUS_ONE: u64 = 0xbff0_0000_0000_0000;

/// What is played: a move to the right, a click, a notch down or a key.
pub open spec fn played(test: TestInput, dx: u64) -> Seq<InputEvent> {
    let none = Seq::<InputEvent>::empty();
    match test {
        TestInput::Pointer => none.push(
            InputEvent::PointerMotion { dx: F64Bits(dx), dy: F64Bits(0) },
        ),
        TestInput::Click => none.push(
            InputEvent::PointerButton { button: MouseButton::Left, down: true },
        ).push(InputEvent::PointerButton { button: MouseButton::Left, down: false }),
        TestInput::Wheel => none.push(
            InputEvent::PointerWheel { x: F64Bits(0), y: F64Bits(MINUS_ONE) },
        ),
        TestInput::Key => none.push(
            InputEvent::Key { evdev_code: TEST_KEY, down: true },
        ).push(InputEvent::Key { evdev_code: TEST_KEY, down: false }),
    }
}

fn play(test: TestInput, dx: u64) -> (events: Vec<InputEvent>)
    ensures
        events@ == played(test, dx),
{
    let mut events: Vec<InputEvent> = Vec::new();
    match test {
        TestInput::Pointer => events.push(
            InputEvent::PointerMotion { dx: F64Bits(dx), dy: F64Bits(0) },
        ),
        TestInput::Click => {
            events.push(InputEvent::PointerButton { button: MouseButton::Left, down: true });
            events.push(InputEvent::PointerButton { button: MouseButton::Left, down: false });
        },
        TestInput::Wheel => events.push(
            InputEvent::PointerWheel { x: F64Bits(0), y: F64Bits(MINUS_ONE) },
        ),
        TestInput::Key => {
            events.push(InputEvent::Key { evdev_code: TEST_KEY, down: true });
            events.push(InputEvent::Key { evdev_code: TEST_KEY, down: false });
        },
    }
    events
}

/// What is played on this computer.
pub fn run_input_test(test: TestInput) -> (events: Vec<InputEvent>)
    ensures
        events@ == played(test, FIFTY),
{
    play(test, FIFTY)
}

/// Input as it is sent.
pub open spec fn as_frames(events: Seq<InputEvent>) -> Seq<Frame> {
    events.map_values(
        |event: InputEvent| Frame::Input(InputFrame { role_epoch: INITIAL_ROLE_EPOCH, event }),
    )
}

/// What is sent to the other computer: behind it, everything is let go.
pub fn send_test_input(test: TestInput) -> (frames: Vec<Frame>)
    ensures
        frames@ == as_frames(played(test, EIGHTY).push(InputEvent::AllKeysUp)),
{
    let mut events: Vec<InputEvent> = play(test, EIGHTY);
    events.push(InputEvent::AllKeysUp);
    let mut frames: Vec<Frame> = Vec::new();
    for i in 0..events.len()
        invariant
            frames@ == as_frames(events@.take(i as int)),
    {
        frames.push(Frame::input(INITIAL_ROLE_EPOCH, events[i]));
        assert(events@.take(i + 1) == events@.take(i as int).push(events@[i as int]));
        assert(frames@ == as_frames(events@.take(i + 1)));
    }
    assert(events@.take(events@.len() as int) == events@);
    frames
}

/// What was captured.
#[derive(Clone, Copy, Debug, PartialEq, Eq, Structural)]
pub struct CaptureCounts {
    pub activations: u64,
    pub pointer_motion: u64,
    pub buttons: u64,
    pub wheel: u64,
    pub keyboard: u64,
    pub all_keys_up: u64,
    pub deactivations: u64,
    pub layout_changes: u64,
}

impl Default for CaptureCounts {
    /// Nothing yet.
    fn default() -> (counts: Self)
        ensures
            counts == CaptureCounts::zero(),
    {
        CaptureCounts {
            activations: 0,
            pointer_motion: 0,
            buttons: 0,
            wheel: 0,
            keyboard: 0,
            all_keys_up: 0,
            deactivations: 0,
            layout_changes: 0,
        }
    }
}

/// What a trial of the capture does next.
#[derive(Clone, Debug)]
pub enum CaptureTestStep {
    GoOn,
    /// Capture at the barriers of the new layout.
    Rearm,
    Done,
    Fail(String),
}

impl CaptureCounts {
    /// The counters as a line.
    pub open spec fn line_words(self) -> Seq<char> {
        "events: activation="@ + decimal(self.activations as nat) + " motion="@ + decimal(
            self.pointer_motion as nat,
        ) + " button="@ + decimal(self.buttons as nat) + " wheel="@ + decimal(self.wheel as nat)
            + " keyboard="@ + decimal(self.keyboard as nat) + " release="@ + decimal(
            self.all_keys_up as nat,
        ) + " deactivation="@ + decimal(self.deactivations as nat) + " layout="@ + decimal(
            self.layout_changes as nat,
        )
    }

    /// The counters as a line. No key and no text is in it.
    pub fn line(&self) -> (line: String)
        ensures
            line@ == self.line_words(),
    {
        let mut line = "events: activation=".to_owned();
        push_decimal(&mut line, self.activations);
        line.append(" motion=");
        push_decimal(&mut line, self.pointer_motion);
        line.append(" button=");
        push_decimal(&mut line, self.buttons);
        line.append(" wheel=");
        push_decimal(&mut line, self.wheel);
        line.append(" keyboard=");
        push_decimal(&mut line, self.keyboard);
        line.append(" release=");
        push_decimal(&mut line, self.all_keys_up);
        line.append(" deactivation=");
        push_decimal(&mut line, self.deactivations);
        line.append(" layout=");
        push_decimal(&mut line, self.layout_changes);
        line
    }

    /// Nothing yet.
    pub open spec fn zero() -> Self {
        CaptureCounts {
            activations: 0,
            pointer_motion: 0,
            buttons: 0,
            wheel: 0,
            keyboard: 0,
            all_keys_up: 0,
            deactivations: 0,
            layout_changes: 0,
        }
    }

    /// The counts after a report.
    pub open spec fn after(self, event: Option<CaptureEvent>) -> Self {
        match event {
            Some(CaptureEvent::Activated { .. }) => CaptureCounts {
                activations: bumped(self.activations),
                ..self
            },
            Some(CaptureEvent::Input(InputEvent::PointerMotion { .. })) => CaptureCounts {
                pointer_motion: bumped(self.pointer_motion),
                ..self
            },
            Some(CaptureEvent::Input(InputEvent::PointerButton { .. })) => CaptureCounts {
                buttons: bumped(self.buttons),
                ..self
            },
            Some(CaptureEvent::Input(InputEvent::PointerWheel { .. })) => CaptureCounts {
                wheel: bumped(self.wheel),
                ..self
            },
            Some(CaptureEvent::Input(InputEvent::Key { .. })) => CaptureCounts {
                keyboard: bumped(self.keyboard),
                ..self
            },
            Some(CaptureEvent::Input(InputEvent::AllKeysUp)) => CaptureCounts {
                all_keys_up: bumped(self.all_keys_up),
                ..self
            },
            Some(CaptureEvent::Deactivated) => CaptureCounts {
                deactivations: bumped(self.deactivations),
                ..self
            },
            Some(CaptureEvent::LayoutChanged { .. }) => CaptureCounts {
                layout_changes: bumped(self.layout_changes),
                ..self
            },
            _ => self,
        }
    }

    /// Takes a report; none where the capture stopped.
    pub fn record(&mut self, event: Option<CaptureEvent>) -> (step: CaptureTestStep)
        ensures
            *final(self) == old(self).after(event),
            match event {
                Some(CaptureEvent::EmergencyReleased) => step is Done,
                Some(CaptureEvent::LayoutChanged { .. }) => step is Rearm,
                Some(CaptureEvent::BackendFailed(error)) => step matches CaptureTestStep::Fail(
                    text,
                ) && text@ == "capture backend failed: "@ + error@,
                None => step matches CaptureTestStep::Fail(text) && text@
                    == "capture backend stopped unexpectedly"@,
                _ => step is GoOn,
            },
    {
        match event {
            Some(CaptureEvent::Activated { .. }) => {
                self.activations = bump(self.activations);
            },
            Some(CaptureEvent::Input(InputEvent::PointerMotion { .. })) => {
                self.pointer_motion = bump(self.pointer_motion);
            },
            Some(CaptureEvent::Input(InputEvent::PointerButton { .. })) => {
                self.buttons = bump(self.buttons);
            },
            Some(CaptureEvent::Input(InputEvent::PointerWheel { .. })) => {
                self.wheel = bump(self.wheel);
            },
            Some(CaptureEvent::Input(InputEvent::Key { .. })) => {
                self.keyboard = bump(self.keyboard);
            },
            Some(CaptureEvent::Input(InputEvent::AllKeysUp)) => {
                self.all_keys_up = bump(self.all_keys_up);
            },
            Some(CaptureEvent::Deactivated) => {
                self.deactivations = bump(self.deactivations);
            },
            Some(CaptureEvent::EmergencyReleased) => {
                return CaptureTestStep::Done;
            },
            Some(CaptureEvent::LayoutChanged { .. }) => {
                self.layout_changes = bump(self.layout_changes);
                return CaptureTestStep::Rearm;
            },
            Some(CaptureEvent::BackendFailed(error)) => {
                return CaptureTestStep::Fail(
                    "capture backend failed: ".to_owned().concat(error.as_str()),
                );
            },
            None => {
                return CaptureTestStep::Fail("capture backend stopped unexpectedly".to_owned());
            },
        }
        CaptureTestStep::GoOn
    }
}

/// What a trial of the capture reports: what went wrong in it, else what went
/// wrong in ending it.
pub fn capture_test_result(outcome: Option<String>, cleanup: Option<String>) -> (problem: Option<
    String,
>)
    ensures
        match outcome {
            Some(_) => problem == outcome,
            None => match cleanup {
                Some(error) => problem matches Some(text) && text@ == "failed to disarm capture: "@
                    + error@,
                None => problem is None,
            },
        },
{
    match outcome {
        Some(error) => Some(error),
        None => match cleanup {
            Some(error) => Some("failed to disarm capture: ".to_owned().concat(error.as_str())),
            None => None,
        },
    }
}

/// A trial leaves nothing held: a button or a key that goes down comes up
/// again, and what is sent to the other computer ends with letting go.
pub proof fn law_trials_leave_nothing_held(test: TestInput, dx: u64)
    ensures
        test is Click ==> played(test, dx).last() == (InputEvent::PointerButton {
            button: MouseButton::Left,
            down: false,
        }),
        test is Key ==> played(test, dx).last() == (InputEvent::Key {
            evdev_code: TEST_KEY,
            down: false,
        }),
        as_frames(played(test, dx).push(InputEvent::AllKeysUp)).last() == Frame::Input(
            (InputFrame { role_epoch: INITIAL_ROLE_EPOCH, event: InputEvent::AllKeysUp }),
        ),
{
}

/// Everything that is captured is counted, once and under its kind.
pub proof fn law_captures_are_counted_once(counts: CaptureCounts, event: CaptureEvent)
    requires
        counts.activations < u64::MAX,
        counts.pointer_motion < u64::MAX,
        counts.buttons < u64::MAX,
        counts.wheel < u64::MAX,
        counts.keyboard < u64::MAX,
        counts.all_keys_up < u64::MAX,
        counts.deactivations < u64::MAX,
        counts.layout_changes < u64::MAX,
    ensures
        ({
            let after = counts.after(Some(event));
            let known = event is Activated || event is Input || event is Deactivated
                || event is LayoutChanged;
            &&& after.activations + after.pointer_motion + after.buttons + after.wheel
                + after.keyboard + after.all_keys_up + after.deactivations + after.layout_changes
                == counts.activations + counts.pointer_motion + counts.buttons + counts.wheel
                + counts.keyboard + counts.all_keys_up + counts.deactivations
                + counts.layout_changes + if known {
                1int
            } else {
                0
            }
            &&& event is Activated ==> after.activations == counts.activations + 1
            &&& event is Deactivated ==> after.deactivations == counts.deactivations + 1
            &&& event is LayoutChanged ==> after.layout_changes == counts.layout_changes + 1
            &&& event matches CaptureEvent::Input(input) ==> {
                &&& input is PointerMotion ==> after.pointer_motion == counts.pointer_motion + 1
                &&& input is PointerButton ==> after.buttons == counts.buttons + 1
                &&& input is PointerWheel ==> after.wheel == counts.wheel + 1
                &&& input is Key ==> after.keyboard == counts.keyboard + 1
                &&& input is AllKeysUp ==> after.all_keys_up == counts.all_keys_up + 1
            }
        }),
        counts.after(None) == counts,
{
}

/// A trial presses before it lets go, moves only where it is told to, and does
/// nothing else.
pub proof fn law_trials_do_what_they_say(test: TestInput, dx: u64)
    ensures
        test == TestInput::Pointer ==> played(test, dx) =~= seq![
            InputEvent::PointerMotion { dx: F64Bits(dx), dy: F64Bits(0) },
        ],
        test == TestInput::Click ==> played(test, dx) =~= seq![
            InputEvent::PointerButton { button: MouseButton::Left, down: true },
            InputEvent::PointerButton { button: MouseButton::Left, down: false },
        ],
        test == TestInput::Wheel ==> played(test, dx).len() == 1 && played(
            test,
            dx,
        )[0] is PointerWheel,
        test == TestInput::Key ==> played(test, dx) =~= seq![
            InputEvent::Key { evdev_code: 30, down: true },
            InputEvent::Key { evdev_code: 30, down: false },
        ],
{
}

} // verus!
