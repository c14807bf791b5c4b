//! Passing captured input on: moves are gathered, everything else goes at once.

use crate::clock::{millis, Instant};
use crate::protocol::{ControlEvent, Frame, InputEvent, INITIAL_ROLE_EPOCH};
use vstd::prelude::*;

verus! {

/// How many frames may wait to be sent.
pub const LIVE_INPUT_QUEUE_CAPACITY: usize = 32;

/// How long moves are gathered, in milliseconds.
pub const LIVE_INPUT_FLUSH_MILLIS: u64 = 8;

/// What was captured.
#[derive(Clone, Copy, Debug, PartialEq, Eq, Structural)]
pub enum CapturedInput {
    Input(InputEvent),
    Control(ControlEvent),
}

/// The frame that carries what was captured.
pub open spec fn framed(event: CapturedInput) -> Frame {
    match event {
        CapturedInput::Input(event) => Frame::Input(
            crate::protocol::InputFrame { role_epoch: INITIAL_ROLE_EPOCH, event },
        ),
        CapturedInput::Control(event) => Frame::Control(
            crate::protocol::ControlFrame { role_epoch: INITIAL_ROLE_EPOCH, event },
        ),
    }
}

/// What is sent for something that was captured.
pub fn captured_input_to_frame(event: CapturedInput) -> (frame: Frame)
    ensures
        frame == framed(event),
{
    match event {
        CapturedInput::Input(event) => Frame::input(INITIAL_ROLE_EPOCH, event),
        CapturedInput::Control(event) => Frame::control(INITIAL_ROLE_EPOCH, event),
    }
}

/// What to do with something that was captured.
#[derive(Clone, Copy, Debug, PartialEq, Eq, Structural)]
pub enum PumpStep {
    /// Add the move to those that are gathered.
    Gather,
    /// Add the move to those that are gathered, and send them.
    GatherAndFlush,
    /// Send the moves that are gathered, then this.
    FlushAndSend,
    /// Send the moves that are gathered.
    Flush,
    /// Send the moves that are gathered, and stop.
    FlushAndStop,
}

/// When the moves that are gathered were last sent.
#[derive(Clone, Copy, Debug, PartialEq, Eq, Structural)]
pub struct LiveInputPump {
    pub last_flush: Instant,
}

/// Whether something that was captured is a move.
pub open spec fn is_motion(event: CapturedInput) -> bool {
    event matches CapturedInput::Input(input) && input is PointerMotion
}

impl LiveInputPump {
    /// Nothing is gathered.
    pub fn new(now: Instant) -> (pump: Self)
        ensures
            pump == (LiveInputPump { last_flush: now }),
    {
        LiveInputPump { last_flush: now }
    }

    /// What to do with something that was captured.
    pub open spec fn step(self, event: CapturedInput, now: Instant) -> PumpStep {
        if !is_motion(event) {
            PumpStep::FlushAndSend
        } else if now.since(self.last_flush) >= millis(LIVE_INPUT_FLUSH_MILLIS as int) {
            PumpStep::GatherAndFlush
        } else {
            PumpStep::Gather
        }
    }

    /// The pump behind what was captured: it knows when moves last went out.
    pub open spec fn after(self, event: CapturedInput, now: Instant) -> Self {
        if self.step(event, now) is Gather {
            self
        } else {
            LiveInputPump { last_flush: now }
        }
    }

    /// Takes something that was captured.
    pub fn on_captured(&mut self, event: &CapturedInput, now: Instant) -> (step: PumpStep)
        ensures
            step == old(self).step(*event, now),
            *final(self) == old(self).after(*event, now),
    {
        let motion = match event {
            CapturedInput::Input(InputEvent::PointerMotion { .. }) => true,
            _ => false,
        };
        if !motion {
            self.last_flush = now;
            PumpStep::FlushAndSend
        } else if now.is_millis_after(self.last_flush, LIVE_INPUT_FLUSH_MILLIS) {
            self.last_flush = now;
            PumpStep::GatherAndFlush
        } else {
            PumpStep::Gather
        }
    }

    /// Nothing was captured for a while.
    pub fn on_quiet(&mut self, now: Instant) -> (step: PumpStep)
        ensures
            step == PumpStep::Flush,
            *final(self) == (LiveInputPump { last_flush: now }),
    {
        self.last_flush = now;
        PumpStep::Flush
    }

    /// Nothing more will be captured.
    pub fn on_stopped(&self) -> (step: PumpStep)
        ensures
            step == PumpStep::FlushAndStop,
    {
        PumpStep::FlushAndStop
    }
}

/// Nothing overtakes a move: what is not a move is sent behind the moves that
/// were gathered before it.
pub proof fn law_moves_are_not_overtaken(pump: LiveInputPump, event: CapturedInput, now: Instant)
    requires
        !is_motion(event),
    ensures
        pump.step(event, now) == PumpStep::FlushAndSend,
{
}

/// Moves are not held back for longer than they are gathered: the first one
/// behind that time is sent with all before it.
pub proof fn law_moves_are_not_held_back(pump: LiveInputPump, event: CapturedInput, now: Instant)
    requires
        is_motion(event),
        now.since(pump.last_flush) >= millis(LIVE_INPUT_FLUSH_MILLIS as int),
    ensures
        pump.step(event, now) == PumpStep::GatherAndFlush,
{
}

/// What was captured is carried as it is, in the first epoch, and nothing else
/// is carried by the same frame.
pub proof fn law_captured_input_is_carried(a: CapturedInput, b: CapturedInput)
    ensures
        a matches CapturedInput::Input(event) ==> (framed(a) matches Frame::Input(carried)
            && carried.event == event && carried.role_epoch == 1),
        a matches CapturedInput::Control(event) ==> (framed(a) matches Frame::Control(carried)
            && carried.event == event && carried.role_epoch == 1),
        framed(a) == framed(b) ==> a == b,
{
}

/// A move is gathered for eight milliseconds at most: it goes out at once where
/// that time has passed since moves last did, and is gathered else.
pub proof fn law_moves_are_gathered_for_a_moment(
    pump: LiveInputPump,
    event: InputEvent,
    now: Instant,
)
    requires
        event is PointerMotion,
        now.nanos >= pump.last_flush.nanos,
    ensures
        pump.step(CapturedInput::Input(event), now) == PumpStep::GatherAndFlush <==> now.nanos
            - pump.last_flush.nanos >= 8_000_000,
        pump.step(CapturedInput::Input(event), now) == PumpStep::Gather <==> now.nanos
            - pump.last_flush.nanos < 8_000_000,
{
}

/// The time that moves are gathered for counts from when moves last went out: a
/// second move right behind one that went out is gathered, and gathered moves do
/// not put the end off.
pub proof fn law_gathering_starts_with_the_last_flush(
    pump: LiveInputPump,
    event: CapturedInput,
    next: InputEvent,
    now: Instant,
    later: Instant,
)
    requires
        next is PointerMotion,
        pump.last_flush.nanos <= now.nanos <= later.nanos,
    ensures
        ({
            let after = pump.after(event, now);
            let goes_out = pump.step(event, now) != PumpStep::Gather;
            &&& goes_out ==> (after.step(CapturedInput::Input(next), later) == PumpStep::Gather
                <==> later.nanos - now.nanos < 8_000_000)
            &&& !goes_out ==> (after.step(CapturedInput::Input(next), later) == PumpStep::Gather
                <==> later.nanos - pump.last_flush.nanos < 8_000_000)
        }),
{
}

} // verus!
