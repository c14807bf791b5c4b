//! When the cursor of a controlling computer is hidden.

use crate::clock::Instant;
use vstd::prelude::*;

verus! {

/// Where the pointer is, and whether the local cursor is hidden.
#[derive(Clone, Copy, Debug, PartialEq, Eq, Structural)]
pub enum CursorHandoffState {
    Disabled,
    Local,
    RemotePending { hide_at: Instant },
    RemoteHidden,
}

impl CursorHandoffState {
    /// The pointer is at the peer's.
    pub open spec fn is_remote(self) -> bool {
        self is RemotePending || self is RemoteHidden
    }

    /// The pointer is here.
    pub fn ready() -> (state: Self)
        ensures
            state == CursorHandoffState::Local,
    {
        CursorHandoffState::Local
    }

    /// The pointer has left; the cursor is to be hidden after a delay.
    pub fn enter_remote(&mut self, now: Instant, hide_delay_ms: u64)
        ensures
            *final(self) == handoff_after(*old(self), HandoffStep::Enter { now, hide_delay_ms }),
    {
        if self.enabled() {
            *self = CursorHandoffState::RemotePending { hide_at: now.plus_millis(hide_delay_ms) };
        }
    }

    /// When the cursor is to be hidden, if it is.
    pub fn hide_at(self) -> (at: Option<Instant>)
        ensures
            at == (match self {
                CursorHandoffState::RemotePending { hide_at } => Some(hide_at),
                _ => None,
            }),
    {
        match self {
            CursorHandoffState::RemotePending { hide_at } => Some(hide_at),
            _ => None,
        }
    }

    /// Hides the cursor if it is time; `true` where it was.
    pub fn mark_hidden_if_due(&mut self, now: Instant) -> (hidden: bool)
        ensures
            hidden == (*old(self) matches CursorHandoffState::RemotePending { hide_at }
                && hide_at.nanos <= now.nanos),
            *final(self) == handoff_after(*old(self), HandoffStep::Look { now }),
    {
        match *self {
            CursorHandoffState::RemotePending { hide_at } => {
                if now.nanos < hide_at.nanos {
                    false
                } else {
                    *self = CursorHandoffState::RemoteHidden;
                    true
                }
            },
            _ => false,
        }
    }

    /// The local mouse was moved; `true` where that brings the pointer back.
    pub fn local_activity(&mut self) -> (back: bool)
        ensures
            back == old(self).is_remote(),
            *final(self) == handoff_after(*old(self), HandoffStep::LocalActivity),
    {
        if !self.remote_active() {
            return false;
        }
        *self = CursorHandoffState::Local;
        true
    }

    /// The pointer has come back; `true` where the cursor has to be shown.
    pub fn release_remote(&mut self) -> (was_hidden: bool)
        ensures
            was_hidden == (*old(self) is RemoteHidden),
            *final(self) == handoff_after(*old(self), HandoffStep::Release),
    {
        let was_hidden: bool = match self {
            CursorHandoffState::RemoteHidden => true,
            _ => false,
        };
        if self.enabled() {
            *self = CursorHandoffState::Local;
        }
        was_hidden
    }

    /// Hides no cursor from now on; `true` where it has to be shown.
    pub fn disable(&mut self) -> (was_hidden: bool)
        ensures
            was_hidden == (*old(self) is RemoteHidden),
            *final(self) == handoff_after(*old(self), HandoffStep::Disable),
    {
        let was_hidden: bool = match self {
            CursorHandoffState::RemoteHidden => true,
            _ => false,
        };
        *self = CursorHandoffState::Disabled;
        was_hidden
    }

    /// Whether the cursor is hidden at all.
    pub fn enabled(self) -> (enabled: bool)
        ensures
            enabled == (self !is Disabled),
    {
        match self {
            CursorHandoffState::Disabled => false,
            _ => true,
        }
    }

    /// Whether the pointer is at the peer's.
    pub fn remote_active(self) -> (active: bool)
        ensures
            active == self.is_remote(),
    {
        match self {
            CursorHandoffState::RemotePending { .. } | CursorHandoffState::RemoteHidden => true,
            _ => false,
        }
    }
}

/// A step of the handoff.
pub enum HandoffStep {
    Enter { now: Instant, hide_delay_ms: u64 },
    Look { now: Instant },
    LocalActivity,
    Release,
    Disable,
}

/// The state after a step, as the methods leave it.
pub open spec fn handoff_after(state: CursorHandoffState, step: HandoffStep) -> CursorHandoffState {
    match step {
        HandoffStep::Enter { now, hide_delay_ms } => if state is Disabled {
            state
        } else {
            CursorHandoffState::RemotePending {
                hide_at: now.later(crate::clock::millis(hide_delay_ms as int)),
            }
        },
        HandoffStep::Look { now } => match state {
            CursorHandoffState::RemotePending { hide_at } => if hide_at.nanos <= now.nanos {
                CursorHandoffState::RemoteHidden
            } else {
                state
            },
            _ => state,
        },
        HandoffStep::LocalActivity => if state.is_remote() {
            CursorHandoffState::Local
        } else {
            state
        },
        HandoffStep::Release => if state is Disabled {
            state
        } else {
            CursorHandoffState::Local
        },
        HandoffStep::Disable => CursorHandoffState::Disabled,
    }
}

/// The state after some steps.
pub open spec fn handoff_after_all(
    state: CursorHandoffState,
    steps: Seq<HandoffStep>,
) -> CursorHandoffState
    decreases steps.len(),
{
    if steps.len() == 0 {
        state
    } else {
        handoff_after_all(handoff_after(state, steps[0]), steps.skip(1))
    }
}

/// Once disabled, no steps ever hide the cursor or send the pointer away.
pub proof fn law_disabled_stays_disabled(steps: Seq<HandoffStep>)
    ensures
        handoff_after_all(CursorHandoffState::Disabled, steps) == CursorHandoffState::Disabled,
    decreases steps.len(),
{
    if steps.len() > 0 {
        assert(handoff_after(CursorHandoffState::Disabled, steps[0])
            == CursorHandoffState::Disabled);
        law_disabled_stays_disabled(steps.skip(1));
    }
}

/// A cursor that is hidden was due: it becomes hidden only by a look at the
/// clock, at or behind the time that entering set.
pub proof fn law_hidden_only_when_due(state: CursorHandoffState, step: HandoffStep)
    requires
        state !is RemoteHidden,
        handoff_after(state, step) is RemoteHidden,
    ensures
        step matches HandoffStep::Look { now } && state matches CursorHandoffState::RemotePending {
            hide_at,
        } && hide_at.nanos <= now.nanos,
{
}

/// A release or local activity before the time takes the plan to hide back.
pub proof fn law_release_cancels_hiding(state: CursorHandoffState, now: Instant)
    ensures
        handoff_after(handoff_after(state, HandoffStep::Release), HandoffStep::Look { now })
            !is RemoteHidden,
        handoff_after(handoff_after(state, HandoffStep::LocalActivity), HandoffStep::Look { now })
            !is RemoteHidden,
{
}

/// The cursor is hidden exactly when the delay is over: not while it runs, and
/// at the first look behind it; whatever the state was before the pointer left,
/// unless hiding is disabled.
pub proof fn law_cursor_is_hidden_after_the_delay(
    state: CursorHandoffState,
    left: Instant,
    hide_delay_ms: u64,
    now: Instant,
)
    requires
        state != CursorHandoffState::Disabled,
        left.nanos + hide_delay_ms * 1_000_000 <= u64::MAX,
    ensures
        ({
            let gone = handoff_after(state, HandoffStep::Enter { now: left, hide_delay_ms });
            let looked = handoff_after(gone, HandoffStep::Look { now });
            &&& now.nanos >= left.nanos + hide_delay_ms * 1_000_000 ==> looked
                == CursorHandoffState::RemoteHidden
            &&& now.nanos < left.nanos + hide_delay_ms * 1_000_000 ==> looked == gone && looked
                != CursorHandoffState::RemoteHidden
        }),
{
}

/// The pointer is back wherever the local mouse is moved or the peer gives it
/// back, also with the cursor hidden; a local mouse that was here all along
/// changes nothing.
pub proof fn law_pointer_comes_back(state: CursorHandoffState)
    ensures
        state matches CursorHandoffState::RemotePending { .. } ==> handoff_after(
            state,
            HandoffStep::LocalActivity,
        ) == CursorHandoffState::Local,
        state == CursorHandoffState::RemoteHidden ==> handoff_after(
            state,
            HandoffStep::LocalActivity,
        ) == CursorHandoffState::Local,
        state == CursorHandoffState::Local ==> handoff_after(state, HandoffStep::LocalActivity)
            == state,
        state != CursorHandoffState::Disabled ==> handoff_after(state, HandoffStep::Release)
            == CursorHandoffState::Local,
        handoff_after(state, HandoffStep::Disable) == CursorHandoffState::Disabled,
{
}

} // verus!
