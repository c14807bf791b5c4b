//! What keeps a capture of the local input from outliving those it depends on.

use crate::clock::{millis, Instant, NANOS_PER_MILLI};
use crate::protocol::Edge;
use crate::text::str_eq;
use vstd::prelude::*;

verus! {

/// How long a capture may go without a sign of its owner, in milliseconds.
pub const CAPTURE_OWNER_LEASE_MILLIS: u64 = 3_000;

/// How long the desktop portal must keep one owner to be relied on, in milliseconds.
pub const PORTAL_OWNER_STABLE_MILLIS: u64 = 1_000;

/// How long the desktop portal is waited for, in milliseconds.
pub const PORTAL_OWNER_WAIT_MILLIS: u64 = 3_000;

/// The time for which the owner of a capture has vouched.
///
/// An armed capture is released where the owner stops vouching, so that an
/// owner that hangs cannot keep the local keyboard and pointer.
#[derive(Clone, Copy, Debug, PartialEq, Eq, Structural)]
pub struct CaptureOwnerLease {
    pub epoch: Instant,
    /// Milliseconds after the epoch; none where nobody has vouched.
    pub deadline_millis: u64,
}

impl CaptureOwnerLease {
    /// The lease with its end so much later, counted from now.
    pub open spec fn renewed(self, now: Instant) -> Self {
        CaptureOwnerLease {
            deadline_millis: (self.elapsed_millis(now) + CAPTURE_OWNER_LEASE_MILLIS) as u64,
            ..self
        }
    }

    /// The lease that nobody has vouched for.
    pub open spec fn cleared(self) -> Self {
        CaptureOwnerLease { deadline_millis: 0, ..self }
    }

    /// Full milliseconds since the epoch.
    pub open spec fn elapsed_millis(self, now: Instant) -> int {
        now.since(self.epoch) / (NANOS_PER_MILLI as int)
    }

    /// Whether the owner has been silent for too long.
    pub open spec fn has_expired(self, now: Instant) -> bool {
        self.deadline_millis != 0 && self.elapsed_millis(now) >= self.deadline_millis
    }

    /// A lease that nobody has taken.
    pub fn new(now: Instant) -> (lease: Self)
        ensures
            lease == (CaptureOwnerLease { epoch: now, deadline_millis: 0 }),
    {
        CaptureOwnerLease { epoch: now, deadline_millis: 0 }
    }

    /// The owner vouches for the next moments.
    pub fn renew(&mut self, now: Instant)
        ensures
            *final(self) == old(self).renewed(now),
            final(self).deadline_millis == old(self).elapsed_millis(now)
                + CAPTURE_OWNER_LEASE_MILLIS,
    {
        self.deadline_millis =
        now.duration_since(self.epoch) / NANOS_PER_MILLI + CAPTURE_OWNER_LEASE_MILLIS;
    }

    /// There is nothing to vouch for.
    pub fn clear(&mut self)
        ensures
            *final(self) == old(self).cleared(),
    {
        self.deadline_millis = 0;
    }

    /// Whether the owner has been silent for too long.
    pub fn expired(&self, now: Instant) -> (expired: bool)
        ensures
            expired == self.has_expired(now),
    {
        self.deadline_millis != 0 && now.duration_since(self.epoch) / NANOS_PER_MILLI
            >= self.deadline_millis
    }
}

/// A lease that was just renewed holds for its whole time, and no longer.
pub proof fn law_lease_runs_out(lease: CaptureOwnerLease, renewed: Instant, now: Instant)
    requires
        lease.epoch.nanos <= renewed.nanos <= now.nanos,
        lease.deadline_millis == lease.elapsed_millis(renewed) + CAPTURE_OWNER_LEASE_MILLIS,
    ensures
        now.since(renewed) < millis(CAPTURE_OWNER_LEASE_MILLIS - 1) ==> !lease.has_expired(now),
        now.since(renewed) >= millis(CAPTURE_OWNER_LEASE_MILLIS as int) ==> lease.has_expired(now),
{
}

/// A lease that nobody holds never runs out.
pub proof fn law_cleared_lease_does_not_run_out(lease: CaptureOwnerLease, now: Instant)
    requires
        lease.deadline_millis == 0,
    ensures
        !lease.has_expired(now),
{
}

/// Why the portal of the desktop cannot be used.
#[derive(Clone, Copy, Debug, PartialEq, Eq, Structural)]
pub enum PortalProblem {
    StoppedResponding,
    TaskEnded,
    TimedOut,
    OwnerUnstable,
    TaskClosed,
    NoZones,
    EveryBarrierRefused(Edge),
}

impl PortalProblem {
    /// The words for it.
    pub open spec fn words(self) -> Seq<char> {
        match self {
            PortalProblem::StoppedResponding =>
                "InputCapture portal process previously stopped responding; restart xdg-desktop-portal before retrying capture"@,
            PortalProblem::TaskEnded => "InputCapture portal task ended during preflight"@,
            PortalProblem::TimedOut =>
                "InputCapture portal stopped responding during preflight; retries are blocked for this portal process until xdg-desktop-portal is restarted"@,
            PortalProblem::OwnerUnstable =>
                "xdg-desktop-portal did not retain one D-Bus owner for 1000 milliseconds"@,
            PortalProblem::TaskClosed => "portal capture task is not running"@,
            PortalProblem::NoZones => "InputCapture portal returned no pointer-barrier zones"@,
            PortalProblem::EveryBarrierRefused(Edge::Left) =>
                "InputCapture portal rejected every requested Left pointer barrier"@,
            PortalProblem::EveryBarrierRefused(Edge::Right) =>
                "InputCapture portal rejected every requested Right pointer barrier"@,
            PortalProblem::EveryBarrierRefused(Edge::Top) =>
                "InputCapture portal rejected every requested Top pointer barrier"@,
            PortalProblem::EveryBarrierRefused(Edge::Bottom) =>
                "InputCapture portal rejected every requested Bottom pointer barrier"@,
        }
    }

    /// The words for it.
    pub fn text(self) -> (text: String)
        ensures
            text@ == self.words(),
    {
        match self {
            PortalProblem::StoppedResponding =>
                "InputCapture portal process previously stopped responding; restart xdg-desktop-portal before retrying capture".to_owned(),
            PortalProblem::TaskEnded => "InputCapture portal task ended during preflight".to_owned(),
            PortalProblem::TimedOut =>
                "InputCapture portal stopped responding during preflight; retries are blocked for this portal process until xdg-desktop-portal is restarted".to_owned(),
            PortalProblem::OwnerUnstable =>
                "xdg-desktop-portal did not retain one D-Bus owner for 1000 milliseconds".to_owned(),
            PortalProblem::TaskClosed => "portal capture task is not running".to_owned(),
            PortalProblem::NoZones =>
                "InputCapture portal returned no pointer-barrier zones".to_owned(),
            PortalProblem::EveryBarrierRefused(Edge::Left) =>
                "InputCapture portal rejected every requested Left pointer barrier".to_owned(),
            PortalProblem::EveryBarrierRefused(Edge::Right) =>
                "InputCapture portal rejected every requested Right pointer barrier".to_owned(),
            PortalProblem::EveryBarrierRefused(Edge::Top) =>
                "InputCapture portal rejected every requested Top pointer barrier".to_owned(),
            PortalProblem::EveryBarrierRefused(Edge::Bottom) =>
                "InputCapture portal rejected every requested Bottom pointer barrier".to_owned(),
        }
    }
}

/// The portal process that stopped answering, if one did.
#[derive(Clone, Debug)]
pub struct PortalGenerationGate {
    pub poisoned: Option<String>,
}

impl View for PortalGenerationGate {
    type V = Option<Seq<char>>;

    open spec fn view(&self) -> Option<Seq<char>> {
        match self.poisoned {
            Some(owner) => Some(owner@),
            None => None,
        }
    }
}

impl Default for PortalGenerationGate {
    /// Every portal process answers.
    fn default() -> (gate: Self)
        ensures
            gate@ is None,
    {
        PortalGenerationGate { poisoned: None }
    }
}

/// Whether a portal process is the one that stopped answering.
pub open spec fn refused(blamed: Option<Seq<char>>, generation: Seq<char>) -> bool {
    blamed == Some(generation)
}

/// Who is blamed once a portal process was seen.
pub open spec fn blame_after(blamed: Option<Seq<char>>, generation: Seq<char>) -> Option<
    Seq<char>,
> {
    if refused(blamed, generation) {
        blamed
    } else {
        None
    }
}

impl PortalGenerationGate {
    /// Refuses the portal process that stopped answering; another one takes the blame away.
    pub fn ensure_available(&mut self, generation: &str) -> (available: Result<(), PortalProblem>)
        ensures
            available == (if refused(old(self)@, generation@) {
                Err::<(), PortalProblem>(PortalProblem::StoppedResponding)
            } else {
                Ok(())
            }),
            final(self)@ == blame_after(old(self)@, generation@),
    {
        let blamed = match &self.poisoned {
            Some(owner) => str_eq(owner.as_str(), generation),
            None => false,
        };
        if blamed {
            Err(PortalProblem::StoppedResponding)
        } else {
            self.poisoned = None;
            Ok(())
        }
    }

    /// Notes that a portal process stopped answering.
    pub fn poison(&mut self, generation: &str)
        ensures
            final(self)@ == Some(generation@),
    {
        self.poisoned = Some(generation.to_owned());
    }

    /// Turns what came of a preflight into its result. A preflight that went
    /// unanswered blames the portal process, where it is known.
    pub fn settle_preflight(
        &mut self,
        outcome: PreflightOutcome,
        generation: &Option<String>,
    ) -> (result: Result<(), PreflightFailure>)
        ensures
            result == outcome.result(),
            final(self)@ == outcome.blaming(
                old(self)@,
                match *generation {
                    Some(owner) => Some(owner@),
                    None => None,
                },
            ),
    {
        match outcome {
            PreflightOutcome::Ready => Ok(()),
            PreflightOutcome::Refused(error) => Err(PreflightFailure::Refused(error)),
            PreflightOutcome::Ended => Err(PreflightFailure::Portal(PortalProblem::TaskEnded)),
            PreflightOutcome::TimedOut => {
                match generation {
                    Some(owner) => self.poison(owner.as_str()),
                    None => {},
                }
                Err(PreflightFailure::Portal(PortalProblem::TimedOut))
            },
        }
    }
}

/// What came of a preflight.
#[derive(Clone, Debug)]
pub enum PreflightOutcome {
    Ready,
    Refused(String),
    Ended,
    TimedOut,
}

/// Why a preflight failed.
#[derive(Clone, Debug)]
pub enum PreflightFailure {
    Refused(String),
    Portal(PortalProblem),
}

impl PreflightOutcome {
    /// Which portal process is to blame behind it: one that let the time run
    /// out is.
    pub open spec fn blaming(
        self,
        blamed: Option<Seq<char>>,
        generation: Option<Seq<char>>,
    ) -> Option<Seq<char>> {
        if self is TimedOut && generation is Some {
            generation
        } else {
            blamed
        }
    }

    /// What a preflight that ended like this returns.
    pub open spec fn result(self) -> Result<(), PreflightFailure> {
        match self {
            PreflightOutcome::Ready => Ok(()),
            PreflightOutcome::Refused(error) => Err(PreflightFailure::Refused(error)),
            PreflightOutcome::Ended => Err(PreflightFailure::Portal(PortalProblem::TaskEnded)),
            PreflightOutcome::TimedOut => Err(PreflightFailure::Portal(PortalProblem::TimedOut)),
        }
    }
}

/// Follows the owner of the portal until one has stayed long enough.
#[derive(Clone, Debug)]
pub struct StablePortalOwner {
    pub candidate: Option<(String, Instant)>,
}

impl View for StablePortalOwner {
    type V = Option<(Seq<char>, Instant)>;

    open spec fn view(&self) -> Option<(Seq<char>, Instant)> {
        match self.candidate {
            Some((owner, since)) => Some((owner@, since)),
            None => None,
        }
    }
}

impl Default for StablePortalOwner {
    /// No owner was seen.
    fn default() -> (stable: Self)
        ensures
            stable@ is None,
    {
        StablePortalOwner { candidate: None }
    }
}

/// The owner that is followed once `owner` was seen.
pub open spec fn followed(
    before: Option<(Seq<char>, Instant)>,
    owner: Seq<char>,
    now: Instant,
) -> Option<(Seq<char>, Instant)> {
    match before {
        Some((candidate, since)) if candidate == owner => Some((candidate, since)),
        _ => Some((owner, now)),
    }
}

/// Whether an owner that is seen has stayed long enough.
pub open spec fn has_stayed(
    before: Option<(Seq<char>, Instant)>,
    owner: Seq<char>,
    now: Instant,
) -> bool {
    match before {
        Some((candidate, since)) => candidate == owner && now.since(since) >= millis(
            PORTAL_OWNER_STABLE_MILLIS as int,
        ),
        None => false,
    }
}

impl StablePortalOwner {
    /// Sees an owner, and gives it back where it has stayed long enough.
    pub fn observe(&mut self, owner: String, now: Instant) -> (stable: Option<String>)
        ensures
            final(self)@ == followed(old(self)@, owner@, now),
            stable is Some <==> has_stayed(old(self)@, owner@, now),
            stable is Some ==> stable->0@ == owner@,
    {
        let (same, stayed) = match &self.candidate {
            Some((candidate, since)) => (
                str_eq(candidate.as_str(), owner.as_str()),
                now.is_millis_after(*since, PORTAL_OWNER_STABLE_MILLIS),
            ),
            None => (false, false),
        };
        if same {
            if stayed {
                Some(owner)
            } else {
                None
            }
        } else {
            self.candidate = Some((owner, now));
            None
        }
    }

    /// Nobody owns the portal.
    pub fn clear(&mut self)
        ensures
            final(self)@ is None,
    {
        self.candidate = None;
    }

    /// One look at the owner of the portal while it is waited for; `None` where
    /// the portal has no owner.
    pub fn wait_step(&mut self, owner: Option<String>, started: Instant, now: Instant) -> (step:
        OwnerWait)
        ensures
            step is TooLate <==> now.nanos >= started.later(
                millis(PORTAL_OWNER_WAIT_MILLIS as int),
            ).nanos,
            step is TooLate ==> final(self)@ == old(self)@,
            step !is TooLate ==> (match owner {
                Some(name) => {
                    &&& final(self)@ == followed(old(self)@, name@, now)
                    &&& step is Stable <==> has_stayed(old(self)@, name@, now)
                    &&& step matches OwnerWait::Stable(found) ==> found@ == name@
                },
                None => final(self)@ is None && step is LookAgain,
            }),
    {
        if now.nanos >= started.plus_millis(PORTAL_OWNER_WAIT_MILLIS).nanos {
            return OwnerWait::TooLate;
        }
        match owner {
            Some(name) => match self.observe(name, now) {
                Some(stable) => OwnerWait::Stable(stable),
                None => OwnerWait::LookAgain,
            },
            None => {
                self.clear();
                OwnerWait::LookAgain
            },
        }
    }
}

/// What a look at the owner of the portal calls for.
#[derive(Clone, Debug)]
pub enum OwnerWait {
    Stable(String),
    LookAgain,
    TooLate,
}

/// A portal process that stopped answering is refused however often it is
/// tried; another one is not, and with it the blame ends.
pub proof fn law_blame_ends_with_the_process(blamed: Seq<char>, other: Seq<char>)
    requires
        blamed != other,
    ensures
        refused(Some(blamed), blamed),
        blame_after(Some(blamed), blamed) == Some(blamed),
        !refused(Some(blamed), other),
        !refused(blame_after(Some(blamed), other), blamed),
{
}

/// An owner counts as stable only where every look since the first showed it:
/// another owner, or none, starts the time anew.
pub proof fn law_stability_starts_anew(
    before: Option<(Seq<char>, Instant)>,
    owner: Seq<char>,
    other: Seq<char>,
    changed: Instant,
    now: Instant,
)
    requires
        owner != other,
        now.since(changed) < millis(PORTAL_OWNER_STABLE_MILLIS as int),
    ensures
        !has_stayed(followed(followed(before, other, changed), owner, changed), owner, now),
        !has_stayed(None, owner, now),
{
}

/// What a capture that is released and then disarmed reports: what went wrong first.
pub fn released_and_disarmed(release: Result<(), String>, disarm: Result<(), String>) -> (result:
    Result<(), String>)
    ensures
        result == (if release is Err {
            release
        } else {
            disarm
        }),
{
    match release {
        Err(error) => Err(error),
        Ok(()) => disarm,
    }
}

/// An owner that vouches keeps the capture for about three seconds each time,
/// however often and whenever it does; one that gave it up cannot lose it.
pub proof fn law_vouching_keeps_the_capture(
    lease: CaptureOwnerLease,
    renewed: Instant,
    now: Instant,
)
    requires
        lease.epoch.nanos <= renewed.nanos <= now.nanos,
    ensures
        now.nanos - renewed.nanos < 2_999_000_000 ==> !lease.renewed(renewed).has_expired(now),
        now.nanos - renewed.nanos >= 3_000_000_000 ==> lease.renewed(renewed).has_expired(now),
        !lease.cleared().has_expired(now),
        !lease.renewed(renewed).cleared().has_expired(now),
{
    assert(lease.elapsed_millis(renewed) + CAPTURE_OWNER_LEASE_MILLIS <= u64::MAX)
        by (nonlinear_arith)
        requires
            lease.elapsed_millis(renewed) == renewed.since(lease.epoch) / (NANOS_PER_MILLI as int),
            0 <= renewed.since(lease.epoch) <= u64::MAX,
            NANOS_PER_MILLI == 1_000_000,
            CAPTURE_OWNER_LEASE_MILLIS == 3_000,
    ;
    law_lease_runs_out(lease.renewed(renewed), renewed, now);
}

/// Only a portal process that let the time of a preflight run out is blamed,
/// and from then on it alone is refused.
pub proof fn law_hanging_portal_is_blamed(
    blamed: Option<Seq<char>>,
    generation: Seq<char>,
    other: Seq<char>,
    error: String,
)
    ensures
        refused(PreflightOutcome::TimedOut.blaming(blamed, Some(generation)), generation),
        other != generation ==> !refused(
            PreflightOutcome::TimedOut.blaming(blamed, Some(generation)),
            other,
        ),
        PreflightOutcome::Ready.blaming(blamed, Some(generation)) == blamed,
        PreflightOutcome::Ended.blaming(blamed, Some(generation)) == blamed,
        PreflightOutcome::Refused(error).blaming(blamed, Some(generation)) == blamed,
        PreflightOutcome::TimedOut.blaming(blamed, None) == blamed,
        PreflightOutcome::Ready.result() is Ok,
        PreflightOutcome::Refused(error).result() == Err::<(), PreflightFailure>(
            PreflightFailure::Refused(error),
        ),
        PreflightOutcome::Ended.result() is Err,
        PreflightOutcome::TimedOut.result() is Err,
{
}

/// A portal process that is seen again a second after it was first seen, with
/// no other in between, counts as there to stay; before that it does not.
pub proof fn law_lasting_owner_is_stable(
    before: Option<(Seq<char>, Instant)>,
    owner: Seq<char>,
    other: Seq<char>,
    first: Instant,
    again: Instant,
    now: Instant,
)
    requires
        other != owner,
        first.nanos <= again.nanos <= now.nanos,
    ensures
        ({
            let seen = followed(followed(before, other, first), owner, first);
            let seen_again = followed(seen, owner, again);
            &&& has_stayed(seen, owner, now) <==> now.nanos - first.nanos >= 1_000_000_000
            &&& has_stayed(seen_again, owner, now) <==> now.nanos - first.nanos >= 1_000_000_000
            &&& !has_stayed(seen, other, now)
        }),
{
}

} // verus!
