//! A running capture: what it does on every event of the portal, of the
//! compositor and of its owner.

use crate::capture::{
    barrier_metadata, barrier_named, eis_action, handle_eis_event, held_after_eis,
    BarrierMetadata, CaptureInputState, EisAction, EisEvent,
};
use crate::protocol::{F32Bits, InputEvent};
use crate::session::CaptureEvent;
use crate::text::str_eq;
use vstd::prelude::*;

verus! {

/// What the owner of a capture asks for.
#[derive(Clone, Copy, Debug, PartialEq, Eq, Structural)]
pub enum CaptureCommand {
    Arm,
    Release,
    Disarm,
    Shutdown,
}

/// One thing to do.
#[derive(Clone, Debug, PartialEq, Eq)]
pub enum CaptureAction {
    /// Nobody has to vouch for the capture any more.
    ClearLease,
    /// Ask the portal to capture at the barriers, and report what came of it.
    Enable,
    /// Ask the portal to let the pointer go, at the position that was asked for,
    /// and report what came of it.
    Release { activation_id: u32 },
    /// Let the pointer go because the chord was pressed, and report what came of it.
    ReleaseInEmergency { activation_id: u32 },
    /// Ask the portal to capture no more, and report what came of it.
    Disable,
    /// Ask the portal to capture no more while the layout changes, and report
    /// what came of it.
    DisableForLayout,
    /// Tell the owner that its command was carried out.
    AnswerDone,
    /// Tell the owner that its command failed, and why.
    AnswerFailed(String),
    /// Let the pointer go where it is held, capture no more and close the
    /// session, each with a short time limit.
    ForceClose { held: Option<u32> },
    /// Let the pointer go, whatever comes of it.
    ReleaseAtEnd { activation_id: u32 },
    /// Capture no more, whatever comes of it.
    DisableAtEnd,
    /// Close the session.
    CloseSession,
    /// Find the barriers of the new layout, and report them.
    ConfigureBarriers,
    /// Make the number of the layout known.
    PublishZoneSet(u32),
    /// Ask for the devices of a seat.
    BindSeat,
    /// Report something to the owner.
    Emit(CaptureEvent),
    /// The capture is over, as its owner wished.
    Finish,
    /// The capture is over.
    Fail(CaptureFailure),
}

/// Why a capture ended by itself.
#[derive(Clone, Debug, PartialEq, Eq)]
pub enum CaptureFailure {
    OwnerChanged(String),
    DisableFailed(String),
    OwnerSilent,
    SessionRevoked,
    EventsEnded,
    Portal(String),
}

impl CaptureFailure {
    /// The words for it.
    pub open spec fn words(self) -> Seq<char> {
        match self {
            CaptureFailure::OwnerChanged(detail) =>
                "xdg-desktop-portal owner changed while capture was active ("@ + detail@
                    + "); discarded the stale session"@,
            CaptureFailure::DisableFailed(detail) =>
                "failed to disable capture; portal session was closed to restore local input: "@
                    + detail@,
            CaptureFailure::OwnerSilent =>
                "capture owner stopped responding; portal session was closed to restore local input"@,
            CaptureFailure::SessionRevoked => "InputCapture portal session was revoked"@,
            CaptureFailure::EventsEnded => "EIS event stream closed"@,
            CaptureFailure::Portal(error) => error@,
        }
    }

    /// The words for it.
    pub fn text(self) -> (text: String)
        ensures
            text@ == self.words(),
    {
        match self {
            CaptureFailure::OwnerChanged(detail) =>
                "xdg-desktop-portal owner changed while capture was active (".to_owned().concat(
                    detail.as_str(),
                ).concat("); discarded the stale session"),
            CaptureFailure::DisableFailed(detail) =>
                "failed to disable capture; portal session was closed to restore local input: ".to_owned().concat(
                    detail.as_str(),
                ),
            CaptureFailure::OwnerSilent =>
                "capture owner stopped responding; portal session was closed to restore local input".to_owned(),
            CaptureFailure::SessionRevoked =>
                "InputCapture portal session was revoked".to_owned(),
            CaptureFailure::EventsEnded => "EIS event stream closed".to_owned(),
            CaptureFailure::Portal(error) => error,
        }
    }
}

/// What was learned of the owner of the portal.
#[derive(Clone, Debug, PartialEq, Eq)]
pub enum OwnerChange {
    /// The portal now belongs to somebody, or to nobody.
    Owner(Option<String>),
    /// A change was reported that could not be read.
    Unreadable(String),
    /// No more changes will be reported.
    MonitorEnded,
}

impl OwnerChange {
    /// Whether the portal still belongs to a given owner.
    pub open spec fn keeps(self, generation: Seq<char>) -> bool {
        self matches OwnerChange::Owner(Some(owner)) && owner@ == generation
    }

    /// The words for it, given the owner before.
    pub open spec fn words(self, generation: Seq<char>) -> Seq<char> {
        match self {
            OwnerChange::Owner(Some(owner)) => generation + " -> "@ + owner@,
            OwnerChange::Owner(None) => generation + " -> no owner"@,
            OwnerChange::Unreadable(error) => "could not decode portal owner change: "@ + error@,
            OwnerChange::MonitorEnded => "portal owner-change monitor ended"@,
        }
    }

    fn is_kept(&self, generation: &String) -> (kept: bool)
        ensures
            kept == self.keeps(generation@),
    {
        match self {
            OwnerChange::Owner(Some(owner)) => str_eq(owner.as_str(), generation.as_str()),
            _ => false,
        }
    }

    fn text(self, generation: &String) -> (text: String)
        ensures
            text@ == self.words(generation@),
    {
        match self {
            OwnerChange::Owner(Some(owner)) => generation.clone().concat(" -> ").concat(
                owner.as_str(),
            ),
            OwnerChange::Owner(None) => generation.clone().concat(" -> no owner"),
            OwnerChange::Unreadable(error) => "could not decode portal owner change: ".to_owned().concat(
                error.as_str(),
            ),
            OwnerChange::MonitorEnded => "portal owner-change monitor ended".to_owned(),
        }
    }
}

/// A capture that runs.
#[derive(Debug)]
pub struct PortalCapture {
    generation: String,
    activation_id: Option<u32>,
    armed: bool,
    owner_valid: bool,
    zone_set: u32,
    invalidated: u32,
    barriers: Vec<(u32, BarrierMetadata)>,
    input: CaptureInputState,
}

/// What a capture remembers.
#[verifier::ext_equal]
pub struct CaptureState {
    /// The portal process that the session belongs to.
    pub generation: Seq<char>,
    /// The crossing of a barrier that holds the pointer.
    pub activation_id: Option<u32>,
    /// Whether barriers hold the pointer.
    pub armed: bool,
    /// Whether the portal process is still there.
    pub owner_valid: bool,
    /// The number of the layout.
    pub zone_set: u32,
    /// The number of the layout that is being replaced.
    pub invalidated: u32,
    pub barriers: Seq<(u32, BarrierMetadata)>,
    /// The keys that are held.
    pub held: Set<u16>,
}

impl View for PortalCapture {
    type V = CaptureState;

    closed spec fn view(&self) -> CaptureState {
        CaptureState {
            generation: self.generation@,
            activation_id: self.activation_id,
            armed: self.armed,
            owner_valid: self.owner_valid,
            zone_set: self.zone_set,
            invalidated: self.invalidated,
            barriers: self.barriers@,
            held: self.input@,
        }
    }
}

/// Letting go of every key, as it is reported.
pub open spec fn all_keys_up() -> CaptureAction {
    CaptureAction::Emit(CaptureEvent::Input(InputEvent::AllKeysUp))
}

/// Nothing to do.
pub open spec fn idle() -> Seq<CaptureAction> {
    Seq::empty()
}

impl CaptureState {
    /// No key is held.
    pub open spec fn cleared(self) -> Self {
        CaptureState { held: Set::empty(), ..self }
    }

    /// What a change of the portal process takes: where it is another one, every
    /// key is let go and the capture is over, and it is said why.
    pub open spec fn follows(self, change: OwnerChange, actions: Seq<CaptureAction>) -> bool {
        if change.keeps(self.generation) {
            actions == idle()
        } else {
            &&& actions.len() == 3
            &&& actions[0] == CaptureAction::ClearLease
            &&& actions[1] == all_keys_up()
            &&& actions[2] matches CaptureAction::Fail(CaptureFailure::OwnerChanged(detail))
                && detail@ == change.words(self.generation)
        }
    }

    /// After a report on the owner of the portal: a new one ends the capture,
    /// and the session of the old one is not touched again.
    pub open spec fn after_owner_change(self, change: OwnerChange) -> Self {
        if change.keeps(self.generation) {
            self
        } else {
            CaptureState { owner_valid: false, ..self }.cleared()
        }
    }

    /// After a command.
    pub open spec fn after_command(self, command: CaptureCommand) -> (Self, Seq<CaptureAction>) {
        match command {
            CaptureCommand::Arm => (self, idle().push(CaptureAction::Enable)),
            CaptureCommand::Release => (
                self,
                match self.activation_id {
                    Some(activation_id) => idle().push(CaptureAction::Release { activation_id }),
                    None => idle().push(CaptureAction::AnswerDone),
                },
            ),
            CaptureCommand::Disarm => (
                CaptureState { armed: false, ..self },
                idle().push(CaptureAction::ClearLease).push(CaptureAction::Disable),
            ),
            CaptureCommand::Shutdown => (
                CaptureState { armed: false, ..self },
                idle().push(CaptureAction::ClearLease).push(CaptureAction::Finish),
            ),
        }
    }

    /// After the portal was asked to capture.
    pub open spec fn after_enable(self, failure: Option<String>) -> (Self, Seq<CaptureAction>) {
        (
            CaptureState { armed: failure is None, ..self },
            match failure {
                None => idle().push(CaptureAction::AnswerDone),
                Some(error) => idle().push(CaptureAction::ClearLease).push(
                    CaptureAction::AnswerFailed(error),
                ),
            },
        )
    }

    /// After the portal was asked to let the pointer go.
    pub open spec fn after_release(self, failure: Option<String>) -> (Self, Seq<CaptureAction>) {
        match failure {
            None => (
                CaptureState { activation_id: None, ..self },
                idle().push(CaptureAction::AnswerDone),
            ),
            Some(error) => (self, idle().push(CaptureAction::AnswerFailed(error))),
        }
    }

    /// Closing the session by force.
    pub open spec fn force_closing(self, before: Seq<CaptureAction>, failure: CaptureFailure) -> Seq<
        CaptureAction,
    > {
        before.push(all_keys_up()).push(
            CaptureAction::ForceClose { held: self.activation_id },
        ).push(CaptureAction::Emit(CaptureEvent::EmergencyReleased)).push(
            CaptureAction::Fail(failure),
        )
    }

    /// After the session was closed by force.
    pub open spec fn force_closed(self) -> Self {
        CaptureState { activation_id: None, ..self.cleared() }
    }

    /// After the portal was asked to capture no more.
    pub open spec fn after_disable(self, failure: Option<(String, String)>) -> (
        Self,
        Seq<CaptureAction>,
    ) {
        match failure {
            None => (
                CaptureState { activation_id: None, ..self },
                idle().push(CaptureAction::AnswerDone),
            ),
            Some((answer, detail)) => (
                self.force_closed(),
                self.force_closing(
                    idle().push(CaptureAction::AnswerFailed(answer)),
                    CaptureFailure::DisableFailed(detail),
                ),
            ),
        }
    }

    /// After a look at the lease.
    pub open spec fn after_lease_check(self, expired: bool) -> (Self, Seq<CaptureAction>) {
        if self.armed && expired {
            (
                CaptureState { armed: false, ..self.force_closed() },
                self.force_closing(
                    idle().push(CaptureAction::ClearLease),
                    CaptureFailure::OwnerSilent,
                ),
            )
        } else {
            (self, idle())
        }
    }

    /// After the pointer crossed a barrier.
    pub open spec fn after_activation(
        self,
        activation_id: Option<u32>,
        barrier: Option<u32>,
        normalized_position: F32Bits,
    ) -> (Self, Seq<CaptureAction>) {
        match activation_id {
            Some(id) => (
                CaptureState { activation_id: Some(id), ..self },
                match barrier {
                    Some(number) => match barrier_named(self.barriers, number) {
                        Some(metadata) => idle().push(
                            CaptureAction::Emit(
                                CaptureEvent::Activated {
                                    activation_id: id,
                                    edge: metadata.edge,
                                    normalized_position,
                                },
                            ),
                        ),
                        None => idle(),
                    },
                    None => idle(),
                },
            ),
            None => (self, idle()),
        }
    }

    /// After the compositor let the pointer go, or stopped capturing.
    pub open spec fn after_deactivation(self) -> (Self, Seq<CaptureAction>) {
        (
            CaptureState { activation_id: None, ..self.cleared() },
            idle().push(all_keys_up()).push(CaptureAction::Emit(CaptureEvent::Deactivated)),
        )
    }

    /// After the layout of the desktop changed.
    pub open spec fn after_zones_changed(self, zone_set: Option<u32>) -> (
        Self,
        Seq<CaptureAction>,
    ) {
        (
            CaptureState {
                armed: false,
                invalidated: match zone_set {
                    Some(number) => number,
                    None => self.zone_set,
                },
                ..self
            },
            idle().push(CaptureAction::ClearLease).push(CaptureAction::DisableForLayout),
        )
    }

    /// After the portal was asked to capture no more while the layout changes.
    pub open spec fn after_layout_disable(self, failure: Option<String>) -> (
        Self,
        Seq<CaptureAction>,
    ) {
        match failure {
            None => (
                CaptureState { activation_id: None, ..self.cleared() },
                idle().push(all_keys_up()).push(CaptureAction::ConfigureBarriers),
            ),
            Some(error) => (
                self,
                idle().push(CaptureAction::Fail(CaptureFailure::Portal(error))),
            ),
        }
    }

    /// After the barriers of the new layout were found.
    pub open spec fn after_layout(
        self,
        zone_set: u32,
        barriers: Seq<(u32, BarrierMetadata)>,
    ) -> (Self, Seq<CaptureAction>) {
        (
            CaptureState { zone_set, barriers, ..self },
            idle().push(CaptureAction::PublishZoneSet(zone_set)).push(
                CaptureAction::Emit(
                    CaptureEvent::LayoutChanged {
                        previous_zone_set: self.invalidated,
                        current_zone_set: zone_set,
                    },
                ),
            ),
        )
    }

    /// After the session was lost.
    pub open spec fn after_loss(self, failure: CaptureFailure) -> (Self, Seq<CaptureAction>) {
        (
            self.cleared(),
            idle().push(all_keys_up()).push(CaptureAction::Fail(failure)),
        )
    }

    /// After a report of the captured devices.
    pub open spec fn after_eis(self, event: EisEvent) -> (Self, Seq<CaptureAction>) {
        (
            CaptureState { held: held_after_eis(self.held, event), ..self },
            match eis_action(self.held, event) {
                EisAction::Nothing => idle(),
                EisAction::BindSeat => idle().push(CaptureAction::BindSeat),
                EisAction::Input(input) => idle().push(
                    CaptureAction::Emit(CaptureEvent::Input(input)),
                ),
                EisAction::EmergencyRelease => idle().push(all_keys_up()).push(
                    match self.activation_id {
                        Some(activation_id) => CaptureAction::ReleaseInEmergency { activation_id },
                        None => CaptureAction::Emit(CaptureEvent::EmergencyReleased),
                    },
                ),
            },
        )
    }

    /// After the pointer was let go because the chord was pressed.
    pub open spec fn after_emergency_release(self, failure: Option<String>) -> (
        Self,
        Seq<CaptureAction>,
    ) {
        match failure {
            None => (
                CaptureState { activation_id: None, ..self },
                idle().push(CaptureAction::Emit(CaptureEvent::EmergencyReleased)),
            ),
            Some(error) => (
                self,
                idle().push(CaptureAction::Fail(CaptureFailure::Portal(error))),
            ),
        }
    }

    /// At the end: the session is taken down, where the portal process that
    /// made it is still there.
    pub open spec fn after_end(self) -> (Self, Seq<CaptureAction>) {
        if self.owner_valid {
            let released = match self.activation_id {
                Some(activation_id) => idle().push(CaptureAction::ReleaseAtEnd { activation_id }),
                None => idle(),
            };
            (
                CaptureState { activation_id: None, ..self },
                released.push(CaptureAction::DisableAtEnd).push(CaptureAction::CloseSession),
            )
        } else {
            (self, idle())
        }
    }
}

impl PortalCapture {
    /// A session that was just set up.
    pub fn new(
        generation: String,
        zone_set: u32,
        barriers: Vec<(u32, BarrierMetadata)>,
    ) -> (capture: Self)
        ensures
            capture@ == (CaptureState {
                generation: generation@,
                activation_id: None,
                armed: false,
                owner_valid: true,
                zone_set,
                invalidated: zone_set,
                barriers: barriers@,
                held: Set::empty(),
            }),
    {
        PortalCapture {
            generation,
            activation_id: None,
            armed: false,
            owner_valid: true,
            zone_set,
            invalidated: zone_set,
            barriers,
            input: CaptureInputState::default(),
        }
    }

    /// Takes a report on the owner of the portal.
    pub fn on_owner_change(&mut self, change: OwnerChange) -> (out: Vec<CaptureAction>)
        ensures
            final(self)@ == old(self)@.after_owner_change(change),
            old(self)@.follows(change, out@),
    {
        let mut out: Vec<CaptureAction> = Vec::new();
        if !change.is_kept(&self.generation) {
            self.owner_valid = false;
            self.input.clear();
            out.push(CaptureAction::ClearLease);
            out.push(CaptureAction::Emit(CaptureEvent::Input(InputEvent::AllKeysUp)));
            out.push(
                CaptureAction::Fail(CaptureFailure::OwnerChanged(change.text(&self.generation))),
            );
        }
        out
    }

    /// Takes a command; a closed channel counts as a shutdown.
    pub fn on_command(&mut self, command: CaptureCommand) -> (out: Vec<CaptureAction>)
        ensures
            (final(self)@, out@) == old(self)@.after_command(command),
    {
        let mut out: Vec<CaptureAction> = Vec::new();
        match command {
            CaptureCommand::Arm => out.push(CaptureAction::Enable),
            CaptureCommand::Release => match self.activation_id {
                Some(activation_id) => out.push(CaptureAction::Release { activation_id }),
                None => out.push(CaptureAction::AnswerDone),
            },
            CaptureCommand::Disarm => {
                self.armed = false;
                out.push(CaptureAction::ClearLease);
                out.push(CaptureAction::Disable);
            },
            CaptureCommand::Shutdown => {
                self.armed = false;
                out.push(CaptureAction::ClearLease);
                out.push(CaptureAction::Finish);
            },
        }
        out
    }

    /// The portal was asked to capture.
    pub fn on_enabled(&mut self, failure: Option<String>) -> (out: Vec<CaptureAction>)
        ensures
            (final(self)@, out@) == old(self)@.after_enable(failure),
    {
        let mut out: Vec<CaptureAction> = Vec::new();
        match failure {
            None => {
                self.armed = true;
                out.push(CaptureAction::AnswerDone);
            },
            Some(error) => {
                self.armed = false;
                out.push(CaptureAction::ClearLease);
                out.push(CaptureAction::AnswerFailed(error));
            },
        }
        out
    }

    /// The portal was asked to let the pointer go.
    pub fn on_released(&mut self, failure: Option<String>) -> (out: Vec<CaptureAction>)
        ensures
            (final(self)@, out@) == old(self)@.after_release(failure),
    {
        let mut out: Vec<CaptureAction> = Vec::new();
        match failure {
            None => {
                self.activation_id = None;
                out.push(CaptureAction::AnswerDone);
            },
            Some(error) => out.push(CaptureAction::AnswerFailed(error)),
        }
        out
    }

    fn force_close(&mut self, out: &mut Vec<CaptureAction>, failure: CaptureFailure)
        ensures
            final(self)@ == old(self)@.force_closed(),
            final(out)@ == old(self)@.force_closing(old(out)@, failure),
    {
        self.input.clear();
        out.push(CaptureAction::Emit(CaptureEvent::Input(InputEvent::AllKeysUp)));
        out.push(CaptureAction::ForceClose { held: self.activation_id });
        self.activation_id = None;
        out.push(CaptureAction::Emit(CaptureEvent::EmergencyReleased));
        out.push(CaptureAction::Fail(failure));
    }

    /// The portal was asked to capture no more. A failure is given twice: for
    /// the owner, and for the report.
    pub fn on_disabled(&mut self, failure: Option<(String, String)>) -> (out: Vec<CaptureAction>)
        ensures
            (final(self)@, out@) == old(self)@.after_disable(failure),
    {
        let mut out: Vec<CaptureAction> = Vec::new();
        match failure {
            None => {
                self.activation_id = None;
                out.push(CaptureAction::AnswerDone);
            },
            Some((answer, detail)) => {
                out.push(CaptureAction::AnswerFailed(answer));
                self.force_close(&mut out, CaptureFailure::DisableFailed(detail));
            },
        }
        out
    }

    /// The lease was looked at.
    pub fn on_lease_check(&mut self, expired: bool) -> (out: Vec<CaptureAction>)
        ensures
            (final(self)@, out@) == old(self)@.after_lease_check(expired),
    {
        let mut out: Vec<CaptureAction> = Vec::new();
        if self.armed && expired {
            self.armed = false;
            out.push(CaptureAction::ClearLease);
            self.force_close(&mut out, CaptureFailure::OwnerSilent);
        }
        out
    }

    /// The barrier that the compositor named.
    pub fn barrier(&self, barrier: Option<u32>) -> (metadata: Option<BarrierMetadata>)
        ensures
            metadata == (match barrier {
                Some(id) => barrier_named(self@.barriers, id),
                None => None,
            }),
    {
        barrier_metadata(barrier, &self.barriers)
    }

    /// The pointer crossed a barrier.
    pub fn on_activated(
        &mut self,
        activation_id: Option<u32>,
        barrier: Option<u32>,
        normalized_position: F32Bits,
    ) -> (out: Vec<CaptureAction>)
        ensures
            (final(self)@, out@) == old(self)@.after_activation(
                activation_id,
                barrier,
                normalized_position,
            ),
    {
        let mut out: Vec<CaptureAction> = Vec::new();
        match activation_id {
            Some(id) => {
                self.activation_id = Some(id);
                match barrier_metadata(barrier, &self.barriers) {
                    Some(metadata) => out.push(
                        CaptureAction::Emit(
                            CaptureEvent::Activated {
                                activation_id: id,
                                edge: metadata.edge,
                                normalized_position,
                            },
                        ),
                    ),
                    None => {},
                }
            },
            None => {},
        }
        out
    }

    /// The compositor let the pointer go, or stopped capturing.
    pub fn on_deactivated(&mut self) -> (out: Vec<CaptureAction>)
        ensures
            (final(self)@, out@) == old(self)@.after_deactivation(),
    {
        let mut out: Vec<CaptureAction> = Vec::new();
        self.activation_id = None;
        self.input.clear();
        out.push(CaptureAction::Emit(CaptureEvent::Input(InputEvent::AllKeysUp)));
        out.push(CaptureAction::Emit(CaptureEvent::Deactivated));
        out
    }

    /// The layout of the desktop changed.
    pub fn on_zones_changed(&mut self, zone_set: Option<u32>) -> (out: Vec<CaptureAction>)
        ensures
            (final(self)@, out@) == old(self)@.after_zones_changed(zone_set),
    {
        let mut out: Vec<CaptureAction> = Vec::new();
        self.invalidated =
        match zone_set {
            Some(number) => number,
            None => self.zone_set,
        };
        self.armed = false;
        out.push(CaptureAction::ClearLease);
        out.push(CaptureAction::DisableForLayout);
        out
    }

    /// The portal was asked to capture no more while the layout changes.
    pub fn on_layout_disabled(&mut self, failure: Option<String>) -> (out: Vec<CaptureAction>)
        ensures
            (final(self)@, out@) == old(self)@.after_layout_disable(failure),
    {
        let mut out: Vec<CaptureAction> = Vec::new();
        match failure {
            None => {
                self.activation_id = None;
                self.input.clear();
                out.push(CaptureAction::Emit(CaptureEvent::Input(InputEvent::AllKeysUp)));
                out.push(CaptureAction::ConfigureBarriers);
            },
            Some(error) => out.push(CaptureAction::Fail(CaptureFailure::Portal(error))),
        }
        out
    }

    /// The barriers of the new layout were found.
    pub fn on_layout(&mut self, zone_set: u32, barriers: Vec<(u32, BarrierMetadata)>) -> (out: Vec<
        CaptureAction,
    >)
        ensures
            (final(self)@, out@) == old(self)@.after_layout(zone_set, barriers@),
    {
        let mut out: Vec<CaptureAction> = Vec::new();
        self.zone_set = zone_set;
        self.barriers = barriers;
        out.push(CaptureAction::PublishZoneSet(zone_set));
        out.push(
            CaptureAction::Emit(
                CaptureEvent::LayoutChanged {
                    previous_zone_set: self.invalidated,
                    current_zone_set: zone_set,
                },
            ),
        );
        out
    }

    fn lose(&mut self, failure: CaptureFailure) -> (out: Vec<CaptureAction>)
        ensures
            (final(self)@, out@) == old(self)@.after_loss(failure),
    {
        let mut out: Vec<CaptureAction> = Vec::new();
        self.input.clear();
        out.push(CaptureAction::Emit(CaptureEvent::Input(InputEvent::AllKeysUp)));
        out.push(CaptureAction::Fail(failure));
        out
    }

    /// The portal closed the session.
    pub fn on_closed(&mut self) -> (out: Vec<CaptureAction>)
        ensures
            (final(self)@, out@) == old(self)@.after_loss(CaptureFailure::SessionRevoked),
    {
        self.lose(CaptureFailure::SessionRevoked)
    }

    /// The compositor will report no more.
    pub fn on_events_ended(&mut self) -> (out: Vec<CaptureAction>)
        ensures
            (final(self)@, out@) == old(self)@.after_loss(CaptureFailure::EventsEnded),
    {
        self.lose(CaptureFailure::EventsEnded)
    }

    /// The captured devices reported something.
    pub fn on_eis(&mut self, event: EisEvent) -> (out: Vec<CaptureAction>)
        ensures
            (final(self)@, out@) == old(self)@.after_eis(event),
    {
        let mut out: Vec<CaptureAction> = Vec::new();
        match handle_eis_event(&mut self.input, event) {
            EisAction::Nothing => {},
            EisAction::BindSeat => out.push(CaptureAction::BindSeat),
            EisAction::Input(input) => out.push(CaptureAction::Emit(CaptureEvent::Input(input))),
            EisAction::EmergencyRelease => {
                out.push(CaptureAction::Emit(CaptureEvent::Input(InputEvent::AllKeysUp)));
                match self.activation_id {
                    Some(activation_id) => out.push(
                        CaptureAction::ReleaseInEmergency { activation_id },
                    ),
                    None => out.push(CaptureAction::Emit(CaptureEvent::EmergencyReleased)),
                }
            },
        }
        out
    }

    /// The pointer was let go because the chord was pressed.
    pub fn on_emergency_released(&mut self, failure: Option<String>) -> (out: Vec<CaptureAction>)
        ensures
            (final(self)@, out@) == old(self)@.after_emergency_release(failure),
    {
        let mut out: Vec<CaptureAction> = Vec::new();
        match failure {
            None => {
                self.activation_id = None;
                out.push(CaptureAction::Emit(CaptureEvent::EmergencyReleased));
            },
            Some(error) => out.push(CaptureAction::Fail(CaptureFailure::Portal(error))),
        }
        out
    }

    /// The capture is over.
    pub fn on_end(&mut self) -> (out: Vec<CaptureAction>)
        ensures
            (final(self)@, out@) == old(self)@.after_end(),
    {
        let mut out: Vec<CaptureAction> = Vec::new();
        if self.owner_valid {
            match self.activation_id {
                Some(activation_id) => out.push(CaptureAction::ReleaseAtEnd { activation_id }),
                None => {},
            }
            self.activation_id = None;
            out.push(CaptureAction::DisableAtEnd);
            out.push(CaptureAction::CloseSession);
        }
        out
    }

    /// Whether the lease has to be watched.
    pub fn is_armed(&self) -> (armed: bool)
        ensures
            armed == self@.armed,
    {
        self.armed
    }
}

/// Once the portal process was replaced, ending the capture leaves the session
/// of the old process alone.
pub proof fn law_stale_session_is_left_alone(state: CaptureState, change: OwnerChange)
    requires
        !change.keeps(state.generation),
    ensures
        state.after_owner_change(change).after_end().1 == idle(),
{
}

/// A capture whose owner went silent, or that cannot be disabled, lets go of
/// every key before it closes the session, and closes it before it fails.
pub proof fn law_forced_end_restores_local_input(
    state: CaptureState,
    before: Seq<CaptureAction>,
    failure: CaptureFailure,
)
    ensures
        state.force_closing(before, failure)[before.len() as int] == all_keys_up(),
        state.force_closing(before, failure)[before.len() as int + 1] == (CaptureAction::ForceClose {
            held: state.activation_id,
        }),
        state.force_closing(before, failure).last() == CaptureAction::Fail(failure),
        state.force_closed().activation_id is None,
        state.force_closed().held == Set::<u16>::empty(),
{
}

/// An owner that vouches in time never loses the capture to the lease; a
/// silent one loses an armed capture at the next look.
pub proof fn law_silent_owner_loses_the_capture(state: CaptureState)
    ensures
        state.after_lease_check(false) == (state, idle()),
        state.armed ==> !state.after_lease_check(true).0.armed
            && state.after_lease_check(true).1.last() == CaptureAction::Fail(
            CaptureFailure::OwnerSilent,
        ),
        !state.armed ==> state.after_lease_check(true) == (state, idle()),
{
}

/// A session that is lost, or whose pointer is let go, leaves no key held.
pub proof fn law_losing_the_pointer_leaves_no_key_held(
    state: CaptureState,
    failure: CaptureFailure,
)
    ensures
        state.after_deactivation().0.held == Set::<u16>::empty(),
        state.after_deactivation().1[0] == all_keys_up(),
        state.after_loss(failure).0.held == Set::<u16>::empty(),
        state.after_loss(failure).1[0] == all_keys_up(),
        state.after_layout_disable(None).0.held == Set::<u16>::empty(),
        state.after_layout_disable(None).1[0] == all_keys_up(),
{
}

/// A pointer that was let go is not let go twice: the next release has nothing
/// to do.
pub proof fn law_release_is_done_once(state: CaptureState)
    ensures
        state.after_release(None).0.after_command(CaptureCommand::Release).1 == idle().push(
            CaptureAction::AnswerDone,
        ),
{
}

/// What the owner asks for is what is asked of the portal: to capture, to let
/// the pointer go where it is held, to capture no more, or to end. From the
/// moment that it is to capture no more, the barriers count as down.
pub proof fn law_capture_commands_are_carried_out(state: CaptureState)
    ensures
        state.after_command(CaptureCommand::Arm).0 == state,
        state.after_command(CaptureCommand::Arm).1 =~= seq![CaptureAction::Enable],
        state.after_command(CaptureCommand::Release).0 == state,
        state.activation_id matches Some(activation_id) ==> state.after_command(
            CaptureCommand::Release,
        ).1 =~= seq![CaptureAction::Release { activation_id }],
        state.activation_id is None ==> state.after_command(CaptureCommand::Release).1 =~= seq![
            CaptureAction::AnswerDone,
        ],
        state.after_command(CaptureCommand::Disarm).0 == (CaptureState { armed: false, ..state }),
        state.after_command(CaptureCommand::Disarm).1 =~= seq![
            CaptureAction::ClearLease,
            CaptureAction::Disable,
        ],
        state.after_command(CaptureCommand::Shutdown).0 == (CaptureState { armed: false, ..state }),
        state.after_command(CaptureCommand::Shutdown).1 =~= seq![
            CaptureAction::ClearLease,
            CaptureAction::Finish,
        ],
{
}

/// The owner is answered what came of its command, and the state follows: the
/// barriers are up exactly where capturing succeeded, and the pointer is not
/// held any more where it was let go.
pub proof fn law_capture_commands_are_answered(state: CaptureState, error: String, detail: String)
    ensures
        state.after_enable(None) == (
            CaptureState { armed: true, ..state },
            seq![CaptureAction::AnswerDone],
        ),
        state.after_enable(Some(error)).0 == (CaptureState { armed: false, ..state }),
        state.after_enable(Some(error)).1 =~= seq![
            CaptureAction::ClearLease,
            CaptureAction::AnswerFailed(error),
        ],
        state.after_release(None).0 == (CaptureState { activation_id: None, ..state }),
        state.after_release(None).1 =~= seq![CaptureAction::AnswerDone],
        state.after_release(Some(error)).0 == state,
        state.after_release(Some(error)).1 =~= seq![CaptureAction::AnswerFailed(error)],
        state.after_disable(None).0 == (CaptureState { activation_id: None, ..state }),
        state.after_disable(None).1 =~= seq![CaptureAction::AnswerDone],
        state.after_disable(Some((error, detail))).0.activation_id is None,
        state.after_disable(Some((error, detail))).1 =~= seq![
            CaptureAction::AnswerFailed(error),
            CaptureAction::Emit(CaptureEvent::Input(InputEvent::AllKeysUp)),
            CaptureAction::ForceClose { held: state.activation_id },
            CaptureAction::Emit(CaptureEvent::EmergencyReleased),
            CaptureAction::Fail(CaptureFailure::DisableFailed(detail)),
        ],
{
    assert(state.after_enable(None).1 =~= seq![CaptureAction::AnswerDone]);
}

/// A pointer that crosses a known barrier is held, and the owner is told: by
/// the number of the crossing, at the edge of that barrier and the position.
pub proof fn law_crossing_is_reported(
    state: CaptureState,
    activation_id: u32,
    barrier: u32,
    metadata: BarrierMetadata,
    normalized_position: F32Bits,
    i: int,
)
    requires
        0 <= i < state.barriers.len(),
        state.barriers[i] == (barrier, metadata),
        forall|j: int| 0 <= j < i ==> (#[trigger] state.barriers[j]).0 != barrier,
    ensures
        ({
            let (after, actions) = state.after_activation(
                Some(activation_id),
                Some(barrier),
                normalized_position,
            );
            &&& after == (CaptureState { activation_id: Some(activation_id), ..state })
            &&& actions =~= seq![
                CaptureAction::Emit(
                    CaptureEvent::Activated {
                        activation_id,
                        edge: metadata.edge,
                        normalized_position,
                    },
                ),
            ]
        }),
{
    crate::capture::law_barrier_is_found(state.barriers, barrier);
}

/// A pointer that is given back is not held, no key counts as held, and the
/// owner is told both, in this order.
pub proof fn law_end_of_a_crossing_is_reported(state: CaptureState)
    ensures
        state.after_deactivation().0 == (CaptureState {
            activation_id: None,
            held: Set::empty(),
            ..state
        }),
        state.after_deactivation().1 =~= seq![
            CaptureAction::Emit(CaptureEvent::Input(InputEvent::AllKeysUp)),
            CaptureAction::Emit(CaptureEvent::Deactivated),
        ],
{
}

/// New screens replace the barriers: capturing stops, keys are let go, the
/// barriers are found anew, and the owner is told of the layout that was
/// replaced and the one that holds.
pub proof fn law_new_layout_replaces_the_barriers(
    state: CaptureState,
    replaced: Option<u32>,
    zone_set: u32,
    barriers: Seq<(u32, BarrierMetadata)>,
)
    ensures
        ({
            let (stopped, first) = state.after_zones_changed(replaced);
            let (cleared, second) = stopped.after_layout_disable(None);
            let (after, third) = cleared.after_layout(zone_set, barriers);
            &&& !stopped.armed
            &&& first =~= seq![CaptureAction::ClearLease, CaptureAction::DisableForLayout]
            &&& second =~= seq![
                CaptureAction::Emit(CaptureEvent::Input(InputEvent::AllKeysUp)),
                CaptureAction::ConfigureBarriers,
            ]
            &&& after.barriers == barriers
            &&& after.zone_set == zone_set
            &&& after.activation_id is None
            &&& !after.armed
            &&& after.held == Set::<u16>::empty()
            &&& third =~= seq![
                CaptureAction::PublishZoneSet(zone_set),
                CaptureAction::Emit(
                    CaptureEvent::LayoutChanged {
                        previous_zone_set: match replaced {
                            Some(number) => number,
                            None => state.zone_set,
                        },
                        current_zone_set: zone_set,
                    },
                ),
            ]
        }),
{
}

/// Captured input is passed on to the owner as it is; the chord lets all keys
/// go and has the pointer let go where it is held.
pub proof fn law_captured_input_is_passed_on(state: CaptureState, event: EisEvent)
    ensures
        ({
            let (after, actions) = state.after_eis(event);
            &&& after.activation_id == state.activation_id
            &&& after.armed == state.armed
            &&& after.barriers == state.barriers
            &&& eis_action(state.held, event) matches EisAction::Input(input) ==> actions =~= seq![
                CaptureAction::Emit(CaptureEvent::Input(input)),
            ]
            &&& eis_action(state.held, event) is BindSeat ==> actions =~= seq![
                CaptureAction::BindSeat,
            ]
            &&& eis_action(state.held, event) is Nothing ==> actions.len() == 0
            &&& eis_action(state.held, event) is EmergencyRelease ==> {
                &&& actions.len() == 2
                &&& actions[0] == CaptureAction::Emit(CaptureEvent::Input(InputEvent::AllKeysUp))
                &&& state.activation_id matches Some(activation_id) ==> actions[1]
                    == (CaptureAction::ReleaseInEmergency { activation_id })
                &&& state.activation_id is None ==> actions[1] == CaptureAction::Emit(
                    CaptureEvent::EmergencyReleased,
                )
            }
        }),
        state.after_emergency_release(None).0 == (CaptureState { activation_id: None, ..state }),
        state.after_emergency_release(None).1 =~= seq![
            CaptureAction::Emit(CaptureEvent::EmergencyReleased),
        ],
{
}

/// A portal process that is replaced, or that cannot be told any more, has the
/// session counted as gone and every key let go; the same one changes nothing.
pub proof fn law_portal_process_is_followed(state: CaptureState, owner: String)
    ensures
        owner@ == state.generation ==> state.after_owner_change(OwnerChange::Owner(Some(owner)))
            == state,
        owner@ != state.generation ==> !state.after_owner_change(
            OwnerChange::Owner(Some(owner)),
        ).owner_valid && state.after_owner_change(OwnerChange::Owner(Some(owner))).held == Set::<
            u16,
        >::empty(),
        !state.after_owner_change(OwnerChange::Owner(None)).owner_valid,
        !state.after_owner_change(OwnerChange::MonitorEnded).owner_valid,
        !state.after_owner_change(OwnerChange::Unreadable(owner)).owner_valid,
{
}

/// A capture ends with the pointer let go where it was held, no more capturing
/// and its session closed, in this order.
pub proof fn law_capture_ends_clean(state: CaptureState)
    requires
        state.owner_valid,
    ensures
        state.after_end().0.activation_id is None,
        state.activation_id matches Some(activation_id) ==> state.after_end().1 =~= seq![
            CaptureAction::ReleaseAtEnd { activation_id },
            CaptureAction::DisableAtEnd,
            CaptureAction::CloseSession,
        ],
        state.activation_id is None ==> state.after_end().1 =~= seq![
            CaptureAction::DisableAtEnd,
            CaptureAction::CloseSession,
        ],
{
}

/// Another portal process, none at all, or one that cannot be told, ends the
/// capture: nobody has to vouch for it, every key is let go, and it fails. The
/// same process has nothing done.
pub proof fn law_lost_portal_ends_the_capture(
    state: CaptureState,
    change: OwnerChange,
    actions: Seq<CaptureAction>,
)
    requires
        state.follows(change, actions),
    ensures
        ({
            let same = change matches OwnerChange::Owner(Some(owner)) && owner@ == state.generation;
            &&& same ==> actions.len() == 0 && state.after_owner_change(change) == state
            &&& !same ==> {
                &&& actions[0] == CaptureAction::ClearLease
                &&& actions[1] == CaptureAction::Emit(CaptureEvent::Input(InputEvent::AllKeysUp))
                &&& actions.last() is Fail
                &&& !state.after_owner_change(change).owner_valid
                &&& state.after_owner_change(change).held == Set::<u16>::empty()
            }
        }),
{
}

} // verus!
