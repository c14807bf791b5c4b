//! What holds of both sides of a session, whatever happens in it.

use crate::clock::Instant;
use crate::connector::{ConnectorSession, ReadyOutcome, Roles};
use crate::listener::{ListenerSession, Verdict};
use crate::protocol::{
    AudioControl, ControlEvent, ControlFrame, Frame, InputEvent, RoleEvent, RoleState,
};
use crate::session::{
    audio_choice, is_named, shows_audio, AudioChoice, AudioTransport, CaptureEvent, Effect,
    EffectList, LivenessEvent, Message, PeerSupport, TrayCommand,
};
use vstd::prelude::*;

verus! {

/// Some effect of a list is of a kind.
#[verifier::opaque]
pub open spec fn any(effects: Seq<Effect>, kind: spec_fn(Effect) -> bool) -> bool {
    exists|i: int| 0 <= i < effects.len() && kind(#[trigger] effects[i])
}

/// A list has an effect of a kind behind its end, or before it.
pub broadcast proof fn lemma_any_push(
    effects: Seq<Effect>,
    effect: Effect,
    kind: spec_fn(Effect) -> bool,
)
    ensures
        #[trigger] any(effects.push(effect), kind) == (any(effects, kind) || kind(effect)),
{
    reveal(any);
    let longer = effects.push(effect);
    if any(effects, kind) {
        let i = choose|i: int| 0 <= i < effects.len() && kind(#[trigger] effects[i]);
        assert(kind(longer[i]));
    }
    if kind(effect) {
        assert(kind(longer[effects.len() as int]));
    }
    if any(longer, kind) {
        let i = choose|i: int| 0 <= i < longer.len() && kind(#[trigger] longer[i]);
        if i < effects.len() {
            assert(kind(effects[i]));
        }
    }
}

/// A list with nothing in it has no effect of any kind.
pub broadcast proof fn lemma_any_empty(kind: spec_fn(Effect) -> bool)
    ensures
        !#[trigger] any(Seq::<Effect>::empty(), kind),
{
    reveal(any);
}

/// Input of the peer is put in here.
pub open spec fn injects() -> spec_fn(Effect) -> bool {
    |effect: Effect| effect is Inject
}

/// Input of this side goes to the peer. A release of all keys is not counted:
/// it takes input away.
pub open spec fn sends_input() -> spec_fn(Effect) -> bool {
    |effect: Effect|
        (effect matches Effect::Send(Message::Input { event, .. }) && !(event is AllKeysUp)) || (
        effect matches Effect::TrySend(Message::Input { event, .. }) && !(event is AllKeysUp))
}

/// A clipboard is read or written.
pub open spec fn touches_clipboard() -> spec_fn(Effect) -> bool {
    |effect: Effect| effect is SyncClipboard || effect is OfferClipboard
}

/// A selection of the controller is saved.
pub open spec fn saves_role() -> spec_fn(Effect) -> bool {
    |effect: Effect| effect is SaveRole
}

/// All keys that the peer pressed here are let go.
pub open spec fn lets_keys_go() -> spec_fn(Effect) -> bool {
    |effect: Effect| effect is TryAllKeysUp || effect is AllKeysUp
}

/// The audio is touched.
pub open spec fn touches_audio() -> spec_fn(Effect) -> bool {
    |effect: Effect|
        effect is AbortAudioStart || effect is StopAudioSender || effect is DropAudioReceiver
            || effect is StartAudioSender || effect is AnswerAudioOffer || effect is SaveAudioRoute
}

/// Neither puts input in, nor touches a clipboard, nor saves a selection.
pub open spec fn is_harmless(effects: Seq<Effect>) -> bool {
    &&& !any(effects, injects())
    &&& !any(effects, touches_clipboard())
    &&& !any(effects, saves_role())
}

proof fn lemma_connector_switch_is_harmless(
    session: ConnectorSession,
    requested: String,
    roles: Roles,
    now: Instant,
)
    ensures
        is_harmless(session.after_switch(requested, roles, now).1),
{
    broadcast use {lemma_any_push, lemma_any_empty};

}

proof fn lemma_connector_source_is_harmless(
    session: ConnectorSession,
    source: Option<String>,
    offers: bool,
    shown: AudioChoice,
)
    ensures
        is_harmless(session.after_source(source, offers, shown).1),
{
    broadcast use {lemma_any_push, lemma_any_empty};

}

proof fn lemma_connector_pause_is_harmless(session: ConnectorSession, paused: bool)
    ensures
        is_harmless(session.after_pause(paused).1),
        is_harmless(session.after_disconnect().1),
        is_harmless(session.after_reconnect().1),
{
    broadcast use {lemma_any_push, lemma_any_empty};

}

proof fn lemma_connector_toggle_is_harmless(
    session: ConnectorSession,
    roles: Roles,
    enabled: bool,
)
    ensures
        is_harmless(session.after_toggle(roles).1),
        is_harmless(session.after_forwarding_set(enabled).1),
{
    broadcast use {lemma_any_push, lemma_any_empty};

}

proof fn lemma_connector_control_is_harmless(session: ConnectorSession, control: ControlFrame)
    ensures
        is_harmless(session.after_control(control).1),
{
    broadcast use {lemma_any_push, lemma_any_empty};

    match control.event {
        ControlEvent::SetInputForwarding { enabled } => {
            lemma_connector_toggle_is_harmless(
                session,
                Roles { controller_fingerprint: None, role_epoch: 0, transitioning: false },
                enabled,
            );
        },
        _ => {},
    }
}

proof fn lemma_connector_role_is_harmless(
    session: ConnectorSession,
    event: RoleEvent,
    roles: Roles,
    now: Instant,
)
    ensures
        is_harmless(session.after_role(event, roles, now).1),
{
    broadcast use {lemma_any_push, lemma_any_empty};

    match event {
        RoleEvent::Request { controller_fingerprint } => {
            lemma_connector_switch_is_harmless(session, controller_fingerprint, roles, now);
        },
        RoleEvent::SetPaused { paused } => {
            lemma_connector_pause_is_harmless(session, paused);
        },
        _ => {},
    }
}

proof fn lemma_connector_audio_is_harmless(session: ConnectorSession, control: AudioControl)
    ensures
        is_harmless(session.after_audio(control).1),
{
    broadcast use {lemma_any_push, lemma_any_empty};

    match control {
        AudioControl::RequestRoute { source_fingerprint } => {
            lemma_connector_source_is_harmless(
                session,
                source_fingerprint,
                true,
                audio_choice(
                    source_fingerprint,
                    session.local_fingerprint,
                    session.peer_fingerprint,
                ),
            );
        },
        AudioControl::SetEnabled { enabled } => {
            let source = if enabled {
                Some(session.peer_fingerprint)
            } else {
                None
            };
            lemma_connector_source_is_harmless(
                session,
                source,
                false,
                audio_choice(source, session.local_fingerprint, session.peer_fingerprint),
            );
        },
        _ => {},
    }
}

proof fn lemma_connector_frame(
    session: ConnectorSession,
    frame: Frame,
    roles: Roles,
    accepts_input: bool,
    now: Instant,
)
    ensures
        !(frame is Input) && !(frame is Clipboard) ==> is_harmless(
            session.after_frame(frame, roles, accepts_input, now).1,
        ),
{
    broadcast use {lemma_any_push, lemma_any_empty};

    match frame {
        Frame::Control(control) => {
            lemma_connector_control_is_harmless(session, control);
        },
        Frame::Role(event) => {
            lemma_connector_role_is_harmless(session, event, roles, now);
        },
        Frame::Audio(control) => {
            lemma_connector_audio_is_harmless(session, control);
        },
        _ => {},
    }
}

proof fn lemma_connector_tray_is_harmless(
    session: ConnectorSession,
    command: TrayCommand,
    roles: Roles,
    now: Instant,
)
    ensures
        is_harmless(session.after_tray(command, roles, now).1),
{
    broadcast use {lemma_any_push, lemma_any_empty};

    lemma_connector_pause_is_harmless(session, true);
    lemma_connector_toggle_is_harmless(session, roles, true);
    lemma_connector_switch_is_harmless(session, session.local_fingerprint, roles, now);
    lemma_connector_switch_is_harmless(session, session.peer_fingerprint, roles, now);
    match command {
        TrayCommand::SetAudio(choice) => {
            if let Some(source) = session.chosen_source(choice) {
                lemma_connector_source_is_harmless(session, source, true, choice);
            }
        },
        _ => {},
    }
}

/// Input of the peer is put in at a connector only in the committed epoch,
/// while the peer controls, forwarding is on, the session is not paused and
/// the pointer has entered; and it is the input that came.
pub proof fn law_connector_injects_only_committed_input(
    session: ConnectorSession,
    frame: Frame,
    roles: Roles,
    accepts_input: bool,
    now: Instant,
)
    requires
        any(session.after_frame(frame, roles, accepts_input, now).1, injects()),
    ensures
        frame matches Frame::Input(input) && input.role_epoch == session.role_epoch,
        !session.local_is_controller,
        session.input_forwarding_enabled,
        !session.session_paused,
        accepts_input,
{
    broadcast use {lemma_any_push, lemma_any_empty};

    lemma_connector_frame(session, frame, roles, accepts_input, now);
}

/// The same of a listener.
pub proof fn law_listener_injects_only_committed_input(
    session: ListenerSession,
    frame: Frame,
    verdict: Verdict,
    now: Instant,
)
    requires
        any(session.after_frame(frame, verdict, now).1, injects()),
    ensures
        frame matches Frame::Input(input) && input.role_epoch == session.role_epoch,
        !session.local_is_controller,
        session.input_forwarding_enabled,
        !session.session_paused,
        verdict.accepts_input,
{
    broadcast use {lemma_any_push, lemma_any_empty};

}

/// Local input goes to the peer only while this side controls, forwards and
/// is not paused, and carries the committed epoch.
pub proof fn law_connector_sends_only_committed_input(
    session: ConnectorSession,
    event: Option<CaptureEvent>,
    transitioning: bool,
)
    requires
        any(session.after_capture(event, transitioning).1, sends_input()),
    ensures
        session.forwards(),
        event matches Some(CaptureEvent::Input(input)) && any(
            session.after_capture(event, transitioning).1,
            |effect: Effect|
                effect == Effect::Send(
                    Message::Input { role_epoch: session.role_epoch, event: input },
                ),
        ),
{
    broadcast use {lemma_any_push, lemma_any_empty};

}

/// The same of a listener.
pub proof fn law_listener_sends_only_committed_input(
    session: ListenerSession,
    event: Option<CaptureEvent>,
)
    requires
        any(session.after_capture(event).1, sends_input()),
    ensures
        session.forwards(),
        event matches Some(CaptureEvent::Input(input)) && any(
            session.after_capture(event).1,
            |effect: Effect|
                effect == Effect::Send(
                    Message::Input { role_epoch: session.role_epoch, event: input },
                ),
        ),
{
    broadcast use {lemma_any_push, lemma_any_empty};

}

/// A connector's session that is paused is quiet: no frame of the peer puts
/// input in or touches a clipboard, and no local input goes out.
pub proof fn law_paused_connector_is_quiet(
    session: ConnectorSession,
    frame: Frame,
    roles: Roles,
    accepts_input: bool,
    now: Instant,
    event: Option<CaptureEvent>,
)
    requires
        session.session_paused,
    ensures
        !any(session.after_frame(frame, roles, accepts_input, now).1, injects()),
        !any(session.after_frame(frame, roles, accepts_input, now).1, touches_clipboard()),
        !any(session.after_capture(event, roles.transitioning).1, sends_input()),
{
    broadcast use {lemma_any_push, lemma_any_empty};

    lemma_connector_frame(session, frame, roles, accepts_input, now);
}

/// The same of a listener's session.
pub proof fn law_paused_listener_is_quiet(
    session: ListenerSession,
    frame: Frame,
    verdict: Verdict,
    now: Instant,
    event: Option<CaptureEvent>,
)
    requires
        session.session_paused,
    ensures
        !any(session.after_frame(frame, verdict, now).1, injects()),
        !any(session.after_frame(frame, verdict, now).1, touches_clipboard()),
        !any(session.after_capture(event).1, sends_input()),
{
    broadcast use {lemma_any_push, lemma_any_empty};

}

/// Whichever side the user pauses a connector's session from, it is paused,
/// the keys are let go and the peer is told; whichever side it is resumed
/// from, it goes on.
pub proof fn law_connector_pauses_from_either_side(
    session: ConnectorSession,
    roles: Roles,
    accepts_input: bool,
    now: Instant,
)
    requires
        !roles.transitioning,
    ensures
        ({
            let (here, out) = session.after_tray(TrayCommand::Disconnect, roles, now);
            &&& here.session_paused
            &&& any(out, lets_keys_go())
            &&& any(
                out,
                |effect: Effect| effect == Effect::Send(Message::RolePaused { paused: true }),
            )
        }),
        ({
            let asked = Frame::Role(RoleEvent::SetPaused { paused: true });
            let (there, out) = session.after_frame(asked, roles, accepts_input, now);
            &&& there.session_paused
            &&& any(out, lets_keys_go())
            &&& any(
                out,
                |effect: Effect| effect == Effect::Send(Message::RolePaused { paused: true }),
            )
        }),
        !session.after_tray(TrayCommand::Reconnect, roles, now).0.session_paused,
        !session.after_frame(
            Frame::Role(RoleEvent::SetPaused { paused: false }),
            roles,
            accepts_input,
            now,
        ).0.session_paused,
{
    broadcast use {lemma_any_push, lemma_any_empty};
}

/// A connector changes roles one at a time: while a change is under way, no
/// request begins another.
pub proof fn law_connector_serializes_handovers(
    session: ConnectorSession,
    requested: String,
    roles: Roles,
    now: Instant,
)
    requires
        roles.transitioning,
    ensures
        session.after_switch(requested, roles, now) == (session, Seq::<Effect>::empty()),
{
}

/// A change of roles releases held input before the peer is asked: of the side
/// that controlled until then, the keys that it holds are let go.
pub proof fn law_handover_releases_held_input(
    session: ConnectorSession,
    requested: String,
    roles: Roles,
    now: Instant,
)
    requires
        !session.keeps_roles(requested, roles),
    ensures
        ({
            let out = session.after_switch(requested, roles, now).1;
            &&& out[0] == Effect::SuspendInput
            &&& if is_named(roles.controller_fingerprint, session.local_fingerprint) {
                any(
                    out,
                    |effect: Effect|
                        effect == Effect::TrySend(
                            Message::Input {
                                role_epoch: roles.role_epoch,
                                event: InputEvent::AllKeysUp,
                            },
                        ),
                )
            } else {
                any(out, lets_keys_go())
            }
        }),
{
    broadcast use {lemma_any_push, lemma_any_empty};

}

/// A connector's roles and epoch change by nothing but a commit that has taken
/// effect.
pub proof fn law_connector_roles_change_only_by_commit(
    session: ConnectorSession,
    frame: Frame,
    roles: Roles,
    accepts_input: bool,
    now: Instant,
    command: TrayCommand,
    event: Option<CaptureEvent>,
    liveness: Option<LivenessEvent>,
    outcome: ReadyOutcome,
)
    ensures
        keeps_role(session, session.after_frame(frame, roles, accepts_input, now).0),
        keeps_role(session, session.after_tray(command, roles, now).0),
        keeps_role(session, session.after_capture(event, roles.transitioning).0),
        keeps_role(session, session.after_watchdog(now, roles.transitioning, liveness).0),
        keeps_role(session, session.after_decision(outcome, now).0),
{
}

/// A commit takes effect only behind the effects that save it and tell the peer
/// of it: where one of them fails, the session ends as it would have before, in
/// the epoch that the peer knows.
pub proof fn law_failed_commit_ends_in_the_old_epoch(
    session: ConnectorSession,
    commit: RoleState,
    now: Instant,
)
    requires
        commit.controller_fingerprint is Some,
    ensures
        ({
            let (decided, out) = session.after_decision(ReadyOutcome::Commit(commit), now);
            &&& decided.ending() == session.ending()
            &&& out =~= seq![
                Effect::SaveRole {
                    controller_fingerprint: commit.controller_fingerprint->Some_0,
                },
                Effect::Send(Message::RoleCommit(commit)),
                Effect::EnterRole {
                    controller_fingerprint: commit.controller_fingerprint->Some_0,
                    role_epoch: commit.role_epoch,
                },
            ]
            &&& decided.after_commit(
                commit.controller_fingerprint->Some_0,
                commit.role_epoch,
            ).0.role_epoch == commit.role_epoch
        }),
{
}

/// Two states of a connector's session have the same roles.
pub open spec fn keeps_role(before: ConnectorSession, after: ConnectorSession) -> bool {
    before.role_epoch == after.role_epoch && before.local_is_controller
        == after.local_is_controller
}

/// Only a completed selection is saved: a connector saves a commit and nothing
/// else, before the peer is told of it; held input is let go when it takes
/// effect.
pub proof fn law_connector_saves_only_commits(
    session: ConnectorSession,
    frame: Frame,
    roles: Roles,
    accepts_input: bool,
    now: Instant,
    command: TrayCommand,
    outcome: ReadyOutcome,
)
    ensures
        !any(session.after_frame(frame, roles, accepts_input, now).1, saves_role()),
        !any(session.after_tray(command, roles, now).1, saves_role()),
        any(session.after_decision(outcome, now).1, saves_role()) ==> (
        outcome matches ReadyOutcome::Commit(commit) && commit.controller_fingerprint is Some
            && session.after_decision(outcome, now).1[0] == (Effect::SaveRole {
            controller_fingerprint: commit.controller_fingerprint->Some_0,
        }) && session.after_decision(outcome, now).1[1] == Effect::Send(
            Message::RoleCommit(commit),
        ) && any(
            session.after_commit(commit.controller_fingerprint->Some_0, commit.role_epoch).1,
            lets_keys_go(),
        )),
{
    broadcast use {lemma_any_push, lemma_any_empty};

    lemma_connector_frame(session, frame, roles, accepts_input, now);
    lemma_connector_tray_is_harmless(session, command, roles, now);
}

/// A listener saves a selection only when the connector has committed one: in
/// a valid commit of a change that it answered, or in the state of a session
/// that begins.
pub proof fn law_listener_saves_only_commits(
    session: ListenerSession,
    frame: Frame,
    verdict: Verdict,
    now: Instant,
)
    requires
        any(session.after_frame(frame, verdict, now).1, saves_role()),
    ensures
        match frame {
            Frame::Role(RoleEvent::Commit(commit)) => verdict.role_event_valid
                && session.prepared_role is Some && commit.controller_fingerprint is Some,
            Frame::Role(RoleEvent::SessionState(state)) => state.controller_fingerprint is Some,
            _ => false,
        },
{
    broadcast use {lemma_any_push, lemma_any_empty};

}

/// A listener's epoch changes by nothing but a valid commit or the state of a
/// session that begins.
pub proof fn law_listener_epoch_changes_only_by_commit(
    session: ListenerSession,
    frame: Frame,
    verdict: Verdict,
    now: Instant,
)
    requires
        session.after_frame(frame, verdict, now).0.role_epoch != session.role_epoch,
    ensures
        match frame {
            Frame::Role(RoleEvent::Commit(_)) => verdict.role_event_valid
                && session.prepared_role is Some,
            Frame::Role(RoleEvent::SessionState(_)) => true,
            _ => false,
        },
{
}

/// Forwarding can be switched without touching the audio or the clipboard.
pub proof fn law_forwarding_leaves_the_rest_alone(session: ConnectorSession, roles: Roles)
    ensures
        session.after_toggle(roles).0.audio == session.audio,
        session.after_toggle(roles).0.audio_source == session.audio_source,
        !any(session.after_toggle(roles).1, touches_audio()),
        !any(session.after_toggle(roles).1, touches_clipboard()),
{
    broadcast use {lemma_any_push, lemma_any_empty};

}

/// A start of audio that was overtaken by another route has no effect on the
/// session: its sender is stopped.
pub proof fn law_stale_audio_start_is_dropped(
    session: ConnectorSession,
    generation: u64,
    result: Result<(), String>,
)
    requires
        generation != session.audio.generation,
    ensures
        session.after_audio_started(generation, result).0 == session,
        result is Ok ==> session.after_audio_started(generation, result).1 =~= seq![
            Effect::StopStaleAudioSender,
        ],
{
}

/// Stopping the audio makes every start before it stale.
pub proof fn law_stop_makes_starts_stale(audio: AudioTransport)
    ensures
        audio.stopped().generation != audio.generation,
        !audio.stopped().sender,
        !audio.stopped().receiver,
        !audio.stopped().starting,
{
}

/// The end of a connector's session leaves no key pressed on either side and
/// no audio running.
pub proof fn law_ending_releases_everything(session: ConnectorSession)
    ensures
        any(session.ending(), lets_keys_go()),
        any(
            session.ending(),
            |effect: Effect|
                effect == Effect::TrySend(
                    Message::Input {
                        role_epoch: session.role_epoch,
                        event: InputEvent::AllKeysUp,
                    },
                ),
        ),
        session.audio.sender ==> any(
            session.ending(),
            |effect: Effect| effect is StopAudioSender,
        ),
        session.has_capture ==> any(session.ending(), |effect: Effect| effect is TryDisarm),
{
    broadcast use {lemma_any_push, lemma_any_empty};

}

/// Audio is shown as available.
pub open spec fn offers_audio() -> spec_fn(Effect) -> bool {
    |effect: Effect| shows_audio(effect)
}

/// A connector whose peer is a Linux node never shows audio as available,
/// whatever happens.
pub proof fn law_connector_shows_no_audio_of_linux(
    session: ConnectorSession,
    frame: Frame,
    roles: Roles,
    accepts_input: bool,
    now: Instant,
    command: TrayCommand,
    stored: bool,
)
    requires
        session.support.is_linux_node(),
    ensures
        !any(session.beginning(stored), offers_audio()),
        !any(session.after_frame(frame, roles, accepts_input, now).1, offers_audio()),
        !any(session.after_tray(command, roles, now).1, offers_audio()),
        session.after_frame(frame, roles, accepts_input, now).0.support == session.support,
        session.after_tray(command, roles, now).0.support == session.support,
{
    broadcast use {lemma_any_push, lemma_any_empty};

}

/// The same of what else happens to a connector.
pub proof fn law_connector_events_show_no_audio_of_linux(
    session: ConnectorSession,
    roles: Roles,
    now: Instant,
    event: Option<CaptureEvent>,
    liveness: Option<LivenessEvent>,
    outcome: ReadyOutcome,
    result: Result<(), String>,
    generation: u64,
    controller: String,
    finished: bool,
    failure: Option<String>,
)
    requires
        session.support.is_linux_node(),
    ensures
        !any(session.after_capture(event, roles.transitioning).1, offers_audio()),
        !any(session.after_watchdog(now, roles.transitioning, liveness).1, offers_audio()),
        !any(session.after_decision(outcome, now).1, offers_audio()),
        !any(session.after_commit(controller, generation).1, offers_audio()),
        !any(session.after_preflight(result, now).1, offers_audio()),
        !any(session.after_audio_started(generation, result).1, offers_audio()),
        !any(session.after_offer_answered(result).1, offers_audio()),
        !any(session.after_audio_check(finished, failure).1, offers_audio()),
{
    broadcast use {lemma_any_push, lemma_any_empty};

}

/// A listener whose peer is a Linux node never shows audio as available,
/// whatever happens.
#[verifier::spinoff_prover]
#[verifier::rlimit(60)]
pub proof fn law_listener_shows_no_audio_of_linux(
    session: ListenerSession,
    frame: Frame,
    verdict: Verdict,
    now: Instant,
    command: TrayCommand,
)
    requires
        session.support.is_linux_node(),
    ensures
        !any(session.after_frame(frame, verdict, now).1, offers_audio()),
        !any(session.after_tray(command, now).1, offers_audio()),
        session.after_frame(frame, verdict, now).0.support == session.support,
        session.after_tray(command, now).0.support == session.support,
{
    broadcast use {lemma_any_push, lemma_any_empty};

}

/// The same of what else happens to a listener.
pub proof fn law_listener_events_show_no_audio_of_linux(
    session: ListenerSession,
    now: Instant,
    event: Option<CaptureEvent>,
    liveness: Option<LivenessEvent>,
    result: Result<(), String>,
    generation: u64,
    finished: bool,
    failure: Option<String>,
)
    requires
        session.support.is_linux_node(),
    ensures
        !any(session.after_capture(event).1, offers_audio()),
        !any(session.after_watchdog(now, liveness).1, offers_audio()),
        !any(session.after_preflight(result, now).1, offers_audio()),
        !any(session.after_audio_started(generation, result).1, offers_audio()),
        !any(session.after_offer_answered(result).1, offers_audio()),
        !any(session.after_status(finished, failure).1, offers_audio()),
{
    broadcast use {lemma_any_push, lemma_any_empty};

}

/// Two peers can do the same, but for audio.
pub open spec fn same_but_audio(one: PeerSupport, other: PeerSupport) -> bool {
    one == (PeerSupport {
        audio_playback: one.audio_playback,
        audio_capture: one.audio_capture,
        audio_route: one.audio_route,
        ..other
    })
}

/// Input and clipboard are independent of audio at a connector: what is done
/// about them is the same whatever audio the peer knows, wherever it comes
/// from and however far it has come.
pub proof fn law_connector_input_is_independent_of_audio(
    session: ConnectorSession,
    support: PeerSupport,
    audio_source: Option<String>,
    audio: AudioTransport,
    event: Option<CaptureEvent>,
    frame: Frame,
    roles: Roles,
    accepts_input: bool,
    now: Instant,
    changed: bool,
)
    requires
        same_but_audio(support, session.support),
        frame is Input || frame is Control || frame is Clipboard,
    ensures
        ({
            let other = ConnectorSession { support, audio_source, audio, ..session };
            &&& other.after_capture(event, roles.transitioning).1 == session.after_capture(
                event,
                roles.transitioning,
            ).1
            &&& other.after_frame(frame, roles, accepts_input, now).1 == session.after_frame(
                frame,
                roles,
                accepts_input,
                now,
            ).1
            &&& other.after_toggle(roles).1 == session.after_toggle(roles).1
            &&& other.after_clipboard_watch(changed) == session.after_clipboard_watch(changed)
        }),
{
}

/// The same of a listener.
pub proof fn law_listener_input_is_independent_of_audio(
    session: ListenerSession,
    support: PeerSupport,
    audio_source: Option<String>,
    audio: AudioTransport,
    event: Option<CaptureEvent>,
    frame: Frame,
    verdict: Verdict,
    now: Instant,
    changed: bool,
    moved: bool,
)
    requires
        same_but_audio(support, session.support),
        frame is Input || frame is Control || frame is Clipboard,
    ensures
        ({
            let other = ListenerSession { support, audio_source, audio, ..session };
            &&& other.after_capture(event).1 == session.after_capture(event).1
            &&& other.after_frame(frame, verdict, now).1 == session.after_frame(
                frame,
                verdict,
                now,
            ).1
            &&& other.after_toggle().1 == session.after_toggle().1
            &&& other.after_clipboard_watch(changed) == session.after_clipboard_watch(changed)
            &&& other.after_clipboard_synced(moved).1 == session.after_clipboard_synced(moved).1
        }),
{
}

/// The capture of local input is armed.
pub open spec fn arms_capture() -> spec_fn(Effect) -> bool {
    |effect: Effect| effect is Arm || effect is TryArm
}

/// A connector arms the capture only where local input then goes to the peer:
/// not while the session is paused, and not with forwarding off.
pub proof fn law_connector_arms_only_to_forward(
    session: ConnectorSession,
    frame: Frame,
    roles: Roles,
    accepts_input: bool,
    now: Instant,
    command: TrayCommand,
    event: Option<CaptureEvent>,
    liveness: Option<LivenessEvent>,
    controller: String,
    role_epoch: u64,
)
    ensures
        any(session.after_frame(frame, roles, accepts_input, now).1, arms_capture())
            ==> session.after_frame(frame, roles, accepts_input, now).0.forwards(),
        any(session.after_tray(command, roles, now).1, arms_capture()) ==> session.after_tray(
            command,
            roles,
            now,
        ).0.forwards(),
        any(session.after_capture(event, roles.transitioning).1, arms_capture())
            ==> session.after_capture(event, roles.transitioning).0.forwards(),
        any(session.after_watchdog(now, roles.transitioning, liveness).1, arms_capture())
            ==> session.after_watchdog(now, roles.transitioning, liveness).0.forwards(),
        any(session.after_commit(controller, role_epoch).1, arms_capture())
            ==> session.after_commit(controller, role_epoch).0.forwards(),
{
    broadcast use {lemma_any_push, lemma_any_empty};

}

/// The same of a listener.
#[verifier::spinoff_prover]
#[verifier::rlimit(60)]
pub proof fn law_listener_arms_only_to_forward(
    session: ListenerSession,
    frame: Frame,
    verdict: Verdict,
    now: Instant,
    command: TrayCommand,
    event: Option<CaptureEvent>,
    liveness: Option<LivenessEvent>,
)
    ensures
        any(session.after_frame(frame, verdict, now).1, arms_capture()) ==> session.after_frame(
            frame,
            verdict,
            now,
        ).0.forwards(),
        any(session.after_tray(command, now).1, arms_capture()) ==> session.after_tray(
            command,
            now,
        ).0.forwards(),
        any(session.after_capture(event).1, arms_capture()) ==> session.after_capture(
            event,
        ).0.forwards(),
        any(session.after_watchdog(now, liveness).1, arms_capture()) ==> session.after_watchdog(
            now,
            liveness,
        ).0.forwards(),
{
    broadcast use {lemma_any_push, lemma_any_empty};

}

} // verus!
