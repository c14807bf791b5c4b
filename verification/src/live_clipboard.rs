//! The clipboard of the computer that controls, and the keys that touch it.
//!
//! A paste waits until the image that it is about has gone over.

use crate::clipboard::{ClipboardContentId, ClipboardItem};
use crate::clipboard_sync::{
    cancelling, id_of, takes_image, ClipboardSync, Received, Settled, SyncState,
};
use crate::clock::Instant;
use crate::protocol::{ClipboardCancelReason, ClipboardEvent, Frame, InputEvent, InputFrame};
use vstd::prelude::*;

verus! {

/// How long a paste waits for its image, in milliseconds.
pub const PASTE_BARRIER_MILLIS: u64 = 5_000;

/// How long after a copy the other side is asked for what was copied, in
/// milliseconds.
pub const COPY_REQUEST_MILLIS: u64 = 200;

/// The keys, as the kernel numbers them.
pub const KEY_LEFT_CTRL: u16 = 29;

pub const KEY_RIGHT_CTRL: u16 = 97;

pub const KEY_C: u16 = 46;

pub const KEY_V: u16 = 47;

/// What reading the local clipboard came to.
#[derive(Debug)]
pub enum ClipboardRead {
    Failed,
    Item(Option<ClipboardItem>),
}

/// What is to be done about something that the other side said.
#[derive(Debug)]
pub enum RemoteStep {
    Nothing,
    /// Hold what it offers against what is here.
    Compare(ClipboardItem),
    /// Offer the text that is here.
    WantsText,
    /// Offer what is here.
    WantsItem,
    /// Send the input that waited for an image that is not wanted.
    SendHeld(Vec<Frame>),
    Send(Frame),
}

/// The clipboard of the computer that controls.
#[derive(Debug)]
pub struct LiveClipboardState {
    pub enabled: bool,
    pub ctrl_down: bool,
    pub last_clipboard_sequence: u32,
    pub held_input: Vec<Frame>,
    pub paste_barrier_deadline: Option<Instant>,
    pub sync: ClipboardSync,
}

/// What is known of it.
pub ghost struct LiveState {
    pub enabled: bool,
    pub ctrl_down: bool,
    pub last_clipboard_sequence: u32,
    pub held_input: Seq<Frame>,
    pub paste_barrier_deadline: Option<Instant>,
    pub sync: SyncState,
}

/// A frame that moves the pointer.
pub open spec fn is_motion(frame: Frame) -> bool {
    frame.held_input() matches Some(InputEvent::PointerMotion { .. })
}

/// A frame that presses the key that pastes.
pub open spec fn is_paste_key(frame: Frame) -> bool {
    frame.held_input() matches Some(InputEvent::Key { evdev_code, down }) && evdev_code
        == KEY_V && down
}

fn moves_pointer(frame: &Frame) -> (motion: bool)
    ensures
        motion == is_motion(*frame),
{
    match frame.input_event() {
        Some(InputEvent::PointerMotion { .. }) => true,
        _ => false,
    }
}

fn presses_paste_key(frame: &Frame) -> (paste: bool)
    ensures
        paste == is_paste_key(*frame),
{
    match frame.input_event() {
        Some(InputEvent::Key { evdev_code, down }) => *evdev_code == KEY_V && *down,
        _ => false,
    }
}

impl LiveState {
    /// The clipboard may hold something else than when it was last looked at. A
    /// number of nought says nothing.
    pub open spec fn is_changed(self, clipboard_sequence: u32) -> bool {
        self.enabled && (clipboard_sequence == 0 || clipboard_sequence
            != self.last_clipboard_sequence)
    }

    /// A paste has waited for its image as long as it may.
    pub open spec fn has_waited_enough(self, now: Instant) -> bool {
        self.paste_barrier_deadline matches Some(deadline) && now.nanos >= deadline.nanos
    }

    /// What is here was looked at: the state behind it, and what is offered.
    pub open spec fn noticing(self, current: Option<ClipboardItem>, clipboard_sequence: u32) -> (
        LiveState,
        Seq<Frame>,
    ) {
        let (sync, offer, _) = self.sync.offering(current, false);
        (LiveState { last_clipboard_sequence: clipboard_sequence, sync, ..self }, offer)
    }

    /// The state in which something of the other side was put here.
    pub open spec fn holding(self, id: ClipboardContentId, clipboard_sequence: u32) -> LiveState {
        LiveState {
            last_clipboard_sequence: clipboard_sequence,
            sync: self.sync.seeing(id),
            ..self
        }
    }

    /// The end of a wait: the state behind it, and the input that waited.
    pub open spec fn releasing(self) -> (LiveState, Seq<Frame>) {
        (
            LiveState { held_input: Seq::empty(), paste_barrier_deadline: None, ..self },
            self.held_input,
        )
    }

    /// The end of a wait that took too long: the state behind it, and what is
    /// told the other side of the image.
    pub open spec fn giving_up_paste(self) -> (LiveState, Option<Frame>) {
        (
            LiveState {
                paste_barrier_deadline: None,
                sync: SyncState { outgoing: None, outgoing_image_id: None, ..self.sync },
                ..self
            },
            match self.sync.outgoing {
                Some(active) => Some(
                    cancelling(active.transfer_id, ClipboardCancelReason::TimedOut),
                ),
                None => None,
            },
        )
    }

    /// What comes of something that the other side says of the clipboard. A
    /// side that does not share its clipboard takes nothing in.
    pub open spec fn hears(
        self,
        event: ClipboardEvent,
        now: Instant,
        after: LiveState,
        step: RemoteStep,
    ) -> bool {
        if !self.enabled {
            after == self && step is Nothing
        } else {
            match event {
                ClipboardEvent::TextOffer { text, .. } => after == self && step
                    == RemoteStep::Compare(ClipboardItem::Text(text)),
                ClipboardEvent::TextRequest => after == self && step is WantsText,
                ClipboardEvent::ContentRequest => after == self && step is WantsItem,
                _ => exists|out: Received| #[trigger]
                    takes_image(self.sync, event, now, after.sync, out) && (if out is Cancelled {
                        &&& after == (LiveState {
                            sync: after.sync,
                            held_input: Seq::empty(),
                            paste_barrier_deadline: None,
                            ..self
                        })
                        &&& step matches RemoteStep::SendHeld(frames) && frames@ == self.held_input
                    } else {
                        &&& after == (LiveState { sync: after.sync, ..self })
                        &&& match out {
                            Received::Reply(Some(frame)) => step == RemoteStep::Send(frame),
                            Received::Reply(None) => step is Nothing,
                            Received::Compare(item) => step == RemoteStep::Compare(item),
                            _ => false,
                        }
                    }),
            }
        }
    }

    /// A frame before which the clipboard has to be read: a paste, while
    /// nothing waits.
    pub open spec fn asks_for_clipboard(self, frame: Frame) -> bool {
        self.paste_barrier_deadline is None && self.enabled && self.ctrl_down && is_paste_key(frame)
    }

    /// An image that has yet to go over before it can be pasted.
    pub open spec fn waits_for(self, current: Option<ClipboardItem>) -> bool {
        &&& current is Some
        &&& current->Some_0 is Image
        &&& self.sync.images
        &&& self.sync.last_sent_image_id != id_of(current)
    }

    /// What is sent for a frame of input. While a paste waits, only motion of
    /// the pointer passes. A paste is preceded by an offer of what is here; if
    /// that is an image that has not gone over, the paste waits for it.
    pub open spec fn preparing(self, frame: Frame, read: ClipboardRead, now: Instant) -> (
        LiveState,
        Seq<Frame>,
    ) {
        if self.paste_barrier_deadline is Some {
            if is_motion(frame) {
                (self, seq![frame])
            } else {
                (LiveState { held_input: self.held_input.push(frame), ..self }, Seq::empty())
            }
        } else if self.asks_for_clipboard(frame) {
            match read {
                ClipboardRead::Failed => (self, seq![frame]),
                ClipboardRead::Item(current) => if self.waits_for(current) {
                    let (sync, offer, _) = if self.sync.outgoing_image_id == id_of(current) {
                        (self.sync, Seq::<Frame>::empty(), false)
                    } else {
                        self.sync.offering(current, true)
                    };
                    (
                        LiveState {
                            sync,
                            held_input: self.held_input.push(frame),
                            paste_barrier_deadline: Some(
                                now.later(crate::clock::millis(PASTE_BARRIER_MILLIS as int)),
                            ),
                            ..self
                        },
                        offer,
                    )
                } else if current is Some && current->Some_0 is Image && self.sync.images {
                    (self, seq![frame])
                } else {
                    let (sync, offer, _) = self.sync.offering(current, true);
                    (LiveState { sync, ..self }, offer.push(frame))
                },
            }
        } else {
            (self, seq![frame])
        }
    }

    /// What is noted of a frame that has gone: whether a control key is down;
    /// and what the other side is asked for after a copy.
    pub open spec fn sent(self, frame: Frame) -> (LiveState, Option<ClipboardEvent>) {
        match frame.held_input() {
            Some(InputEvent::Key { evdev_code, down }) => if evdev_code == KEY_LEFT_CTRL
                || evdev_code == KEY_RIGHT_CTRL {
                (LiveState { ctrl_down: down, ..self }, None)
            } else if evdev_code == KEY_C && down && self.ctrl_down && self.enabled {
                (
                    self,
                    Some(
                        if self.sync.images {
                            ClipboardEvent::ContentRequest
                        } else {
                            ClipboardEvent::TextRequest
                        },
                    ),
                )
            } else {
                (self, None)
            },
            Some(InputEvent::AllKeysUp) => (LiveState { ctrl_down: false, ..self }, None),
            _ => (self, None),
        }
    }
}

impl View for LiveClipboardState {
    type V = LiveState;

    open spec fn view(&self) -> LiveState {
        LiveState {
            enabled: self.enabled,
            ctrl_down: self.ctrl_down,
            last_clipboard_sequence: self.last_clipboard_sequence,
            held_input: self.held_input@,
            paste_barrier_deadline: self.paste_barrier_deadline,
            sync: self.sync@,
        }
    }
}

impl LiveClipboardState {
    /// What is kept of the exchange is sound.
    pub open spec fn wf(self) -> bool {
        self.sync.wf()
    }

    /// Nothing has gone yet, and nothing waits.
    pub fn new(
        enabled: bool,
        seen: Option<ClipboardContentId>,
        clipboard_sequence: u32,
        images: bool,
        max_image_bytes: usize,
    ) -> (state: Self)
        ensures
            state.wf(),
            state.enabled == enabled,
            !state.ctrl_down,
            state.last_clipboard_sequence == clipboard_sequence,
            state.held_input@.len() == 0,
            state.paste_barrier_deadline is None,
            state.sync@.tracker.last_observed == seen,
            state.sync@.tracker.sequence == 0,
            state.sync@.images == images,
            state.sync@.max_image_bytes == max_image_bytes,
            state.sync@.outgoing is None,
            state.sync@.incoming is None,
            state.sync@.outgoing_image_id is None,
            state.sync@.last_sent_image_id is None,
            state.sync@.next_transfer_id == 0,
    {
        LiveClipboardState {
            enabled,
            ctrl_down: false,
            last_clipboard_sequence: clipboard_sequence,
            held_input: Vec::new(),
            paste_barrier_deadline: None,
            sync: ClipboardSync::new(seen, images, max_image_bytes),
        }
    }

    /// Takes over a change of the configuration: whether clipboards are kept the
    /// same, whether images are exchanged, and up to how many bytes. What waits
    /// or is on its way goes on.
    pub fn configure(&mut self, enabled: bool, images: bool, max_image_bytes: usize)
        requires
            old(self).wf(),
        ensures
            final(self).wf(),
            final(self)@ == (LiveState {
                enabled,
                sync: SyncState {
                    images,
                    max_image_bytes: max_image_bytes as nat,
                    ..old(self)@.sync
                },
                ..old(self)@
            }),
    {
        self.enabled = enabled;
        self.sync.configure(images, max_image_bytes);
    }

    /// Whether the clipboard has to be read before a frame is prepared.
    pub fn asks_for_clipboard(&self, frame: &Frame) -> (asks: bool)
        ensures
            asks == self@.asks_for_clipboard(*frame),
    {
        self.paste_barrier_deadline.is_none() && self.enabled && self.ctrl_down
            && presses_paste_key(frame)
    }

    /// The frames to send for a frame of input. `read` is looked at only where
    /// the clipboard had to be read.
    pub fn prepare_input(&mut self, frame: Frame, read: ClipboardRead, now: Instant) -> (frames:
        Vec<Frame>)
        requires
            old(self).wf(),
        ensures
            final(self).wf(),
            (final(self)@, frames@) == old(self)@.preparing(frame, read, now),
    {
        let mut frames: Vec<Frame> = Vec::new();
        if self.paste_barrier_deadline.is_some() {
            if moves_pointer(&frame) {
                frames.push(frame);
            } else {
                self.held_input.push(frame);
            }
            return frames;
        }
        if !self.asks_for_clipboard(&frame) {
            frames.push(frame);
            return frames;
        }
        let current: Option<ClipboardItem> = match read {
            ClipboardRead::Failed => {
                frames.push(frame);
                return frames;
            },
            ClipboardRead::Item(current) => current,
        };
        let image_id: Option<ClipboardContentId> = match &current {
            Some(item) => match item {
                ClipboardItem::Image(_) => if self.sync.exchanges_images() {
                    Some(item.id())
                } else {
                    None
                },
                ClipboardItem::Text(_) => None,
            },
            None => None,
        };
        match image_id {
            Some(id) => {
                if self.sync.is_last_sent(id) {
                    frames.push(frame);
                    return frames;
                }
                if !self.sync.is_outgoing(id) {
                    let (offer, _) = self.sync.offer_item(current, true);
                    frames = offer;
                }
                self.held_input.push(frame);
                self.paste_barrier_deadline = Some(now.plus_millis(PASTE_BARRIER_MILLIS));
                frames
            },
            None => {
                let (offer, _) = self.sync.offer_item(current, true);
                frames = offer;
                frames.push(frame);
                frames
            },
        }
    }

    /// Notes a frame of input that has gone; what the other side is to be
    /// asked for, a little later.
    pub fn after_input_sent(&mut self, frame: &Frame) -> (request: Option<ClipboardEvent>)
        requires
            old(self).wf(),
        ensures
            final(self).wf(),
            (final(self)@, request) == old(self)@.sent(*frame),
    {
        match frame.input_event() {
            Some(InputEvent::Key { evdev_code, down }) => {
                if *evdev_code == KEY_LEFT_CTRL || *evdev_code == KEY_RIGHT_CTRL {
                    self.ctrl_down = *down;
                    None
                } else if *evdev_code == KEY_C && *down && self.ctrl_down && self.enabled {
                    if self.sync.exchanges_images() {
                        Some(ClipboardEvent::ContentRequest)
                    } else {
                        Some(ClipboardEvent::TextRequest)
                    }
                } else {
                    None
                }
            },
            Some(InputEvent::AllKeysUp) => {
                self.ctrl_down = false;
                None
            },
            _ => None,
        }
    }

    /// Takes in what the other side says.
    pub fn handle_remote_event(&mut self, event: ClipboardEvent, now: Instant) -> (step: RemoteStep)
        requires
            old(self).wf(),
        ensures
            final(self).wf(),
            old(self)@.hears(event, now, final(self)@, step),
    {
        if !self.enabled {
            return RemoteStep::Nothing;
        }
        let out: Received = self.sync.receive(event, now);
        match out {
            Received::Compare(item) => RemoteStep::Compare(item),
            Received::WantsText => RemoteStep::WantsText,
            Received::WantsItem => RemoteStep::WantsItem,
            Received::Cancelled => RemoteStep::SendHeld(self.take_held_input()),
            Received::Reply(Some(frame)) => RemoteStep::Send(frame),
            Received::Reply(None) => RemoteStep::Nothing,
        }
    }

    /// Holds what the other side offers against what is here.
    pub fn prefer_newer_local_clipboard(
        &mut self,
        offered: ClipboardItem,
        current: Option<ClipboardItem>,
    ) -> (out: Settled)
        requires
            old(self).wf(),
        ensures
            final(self).wf(),
            final(self)@ == (LiveState { sync: final(self)@.sync, ..old(self)@ }),
            final(self)@.sync == old(self)@.sync.settling(offered, current).0,
            match out {
                Settled::Kept(frames) => old(self)@.sync.settling(offered, current).1 == Some(
                    frames@,
                ),
                Settled::Write(item) => item == offered && old(self)@.sync.settling(
                    offered,
                    current,
                ).1 is None,
            },
    {
        self.sync.settle(offered, current)
    }

    /// What the other side offered was put here.
    pub fn written(&mut self, id: ClipboardContentId, clipboard_sequence: u32)
        requires
            old(self).wf(),
        ensures
            final(self).wf(),
            final(self)@ == old(self)@.holding(id, clipboard_sequence),
    {
        self.sync.written(id);
        self.last_clipboard_sequence = clipboard_sequence;
    }

    /// Whether the clipboard has to be read to see a change: it is counted by
    /// the system, and a count of nought says nothing.
    pub fn may_have_changed(&self, clipboard_sequence: u32) -> (changed: bool)
        ensures
            changed == self@.is_changed(clipboard_sequence),
    {
        self.enabled && (clipboard_sequence == 0 || clipboard_sequence
            != self.last_clipboard_sequence)
    }

    /// Offers a change of what is here.
    pub fn local_change_offer(
        &mut self,
        current: Option<ClipboardItem>,
        clipboard_sequence: u32,
    ) -> (frames: Vec<Frame>)
        requires
            old(self).wf(),
        ensures
            final(self).wf(),
            (final(self)@, frames@) == old(self)@.noticing(current, clipboard_sequence),
    {
        let (frames, _) = self.sync.offer_item(current, false);
        self.last_clipboard_sequence = clipboard_sequence;
        frames
    }

    /// Lets the input go that waited.
    pub fn take_held_input(&mut self) -> (frames: Vec<Frame>)
        requires
            old(self).wf(),
        ensures
            final(self).wf(),
            (final(self)@, frames@) == old(self)@.releasing(),
    {
        self.paste_barrier_deadline = None;
        let mut frames: Vec<Frame> = Vec::new();
        std::mem::swap(&mut frames, &mut self.held_input);
        frames
    }

    /// Gives up the image that a paste waits for.
    pub fn cancel_expired_paste_barrier(&mut self) -> (frame: Option<Frame>)
        requires
            old(self).wf(),
        ensures
            final(self).wf(),
            (final(self)@, frame) == old(self)@.giving_up_paste(),
    {
        self.paste_barrier_deadline = None;
        self.sync.time_out()
    }

    /// Whether a paste has waited too long.
    pub fn paste_barrier_expired(&self, now: Instant) -> (expired: bool)
        ensures
            expired == self@.has_waited_enough(now),
    {
        match self.paste_barrier_deadline {
            Some(deadline) => now.nanos >= deadline.nanos,
            None => false,
        }
    }

    /// Whether there is anything to send that waits its turn.
    pub fn needs_send_tick(&self) -> (needed: bool)
        ensures
            needed == (self@.sync.outgoing is Some || self@.paste_barrier_deadline is Some),
    {
        self.sync.is_sending() || self.paste_barrier_deadline.is_some()
    }
}

/// Input that waits for a paste stays in order: nothing but motion of the
/// pointer overtakes it, and all of it is there when it is let go.
pub proof fn law_paste_keeps_order(
    state: LiveState,
    frame: Frame,
    read: ClipboardRead,
    now: Instant,
)
    requires
        state.paste_barrier_deadline is Some,
    ensures
        ({
            let (after, frames) = state.preparing(frame, read, now);
            if is_motion(frame) {
                after == state && frames == seq![frame]
            } else {
                &&& frames.len() == 0
                &&& after.held_input == state.held_input.push(frame)
                &&& after.paste_barrier_deadline == state.paste_barrier_deadline
            }
        }),
{
}

/// A paste of an image waits, or the image has gone over: the paste never
/// overtakes the image that it is about.
pub proof fn law_paste_does_not_overtake(
    state: LiveState,
    frame: Frame,
    image: crate::clipboard::CanonicalImage,
    now: Instant,
)
    requires
        state.asks_for_clipboard(frame),
        state.sync.images,
    ensures
        ({
            let item = ClipboardItem::Image(image);
            let (after, frames) = state.preparing(frame, ClipboardRead::Item(Some(item)), now);
            if state.sync.last_sent_image_id == Some(item.content_id()) {
                frames == seq![frame]
            } else {
                &&& after.held_input == state.held_input.push(frame)
                &&& after.paste_barrier_deadline is Some
                &&& after.sync.outgoing_image_id == Some(item.content_id())
            }
        }),
{
}

/// No input is lost: every frame is sent or waits.
pub proof fn law_input_is_not_lost(
    state: LiveState,
    frame: Frame,
    read: ClipboardRead,
    now: Instant,
)
    ensures
        ({
            let (after, frames) = state.preparing(frame, read, now);
            ||| frames.len() > 0 && frames.last() == frame && after.held_input == state.held_input
            ||| after.held_input == state.held_input.push(frame)
        }),
{
}

/// A paste of a text has the text at hand: the press of the paste key comes
/// right behind an offer of the text that is here, whether it was seen before
/// or not and whether images are exchanged or not.
pub proof fn law_pasted_text_comes_first(
    state: LiveState,
    role_epoch: u64,
    text: String,
    now: Instant,
)
    requires
        state.enabled,
        state.ctrl_down,
        state.paste_barrier_deadline is None,
    ensures
        ({
            let press = Frame::Input(
                InputFrame { role_epoch, event: InputEvent::Key { evdev_code: 47, down: true } },
            );
            let (after, frames) = state.preparing(
                press,
                ClipboardRead::Item(Some(ClipboardItem::Text(text))),
                now,
            );
            &&& frames.len() >= 2
            &&& frames.last() == press
            &&& frames[frames.len() - 2] matches Frame::Clipboard(ClipboardEvent::TextOffer {
                text: said,
                ..
            }) && said == text
            &&& after.held_input == state.held_input
            &&& after.paste_barrier_deadline is None
            &&& after.sync.tracker.last_observed == Some(ClipboardItem::Text(text).content_id())
        }),
{
}

/// A paste of an image that has not gone over yet waits for it, and only so
/// long: the image goes out, all of it, and the press of the key is held. Only
/// an image that went over last is not waited for.
pub proof fn law_pasted_image_is_waited_for(
    state: LiveState,
    role_epoch: u64,
    image: crate::clipboard::CanonicalImage,
    now: Instant,
)
    requires
        state.enabled,
        state.ctrl_down,
        state.paste_barrier_deadline is None,
        state.sync.images,
    ensures
        ({
            let press = Frame::Input(
                InputFrame { role_epoch, event: InputEvent::Key { evdev_code: 47, down: true } },
            );
            let id = ClipboardItem::Image(image).content_id();
            let (after, frames) = state.preparing(
                press,
                ClipboardRead::Item(Some(ClipboardItem::Image(image))),
                now,
            );
            &&& state.sync.last_sent_image_id == Some(id) ==> after == state && frames =~= seq![
                press,
            ]
            &&& state.sync.last_sent_image_id != Some(id) ==> {
                &&& after.held_input == state.held_input.push(press)
                &&& !frames.contains(press)
                &&& after.paste_barrier_deadline matches Some(deadline) && (now.nanos
                    + 5_000_000_000 <= u64::MAX ==> deadline.nanos == now.nanos + 5_000_000_000)
                &&& state.sync.outgoing_image_id == Some(id) ==> after.sync == state.sync
                    && frames.len() == 0
                &&& state.sync.outgoing_image_id != Some(id) ==> (
                after.sync.outgoing matches Some(going) && going.png == image.png@ && going.width
                    == image.width && going.height == image.height && going.digest
                    == image.content_sha256@ && going.stage is Start)
            }
        }),
{
}

/// Any other input goes on at once, alone and unchanged, where nothing is
/// waited for; a clipboard that cannot be read does not hold a paste up.
pub proof fn law_other_input_goes_on(
    state: LiveState,
    frame: Frame,
    read: ClipboardRead,
    now: Instant,
)
    requires
        state.paste_barrier_deadline is None,
        ({
            let pastes = frame matches Frame::Input(input) && input.event == (InputEvent::Key {
                evdev_code: 47,
                down: true,
            });
            !state.enabled || !state.ctrl_down || !pastes || read is Failed
        }),
    ensures
        state.preparing(frame, read, now).0 == state,
        state.preparing(frame, read, now).1 =~= seq![frame],
{
}

/// A copy at the other side has it asked for what was copied: all of it where
/// images are exchanged, else the text. The control keys count as held from
/// their press to their release, or to a release of all keys.
pub proof fn law_copy_is_asked_for(state: LiveState, role_epoch: u64, code: u16, down: bool)
    ensures
        ({
            let key = Frame::Input(
                InputFrame { role_epoch, event: InputEvent::Key { evdev_code: code, down } },
            );
            let (after, request) = state.sent(key);
            &&& code == 29 || code == 97 ==> after == (LiveState { ctrl_down: down, ..state })
                && request is None
            &&& code == 46 ==> {
                &&& after == state
                &&& request is Some <==> down && state.ctrl_down && state.enabled
                &&& request is Some && state.sync.images ==> request == Some(
                    ClipboardEvent::ContentRequest,
                )
                &&& request is Some && !state.sync.images ==> request == Some(
                    ClipboardEvent::TextRequest,
                )
            }
            &&& code != 29 && code != 97 && code != 46 ==> after == state && request is None
        }),
        ({
            let released = Frame::Input(InputFrame { role_epoch, event: InputEvent::AllKeysUp });
            state.sent(released) == (
                LiveState { ctrl_down: false, ..state },
                None::<ClipboardEvent>,
            )
        }),
{
}

/// What waited for an image is sent, all of it and in the order in which it was
/// typed, and input goes on at once from then on.
pub proof fn law_waiting_input_is_sent_in_order(
    state: LiveState,
    first: Frame,
    second: Frame,
    read: ClipboardRead,
    now: Instant,
)
    requires
        state.paste_barrier_deadline is Some,
        !(first matches Frame::Input(input) && input.event is PointerMotion),
        !(second matches Frame::Input(input) && input.event is PointerMotion),
    ensures
        ({
            let held = state.preparing(first, read, now).0.preparing(second, read, now).0;
            let (after, frames) = held.releasing();
            &&& frames =~= state.held_input.push(first).push(second)
            &&& after.held_input.len() == 0
            &&& after.paste_barrier_deadline is None
            &&& after.sync == state.sync
        }),
{
}

/// A wait that takes too long ends, and gives its image up by its number; what
/// waited stays to be sent.
pub proof fn law_wait_for_an_image_ends(state: LiveState, now: Instant)
    ensures
        ({
            let (after, told) = state.giving_up_paste();
            &&& !after.has_waited_enough(now)
            &&& after.held_input == state.held_input
            &&& after.sync.outgoing is None
            &&& after.sync.outgoing_image_id is None
            &&& state.sync.outgoing matches Some(image) ==> told == Some(
                Frame::Clipboard(
                    ClipboardEvent::ImageCancel {
                        transfer_id: image.transfer_id,
                        reason: ClipboardCancelReason::TimedOut,
                    },
                ),
            )
            &&& state.sync.outgoing is None ==> told is None
            &&& after.releasing().1 == state.held_input
        }),
        state.paste_barrier_deadline is None ==> !state.has_waited_enough(now),
        state.paste_barrier_deadline matches Some(deadline) ==> (state.has_waited_enough(now)
            <==> deadline.nanos <= now.nanos),
{
}

/// A text that is new here is offered when the clipboard is looked at, and not
/// looked at again until the clipboard says that it changed; one that came from
/// the other side is not offered back.
pub proof fn law_new_local_text_is_offered(
    state: LiveState,
    text: String,
    clipboard_sequence: u32,
)
    requires
        state.enabled,
        clipboard_sequence != 0,
    ensures
        ({
            let id = ClipboardItem::Text(text).content_id();
            let (after, frames) = state.noticing(
                Some(ClipboardItem::Text(text)),
                clipboard_sequence,
            );
            &&& state.sync.tracker.last_observed != Some(id) ==> frames.len() > 0 && (
            frames.last() matches Frame::Clipboard(ClipboardEvent::TextOffer { text: said, .. })
                && said == text)
            &&& state.sync.tracker.last_observed == Some(id) ==> frames.len() == 0
            &&& !after.is_changed(clipboard_sequence)
            &&& clipboard_sequence != state.last_clipboard_sequence ==> state.is_changed(
                clipboard_sequence,
            )
            &&& after.held_input == state.held_input
        }),
        ({
            let id = ClipboardItem::Text(text).content_id();
            let put = state.holding(id, clipboard_sequence);
            &&& !put.is_changed(clipboard_sequence)
            &&& put.noticing(Some(ClipboardItem::Text(text)), clipboard_sequence).1.len() == 0
        }),
{
}

/// What the other side says of its clipboard is taken in where the clipboard is
/// shared, and nowhere else; a paste whose image is not wanted goes on.
pub proof fn law_shared_clipboard_is_heard(
    state: LiveState,
    event: ClipboardEvent,
    now: Instant,
    after: LiveState,
    step: RemoteStep,
)
    requires
        state.hears(event, now, after, step),
    ensures
        !state.enabled ==> after == state && step is Nothing,
        state.enabled && (event matches ClipboardEvent::TextOffer { .. }) ==> step
            == RemoteStep::Compare(ClipboardItem::Text(event->TextOffer_text)) && after == state,
        state.enabled && (event is TextRequest) ==> step is WantsText && after == state,
        state.enabled && (event is ContentRequest) ==> step is WantsItem && after == state,
        ({
            let unwanted = event matches ClipboardEvent::ImageCancel { transfer_id, .. } && (
            state.sync.outgoing matches Some(going) && going.transfer_id == transfer_id);
            state.enabled && unwanted ==> {
                &&& step matches RemoteStep::SendHeld(frames) && frames@ == state.held_input
                &&& after.held_input.len() == 0
                &&& after.paste_barrier_deadline is None
                &&& after.sync.outgoing is None
            }
        }),
{
}

} // verus!
