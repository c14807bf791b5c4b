//! Two clipboards kept the same.
//!
//! What is new on one computer is offered to the other. What the other offers
//! is taken over, unless something newer is here: that is offered instead.

use crate::clipboard::{
    same_id, CanonicalImage, ClipboardChangeTracker, ClipboardContentId, ClipboardError,
    ClipboardItem, Refusal,
};
use crate::clock::Instant;
use crate::image_transfer::{
    arrival, finished, transfer_event, Arrival, Incoming, IncomingImageTransfer, Outgoing,
    OutgoingImageTransfer, OutgoingStage, TransferEvent,
};
use crate::protocol::{ClipboardCancelReason, ClipboardEvent, Frame};
use vstd::prelude::*;

verus! {

/// One side of two clipboards that are kept the same.
#[derive(Debug)]
pub struct ClipboardSync {
    tracker: ClipboardChangeTracker,
    outgoing: Option<OutgoingImageTransfer>,
    outgoing_image_id: Option<ClipboardContentId>,
    last_sent_image_id: Option<ClipboardContentId>,
    incoming: IncomingImageTransfer,
    next_transfer_id: u64,
    images: bool,
    max_image_bytes: usize,
}

/// What one side knows.
pub ghost struct SyncState {
    pub tracker: ClipboardChangeTracker,
    pub outgoing: Option<Outgoing>,
    /// The image that goes out.
    pub outgoing_image_id: Option<ClipboardContentId>,
    pub last_sent_image_id: Option<ClipboardContentId>,
    pub incoming: Option<Incoming>,
    pub next_transfer_id: u64,
    /// Images are exchanged: both sides can, and this one wants to.
    pub images: bool,
    pub max_image_bytes: nat,
}

/// What is to be done about something that the other side said.
#[derive(Debug)]
pub enum Received {
    /// Hold what it offers against what is here.
    Compare(ClipboardItem),
    /// Offer the text that is here.
    WantsText,
    /// Offer what is here.
    WantsItem,
    /// The image that went out is not wanted.
    Cancelled,
    /// Answer, if there is anything to answer.
    Reply(Option<Frame>),
}

/// What becomes of an offer that was held against what is here.
#[derive(Debug)]
pub enum Settled {
    /// What is here stays; these frames say so.
    Kept(Vec<Frame>),
    /// What was offered is to be put here.
    Write(ClipboardItem),
}

/// The id of what is here, if anything is.
pub open spec fn id_of(current: Option<ClipboardItem>) -> Option<ClipboardContentId> {
    match current {
        Some(item) => Some(item.content_id()),
        None => None,
    }
}

fn current_id(current: &Option<ClipboardItem>) -> (id: Option<ClipboardContentId>)
    ensures
        id == id_of(*current),
{
    match current {
        Some(item) => Some(item.id()),
        None => None,
    }
}

/// The number of the next image transfer; none has the number nought.
pub open spec fn transfer_after(n: u64) -> u64 {
    if n == u64::MAX {
        1
    } else {
        (n + 1) as u64
    }
}

/// What gives an image transfer up.
pub open spec fn cancelling(transfer_id: u64, reason: ClipboardCancelReason) -> Frame {
    Frame::Clipboard(ClipboardEvent::ImageCancel { transfer_id, reason })
}

/// What is told the other side of an image that was not accepted.
pub open spec fn reason_for(refusal: Refusal) -> ClipboardCancelReason {
    match refusal {
        Refusal::EncodedTooLarge { .. } => ClipboardCancelReason::Rejected,
        Refusal::TooManyPixels { .. } => ClipboardCancelReason::Rejected,
        Refusal::InvalidDimensions => ClipboardCancelReason::Rejected,
        _ => ClipboardCancelReason::Invalid,
    }
}

/// The answer to an event that was not accepted; a cancellation has none.
pub open spec fn answer(event: ClipboardEvent, reason: ClipboardCancelReason) -> Option<Frame> {
    if event is ImageCancel {
        None
    } else {
        match event.spec_image_transfer_id() {
            Some(id) => Some(cancelling(id, reason)),
            None => None,
        }
    }
}

impl SyncState {
    /// An image counts as going out only while it does.
    pub open spec fn is_true_to_its_image(self) -> bool {
        self.outgoing is Some <==> self.outgoing_image_id is Some
    }

    /// What gives up the image that goes out, if one does.
    pub open spec fn giving_up(self) -> Seq<Frame> {
        match self.outgoing {
            Some(active) => Seq::<Frame>::empty().push(
                cancelling(active.transfer_id, ClipboardCancelReason::Replaced),
            ),
            None => Seq::empty(),
        }
    }

    /// An offer of what is here: the state behind it, the frames to send at
    /// once, and whether anything is offered. What was seen is offered again
    /// only where it has to be.
    pub open spec fn offering(self, current: Option<ClipboardItem>, force: bool) -> (
        SyncState,
        Seq<Frame>,
        bool,
    ) {
        let id = id_of(current);
        if !force && self.tracker.last_observed == id {
            (self, Seq::empty(), false)
        } else {
            let (tracker, number) = self.tracker.offering(id);
            let seen = SyncState { tracker, ..self };
            match (current, number) {
                (Some(ClipboardItem::Text(text)), Some(sequence)) => (
                    SyncState { outgoing: None, outgoing_image_id: None, ..seen },
                    self.giving_up().push(
                        Frame::Clipboard(ClipboardEvent::TextOffer { sequence, text }),
                    ),
                    true,
                ),
                (Some(ClipboardItem::Image(image)), Some(sequence)) => if self.images {
                    let transfer_id = transfer_after(self.next_transfer_id);
                    (
                        SyncState {
                            next_transfer_id: transfer_id,
                            outgoing: Some(started(transfer_id, sequence, image)),
                            outgoing_image_id: id,
                            ..seen
                        },
                        self.giving_up(),
                        true,
                    )
                } else {
                    (seen, Seq::empty(), false)
                },
                _ => (seen, Seq::empty(), false),
            }
        }
    }

    /// The next event of the image that goes out, and whether it is the last.
    pub open spec fn next_image(self) -> (SyncState, Option<(TransferEvent, bool)>) {
        match self.outgoing {
            None => (self, None),
            Some(active) => match active.next() {
                (None, _) => (self, None),
                (Some(event), rest) => if event is End {
                    (
                        SyncState {
                            outgoing: None,
                            last_sent_image_id: self.outgoing_image_id,
                            outgoing_image_id: None,
                            ..self
                        },
                        Some((event, true)),
                    )
                } else {
                    (SyncState { outgoing: Some(rest), ..self }, Some((event, false)))
                },
            },
        }
    }

    /// An offer of a text that was asked for: the state behind it, and what is
    /// sent.
    pub open spec fn answering(self, text: String) -> (SyncState, Frame) {
        let id = ClipboardItem::Text(text).content_id();
        let (tracker, number) = self.tracker.offering(Some(id));
        (
            SyncState { tracker, ..self },
            Frame::Clipboard(ClipboardEvent::TextOffer { sequence: number->Some_0, text }),
        )
    }

    /// The state in which something here counts as seen.
    pub open spec fn seeing(self, id: ClipboardContentId) -> SyncState {
        SyncState {
            tracker: ClipboardChangeTracker { last_observed: Some(id), ..self.tracker },
            ..self
        }
    }

    /// What comes of an offer that is held against what is here: the state
    /// behind it, and what is sent where what is here stays. `None` has the
    /// offer be put here.
    pub open spec fn settling(self, offered: ClipboardItem, current: Option<ClipboardItem>) -> (
        SyncState,
        Option<Seq<Frame>>,
    ) {
        let here = id_of(current);
        if here == Some(offered.content_id()) {
            (self.seeing(offered.content_id()), Some(Seq::empty()))
        } else if here is Some && self.tracker.last_observed != here {
            (self.offering(current, true).0, Some(self.offering(current, true).1))
        } else {
            (self, None)
        }
    }

    /// The image that goes out takes too long: the state without it, and what is
    /// told the other side.
    pub open spec fn timing_out(self) -> (SyncState, Option<Frame>) {
        (
            SyncState { outgoing: None, outgoing_image_id: None, ..self },
            match self.outgoing {
                Some(active) => Some(
                    cancelling(active.transfer_id, ClipboardCancelReason::TimedOut),
                ),
                None => None,
            },
        )
    }

    /// The image that comes in may make no progress: the state without it then,
    /// and what is told the other side.
    pub open spec fn expiring(self, now: Instant) -> (SyncState, Option<Frame>) {
        if IncomingImageTransfer::is_expired(self.incoming, now) {
            (
                SyncState { incoming: None, ..self },
                Some(
                    cancelling(
                        self.incoming->Some_0.transfer_id,
                        ClipboardCancelReason::TimedOut,
                    ),
                ),
            )
        } else {
            (self, None)
        }
    }

    /// A cancellation of the image that goes out.
    pub open spec fn is_cancelled_by(self, event: ClipboardEvent) -> bool {
        event matches ClipboardEvent::ImageCancel { transfer_id, .. } && (
        self.outgoing matches Some(active) && active.transfer_id == transfer_id)
    }
}

/// An image that is about to go out.
pub open spec fn started(transfer_id: u64, sequence: u64, image: CanonicalImage) -> Outgoing {
    Outgoing {
        transfer_id,
        sequence,
        width: image.width,
        height: image.height,
        png: image.png@,
        digest: image.content_sha256@,
        offset: 0,
        stage: OutgoingStage::Start,
    }
}

/// What comes of an event of an image that the other side sends.
pub open spec fn takes_image(
    before: SyncState,
    event: ClipboardEvent,
    now: Instant,
    after: SyncState,
    out: Received,
) -> bool {
    if before.is_cancelled_by(event) {
        after == (SyncState { outgoing: None, outgoing_image_id: None, ..before })
            && out is Cancelled
    } else if !before.images {
        after == before && out == Received::Reply(answer(event, ClipboardCancelReason::Rejected))
    } else {
        let (next, came) = arrival(
            before.incoming,
            transfer_event(event),
            before.max_image_bytes,
            now,
        );
        match came {
            Arrival::Pending => {
                &&& after == (SyncState { incoming: next, ..before })
                &&& out == Received::Reply(None)
            },
            Arrival::Complete(image) => match finished(image, before.max_image_bytes) {
                Ok((width, height, rgba)) => {
                    &&& after == (SyncState { incoming: next, ..before })
                    &&& out matches Received::Compare(ClipboardItem::Image(image)) && image.is_of(
                        width,
                        height,
                        rgba,
                    )
                },
                Err(refusal) => {
                    &&& after == (SyncState { incoming: None, ..before })
                    &&& out == Received::Reply(answer(event, reason_for(refusal)))
                },
            },
            Arrival::Refused(refusal) => {
                &&& after == (SyncState { incoming: None, ..before })
                &&& out == Received::Reply(answer(event, reason_for(refusal)))
            },
        }
    }
}

/// What comes of something that the other side says: a text is held against
/// what is here, and a request is answered.
pub open spec fn receives(
    before: SyncState,
    event: ClipboardEvent,
    now: Instant,
    after: SyncState,
    out: Received,
) -> bool {
    match event {
        ClipboardEvent::TextOffer { text, .. } => after == before && out == Received::Compare(
            ClipboardItem::Text(text),
        ),
        ClipboardEvent::TextRequest => after == before && out is WantsText,
        ClipboardEvent::ContentRequest => after == before && out is WantsItem,
        _ => takes_image(before, event, now, after, out),
    }
}

impl View for ClipboardSync {
    type V = SyncState;

    closed spec fn view(&self) -> SyncState {
        SyncState {
            tracker: self.tracker,
            outgoing: match self.outgoing {
                Some(active) => Some(active@),
                None => None,
            },
            outgoing_image_id: self.outgoing_image_id,
            last_sent_image_id: self.last_sent_image_id,
            incoming: self.incoming@,
            next_transfer_id: self.next_transfer_id,
            images: self.images,
            max_image_bytes: self.max_image_bytes as nat,
        }
    }
}

impl ClipboardSync {
    /// An image that goes out is not yet through.
    pub closed spec fn wf(self) -> bool {
        self.outgoing matches Some(active) ==> active.wf() && !(active@.stage is Done)
    }

    /// Nothing has been exchanged yet; what is here counts as seen.
    pub fn new(
        seen: Option<ClipboardContentId>,
        images: bool,
        max_image_bytes: usize,
    ) -> (sync: Self)
        ensures
            sync.wf(),
            sync@ == (SyncState {
                tracker: ClipboardChangeTracker { sequence: 0, last_observed: seen },
                outgoing: None,
                outgoing_image_id: None,
                last_sent_image_id: None,
                incoming: None,
                next_transfer_id: 0,
                images,
                max_image_bytes: max_image_bytes as nat,
            }),
    {
        ClipboardSync {
            tracker: ClipboardChangeTracker::new(seen),
            outgoing: None,
            outgoing_image_id: None,
            last_sent_image_id: None,
            incoming: IncomingImageTransfer::default(),
            next_transfer_id: 0,
            images,
            max_image_bytes,
        }
    }

    /// Has images be exchanged or not, up to so many bytes, from now on. What is
    /// on its way goes on.
    pub fn configure(&mut self, images: bool, max_image_bytes: usize)
        requires
            old(self).wf(),
        ensures
            final(self).wf(),
            final(self)@ == (SyncState {
                images,
                max_image_bytes: max_image_bytes as nat,
                ..old(self)@
            }),
    {
        self.images = images;
        self.max_image_bytes = max_image_bytes;
    }

    /// Whether an image goes out.
    pub fn is_sending(&self) -> (sending: bool)
        ensures
            sending == (self@.outgoing is Some),
    {
        self.outgoing.is_some()
    }

    /// Whether images are exchanged.
    pub fn exchanges_images(&self) -> (images: bool)
        ensures
            images == self@.images,
    {
        self.images
    }

    /// Whether an image is the one that goes out.
    pub fn is_outgoing(&self, id: ClipboardContentId) -> (same: bool)
        ensures
            same == (self@.outgoing_image_id == Some(id)),
    {
        same_id(&self.outgoing_image_id, &Some(id))
    }

    /// Whether an image is the one that last went out whole.
    pub fn is_last_sent(&self, id: ClipboardContentId) -> (same: bool)
        ensures
            same == (self@.last_sent_image_id == Some(id)),
    {
        same_id(&self.last_sent_image_id, &Some(id))
    }

    fn give_up(&mut self, frames: &mut Vec<Frame>)
        ensures
            final(self)@ == (SyncState { outgoing: None, ..old(self)@ }),
            final(self).wf(),
            old(frames)@.len() == 0 ==> final(frames)@ == old(self)@.giving_up(),
    {
        if let Some(active) = self.outgoing.take() {
            frames.push(Frame::Clipboard(active.cancel_event(ClipboardCancelReason::Replaced)));
            assert(old(frames)@.len() == 0 ==> old(frames)@ =~= Seq::empty());
        } else {
            assert(old(frames)@.len() == 0 ==> old(frames)@ =~= Seq::empty());
        }
    }

    /// Offers what is here; whether it is offered, and what to send at once.
    pub fn offer_item(&mut self, current: Option<ClipboardItem>, force: bool) -> (out: (
        Vec<Frame>,
        bool,
    ))
        requires
            old(self).wf(),
        ensures
            final(self).wf(),
            (final(self)@, out.0@, out.1) == old(self)@.offering(current, force),
    {
        let id: Option<ClipboardContentId> = current_id(&current);
        let mut frames: Vec<Frame> = Vec::new();
        let number: Option<u64> = if force {
            self.tracker.offer_current(id)
        } else {
            self.tracker.offer_if_changed(id)
        };
        let sequence: u64 = match number {
            Some(sequence) => sequence,
            None => {
                assert(frames@ =~= Seq::empty());
                return (frames, false);
            },
        };
        match current {
            Some(ClipboardItem::Text(text)) => {
                self.give_up(&mut frames);
                self.outgoing_image_id = None;
                frames.push(Frame::Clipboard(ClipboardEvent::TextOffer { sequence, text }));
                (frames, true)
            },
            Some(ClipboardItem::Image(image)) => {
                if !self.images {
                    assert(frames@ =~= Seq::empty());
                    return (frames, false);
                }
                self.give_up(&mut frames);
                self.next_transfer_id = if self.next_transfer_id == u64::MAX {
                    1
                } else {
                    self.next_transfer_id + 1
                };
                self.outgoing = Some(
                    OutgoingImageTransfer::new(self.next_transfer_id, sequence, image),
                );
                self.outgoing_image_id = id;
                (frames, true)
            },
            None => (frames, false),
        }
    }

    /// Offers the text that is here, as it was asked for.
    pub fn offer_text(&mut self, text: String) -> (frame: Frame)
        requires
            old(self).wf(),
        ensures
            final(self).wf(),
            (final(self)@, frame) == old(self)@.answering(text),
    {
        let item = ClipboardItem::Text(text.clone());
        let id: ClipboardContentId = item.id();
        let sequence: u64 = match self.tracker.offer_current(Some(id)) {
            Some(sequence) => sequence,
            None => 0,
        };
        Frame::Clipboard(ClipboardEvent::TextOffer { sequence, text })
    }

    /// The next frame of the image that goes out, and whether it is the last.
    pub fn next_image_frame(&mut self) -> (out: Option<(Frame, bool)>)
        requires
            old(self).wf(),
        ensures
            final(self).wf(),
            final(self)@ == old(self)@.next_image().0,
            match out {
                Some((frame, last)) => frame matches Frame::Clipboard(event)
                    && old(self)@.next_image().1 == Some((transfer_event(event), last)),
                None => old(self)@.next_image().1 is None,
            },
            out is Some <==> old(self)@.outgoing is Some,
    {
        let mut transfer: OutgoingImageTransfer = match self.outgoing.take() {
            Some(transfer) => transfer,
            None => {
                return None;
            },
        };
        match transfer.next_event() {
            Some(event) => {
                let last: bool = match &event {
                    ClipboardEvent::ImageEnd { .. } => true,
                    _ => false,
                };
                if last {
                    self.last_sent_image_id = self.outgoing_image_id;
                    self.outgoing_image_id = None;
                } else {
                    self.outgoing = Some(transfer);
                }
                Some((Frame::Clipboard(event), last))
            },
            None => None,
        }
    }

    /// Gives up the image that goes out, as it takes too long.
    pub fn time_out(&mut self) -> (frame: Option<Frame>)
        ensures
            final(self).wf(),
            (final(self)@, frame) == old(self)@.timing_out(),
    {
        self.outgoing_image_id = None;
        match self.outgoing.take() {
            Some(active) => Some(
                Frame::Clipboard(active.cancel_event(ClipboardCancelReason::TimedOut)),
            ),
            None => None,
        }
    }

    /// Gives up the image that comes in if it makes no progress; what to tell
    /// the other side.
    pub fn expire(&mut self, now: Instant) -> (frame: Option<Frame>)
        requires
            old(self).wf(),
        ensures
            final(self).wf(),
            (final(self)@, frame) == old(self)@.expiring(now),
    {
        match self.incoming.expire_transfer_id(now) {
            Some(transfer_id) => Some(
                Frame::Clipboard(
                    ClipboardEvent::ImageCancel {
                        transfer_id,
                        reason: ClipboardCancelReason::TimedOut,
                    },
                ),
            ),
            None => None,
        }
    }

    fn take_image(&mut self, event: ClipboardEvent, now: Instant) -> (out: Received)
        requires
            old(self).wf(),
        ensures
            final(self).wf(),
            takes_image(old(self)@, event, now, final(self)@, out),
    {
        let id: Option<u64> = event.image_transfer_id();
        let is_cancel: bool = match &event {
            ClipboardEvent::ImageCancel { .. } => true,
            _ => false,
        };
        let outgoing_id: Option<u64> = match &self.outgoing {
            Some(active) => Some(active.transfer_id()),
            None => None,
        };
        if is_cancel && outgoing_id.is_some() && outgoing_id == id {
            self.outgoing = None;
            self.outgoing_image_id = None;
            return Received::Cancelled;
        }
        if !self.images {
            return Received::Reply(reply(id, is_cancel, ClipboardCancelReason::Rejected));
        }
        match self.incoming.handle(event, self.max_image_bytes, now) {
            Ok(Some(image)) => Received::Compare(ClipboardItem::Image(image)),
            Ok(None) => Received::Reply(None),
            Err(error) => {
                self.incoming.clear();
                let reason: ClipboardCancelReason = match error {
                    ClipboardError::EncodedTooLarge { .. } => ClipboardCancelReason::Rejected,
                    ClipboardError::TooManyPixels { .. } => ClipboardCancelReason::Rejected,
                    ClipboardError::InvalidDimensions => ClipboardCancelReason::Rejected,
                    _ => ClipboardCancelReason::Invalid,
                };
                Received::Reply(reply(id, is_cancel, reason))
            },
        }
    }

    /// Takes in what the other side says.
    pub fn receive(&mut self, event: ClipboardEvent, now: Instant) -> (out: Received)
        requires
            old(self).wf(),
        ensures
            final(self).wf(),
            receives(old(self)@, event, now, final(self)@, out),
    {
        match event {
            ClipboardEvent::TextOffer { text, .. } => Received::Compare(ClipboardItem::Text(text)),
            ClipboardEvent::TextRequest => Received::WantsText,
            ClipboardEvent::ContentRequest => Received::WantsItem,
            event => self.take_image(event, now),
        }
    }

    /// Holds what the other side offers against what is here. The same counts
    /// as seen; something here that the other side has not seen is kept and
    /// offered; else what is offered is put here.
    pub fn settle(&mut self, offered: ClipboardItem, current: Option<ClipboardItem>) -> (out:
        Settled)
        requires
            old(self).wf(),
        ensures
            final(self).wf(),
            final(self)@ == old(self)@.settling(offered, current).0,
            match out {
                Settled::Kept(frames) => old(self)@.settling(offered, current).1 == Some(frames@),
                Settled::Write(item) => item == offered && old(self)@.settling(
                    offered,
                    current,
                ).1 is None,
            },
    {
        let here: Option<ClipboardContentId> = current_id(&current);
        let there: ClipboardContentId = offered.id();
        if same_id(&here, &Some(there)) {
            self.tracker.mark_observed(here);
            let frames: Vec<Frame> = Vec::new();
            assert(frames@ =~= Seq::empty());
            return Settled::Kept(frames);
        }
        if here.is_some() && !self.tracker.is_observed(&here) {
            let (frames, _) = self.offer_item(current, true);
            return Settled::Kept(frames);
        }
        Settled::Write(offered)
    }

    /// What the other side offered was put here: it counts as seen.
    pub fn written(&mut self, id: ClipboardContentId)
        requires
            old(self).wf(),
        ensures
            final(self).wf(),
            final(self)@ == old(self)@.seeing(id),
    {
        self.tracker.mark_observed(Some(id));
    }
}

fn reply(id: Option<u64>, is_cancel: bool, reason: ClipboardCancelReason) -> (frame: Option<Frame>)
    ensures
        frame == (if is_cancel {
            None
        } else {
            match id {
                Some(id) => Some(cancelling(id, reason)),
                None => None,
            }
        }),
{
    if is_cancel {
        return None;
    }
    match id {
        Some(transfer_id) => Some(
            Frame::Clipboard(ClipboardEvent::ImageCancel { transfer_id, reason }),
        ),
        None => None,
    }
}

/// Nothing goes back and forth: what was taken over from the other side is
/// not offered to it as a change.
pub proof fn law_no_echo(state: SyncState, item: ClipboardItem)
    requires
        state.tracker.last_observed == Some(item.content_id()),
    ensures
        state.offering(Some(item), false) == (state, Seq::<Frame>::empty(), false),
{
}

/// What was offered once is not offered again as long as nothing changes.
pub proof fn law_offered_once(state: SyncState, current: Option<ClipboardItem>, force: bool)
    ensures
        !state.offering(current, force).0.offering(current, false).2,
{
}

/// At most one image goes out at a time: a second one gives the first up, and
/// has a number of its own.
pub proof fn law_new_image_replaces_old(state: SyncState, image: CanonicalImage)
    requires
        state.images,
        state.outgoing matches Some(active) ==> active.transfer_id == state.next_transfer_id,
    ensures
        ({
            let (after, frames, _) = state.offering(Some(ClipboardItem::Image(image)), true);
            &&& after.outgoing matches Some(active) && active.transfer_id
                == after.next_transfer_id && active.png == image.png@
            &&& state.outgoing matches Some(old_one) ==> frames =~= seq![
                cancelling(old_one.transfer_id, ClipboardCancelReason::Replaced),
            ] && old_one.transfer_id != after.next_transfer_id
        }),
{
}

/// Where images are not exchanged, none goes out and none is taken in.
pub proof fn law_images_are_gated(
    state: SyncState,
    image: CanonicalImage,
    force: bool,
    event: ClipboardEvent,
    now: Instant,
    after: SyncState,
    out: Received,
)
    requires
        !state.images,
        state.outgoing is None,
        takes_image(state, event, now, after, out),
    ensures
        state.offering(Some(ClipboardItem::Image(image)), force).1 =~= Seq::empty(),
        state.offering(Some(ClipboardItem::Image(image)), force).0.outgoing is None,
        out is Reply,
        after == state,
{
}

/// Whatever is offered, sent or taken, an image counts as going out only while
/// it does: nothing waits for one that was given up.
pub proof fn law_given_up_image_is_not_waited_for(
    state: SyncState,
    current: Option<ClipboardItem>,
    force: bool,
    event: ClipboardEvent,
    now: Instant,
    after: SyncState,
    out: Received,
)
    requires
        state.is_true_to_its_image(),
        takes_image(state, event, now, after, out),
    ensures
        state.offering(current, force).0.is_true_to_its_image(),
        state.next_image().0.is_true_to_its_image(),
        after.is_true_to_its_image(),
        out is Cancelled ==> after.outgoing_image_id is None,
{
}

/// A text that differs from what was last seen is offered, and so is any text
/// where an offer has to be made, whether images are exchanged or not: one
/// offer with that text is the last frame, the call reports it, and the text
/// counts as seen. The only other frame gives up an image that was going out.
pub proof fn law_new_text_is_offered(state: SyncState, text: String, force: bool, images: bool)
    requires
        force || state.tracker.last_observed != Some(ClipboardItem::Text(text).content_id()),
    ensures
        ({
            let (after, frames, offered) = state.offering(Some(ClipboardItem::Text(text)), force);
            &&& offered
            &&& frames.len() == if state.outgoing is Some {
                2int
            } else {
                1
            }
            &&& frames.last() matches Frame::Clipboard(ClipboardEvent::TextOffer {
                sequence,
                text: said,
            }) && said == text && (state.tracker.sequence < u64::MAX ==> sequence
                == state.tracker.sequence + 1)
            &&& state.outgoing matches Some(image) ==> frames[0] == Frame::Clipboard(
                ClipboardEvent::ImageCancel {
                    transfer_id: image.transfer_id,
                    reason: ClipboardCancelReason::Replaced,
                },
            )
            &&& after.tracker.last_observed == Some(ClipboardItem::Text(text).content_id())
            &&& after.outgoing is None
            &&& after.incoming == state.incoming
        }),
        ({
            let other = SyncState { images, ..state };
            let (after, frames, offered) = state.offering(Some(ClipboardItem::Text(text)), force);
            let (other_after, other_frames, other_offered) = other.offering(
                Some(ClipboardItem::Text(text)),
                force,
            );
            &&& other_frames == frames
            &&& other_offered == offered
            &&& other_after == (SyncState { images, ..after })
        }),
{
}

/// A text that was asked for is offered, whatever was last seen, and leaves an
/// image that goes out on its way.
pub proof fn law_asked_for_text_is_offered(state: SyncState, text: String)
    ensures
        ({
            let (after, frame) = state.answering(text);
            &&& frame matches Frame::Clipboard(ClipboardEvent::TextOffer { sequence, text: said })
                && said == text && (state.tracker.sequence < u64::MAX ==> sequence
                == state.tracker.sequence + 1)
            &&& after.tracker.last_observed == Some(ClipboardItem::Text(text).content_id())
            &&& after.outgoing == state.outgoing
            &&& after.outgoing_image_id == state.outgoing_image_id
            &&& after.incoming == state.incoming
        }),
{
}

/// Where images are exchanged, one that differs from what was last seen goes
/// out, and so does any image where an offer has to be made: all of it, from
/// its start on, under a number that no image had just before. Elsewhere it
/// only counts as seen.
pub proof fn law_new_image_is_offered(state: SyncState, image: CanonicalImage, force: bool)
    requires
        force || state.tracker.last_observed != Some(ClipboardItem::Image(image).content_id()),
    ensures
        ({
            let id = ClipboardItem::Image(image).content_id();
            let (after, frames, offered) = state.offering(Some(ClipboardItem::Image(image)), force);
            &&& offered == state.images
            &&& after.tracker.last_observed == Some(id)
            &&& after.incoming == state.incoming
            &&& !state.images ==> frames.len() == 0 && after.outgoing == state.outgoing
                && after.outgoing_image_id == state.outgoing_image_id
            &&& state.images ==> {
                &&& after.outgoing_image_id == Some(id)
                &&& after.next_transfer_id != state.next_transfer_id
                &&& after.next_transfer_id != 0
                &&& after.outgoing matches Some(going)
                &&& going.transfer_id == after.next_transfer_id
                &&& state.tracker.sequence < u64::MAX ==> going.sequence == state.tracker.sequence
                    + 1
                &&& going.width == image.width
                &&& going.height == image.height
                &&& going.png == image.png@
                &&& going.digest == image.content_sha256@
                &&& going.offset == 0
                &&& going.stage is Start
                &&& frames =~= match state.outgoing {
                    Some(given_up) => seq![
                        Frame::Clipboard(
                            ClipboardEvent::ImageCancel {
                                transfer_id: given_up.transfer_id,
                                reason: ClipboardCancelReason::Replaced,
                            },
                        ),
                    ],
                    None => seq![],
                }
            }
        }),
{
}

/// An empty clipboard is never offered, and leaves what goes out on its way.
pub proof fn law_nothing_is_not_offered(state: SyncState, force: bool)
    ensures
        ({
            let (after, frames, offered) = state.offering(None, force);
            &&& !offered
            &&& frames.len() == 0
            &&& after.outgoing == state.outgoing
            &&& after.tracker.last_observed is None
        }),
{
}

/// What the other side offers is put here where nothing newer is: where the
/// clipboard is empty, or holds what was seen and is something else.
pub proof fn law_offer_is_taken_over(
    state: SyncState,
    offered: ClipboardItem,
    current: Option<ClipboardItem>,
)
    requires
        current matches Some(here) ==> here.content_id() != offered.content_id()
            && state.tracker.last_observed == Some(here.content_id()),
    ensures
        state.settling(offered, current).1 is None,
        state.settling(offered, current).0 == state,
{
}

/// Something newer here is kept against an offer, and offered in turn: a text
/// by a frame, an image, where images are exchanged, as what goes out.
pub proof fn law_newer_here_is_kept(
    state: SyncState,
    offered: ClipboardItem,
    here: ClipboardItem,
)
    requires
        here.content_id() != offered.content_id(),
        state.tracker.last_observed != Some(here.content_id()),
    ensures
        ({
            let (after, kept) = state.settling(offered, Some(here));
            &&& kept is Some
            &&& after.tracker.last_observed == Some(here.content_id())
            &&& match here {
                ClipboardItem::Text(text) => kept->Some_0.len() > 0 && (
                kept->Some_0.last() matches Frame::Clipboard(ClipboardEvent::TextOffer {
                    text: said,
                    ..
                }) && said == text),
                ClipboardItem::Image(image) => if state.images {
                    after.outgoing matches Some(going) && going.png == image.png@
                        && going.stage is Start
                } else {
                    kept->Some_0.len() == 0
                },
            }
        }),
{
}

/// An offer of what is here already only counts as seen: nothing is sent and
/// nothing is put here.
pub proof fn law_same_offer_is_only_seen(
    state: SyncState,
    offered: ClipboardItem,
    here: ClipboardItem,
)
    requires
        here.content_id() == offered.content_id(),
    ensures
        state.settling(offered, Some(here)).1 == Some(Seq::<Frame>::empty()),
        state.settling(offered, Some(here)).0.tracker.last_observed == Some(here.content_id()),
        state.settling(offered, Some(here)).0.outgoing == state.outgoing,
        state.settling(offered, Some(here)).0.tracker.sequence == state.tracker.sequence,
{
}

/// A text that is new on one side gets to the other, and rests there: its
/// offer is compared, put in place of what was seen, and not sent back.
pub proof fn law_new_text_gets_across(
    one: SyncState,
    other: SyncState,
    text: String,
    current: Option<ClipboardItem>,
    now: Instant,
    after: SyncState,
    out: Received,
)
    requires
        one.tracker.last_observed != Some(ClipboardItem::Text(text).content_id()),
        current matches Some(here) ==> here.content_id() != ClipboardItem::Text(text).content_id()
            && other.tracker.last_observed == Some(here.content_id()),
        one.offering(Some(ClipboardItem::Text(text)), false).1.last() matches Frame::Clipboard(
            event,
        ) && receives(other, event, now, after, out),
    ensures
        out == Received::Compare(ClipboardItem::Text(text)),
        after.settling(ClipboardItem::Text(text), current).1 is None,
        ({
            let put = after.seeing(ClipboardItem::Text(text).content_id());
            put.offering(Some(ClipboardItem::Text(text)), false) == (
                put,
                Seq::<Frame>::empty(),
                false,
            )
        }),
{
}

/// A request is passed on as what it asks for, and changes nothing.
pub proof fn law_requests_are_answered(
    state: SyncState,
    now: Instant,
    after: SyncState,
    out: Received,
)
    ensures
        receives(state, ClipboardEvent::TextRequest, now, after, out) ==> out is WantsText && after
            == state,
        receives(state, ClipboardEvent::ContentRequest, now, after, out) ==> out is WantsItem
            && after == state,
{
}

/// The events of an image that goes out come one by one, each as the transfer
/// has it; behind the end nothing goes out any more, and the image counts as
/// the one that was last sent.
pub proof fn law_image_goes_out_to_its_end(state: SyncState)
    requires
        state.outgoing is Some,
        !(state.outgoing->Some_0.stage is Done),
    ensures
        ({
            let (after, sent) = state.next_image();
            let (event, rest) = state.outgoing->Some_0.next();
            &&& sent matches Some((said, last)) && Some(said) == event && last == (said is End)
            &&& event->Some_0 is End ==> after.outgoing is None && after.outgoing_image_id is None
                && after.last_sent_image_id == state.outgoing_image_id
            &&& !(event->Some_0 is End) ==> after.outgoing == Some(rest) && after.outgoing_image_id
                == state.outgoing_image_id && after.last_sent_image_id == state.last_sent_image_id
            &&& after.tracker == state.tracker
            &&& after.incoming == state.incoming
        }),
{
}

/// An image of the other side that is all there and in order is held against
/// what is here; one that is not is refused, and the other side is told by the
/// number of its transfer. An image that goes out is not touched by it.
pub proof fn law_whole_image_is_compared(
    state: SyncState,
    event: ClipboardEvent,
    now: Instant,
    after: SyncState,
    out: Received,
)
    requires
        state.images,
        event is ImageEnd,
        receives(state, event, now, after, out),
    ensures
        after.outgoing == state.outgoing,
        after.incoming is None,
        ({
            let transfer_id = event->ImageEnd_transfer_id;
            let whole = state.incoming matches Some(image) && image.transfer_id == transfer_id
                && image.bytes.len() == image.total_bytes && finished(
                image,
                state.max_image_bytes,
            ) is Ok;
            if whole {
                out matches Received::Compare(ClipboardItem::Image(image)) && image.is_of(
                    finished(state.incoming->Some_0, state.max_image_bytes)->Ok_0.0,
                    finished(state.incoming->Some_0, state.max_image_bytes)->Ok_0.1,
                    finished(state.incoming->Some_0, state.max_image_bytes)->Ok_0.2,
                )
            } else {
                out matches Received::Reply(
                    Some(Frame::Clipboard(ClipboardEvent::ImageCancel { transfer_id: told, .. })),
                ) && told == transfer_id
            }
        }),
{
}

/// A cancellation of the image that goes out ends it; one of the image that
/// comes in drops that. Neither is answered.
pub proof fn law_cancelled_image_ends(
    state: SyncState,
    transfer_id: u64,
    reason: ClipboardCancelReason,
    now: Instant,
    after: SyncState,
    out: Received,
)
    requires
        receives(
            state,
            ClipboardEvent::ImageCancel { transfer_id, reason },
            now,
            after,
            out,
        ),
    ensures
        ({
            let going = state.outgoing matches Some(image) && image.transfer_id == transfer_id;
            let coming = state.incoming matches Some(image) && image.transfer_id == transfer_id;
            &&& out is Cancelled <==> going
            &&& going ==> after.outgoing is None && after.outgoing_image_id is None
                && after.incoming == state.incoming
            &&& !going ==> after.outgoing == state.outgoing && out == Received::Reply(None)
            &&& !going && state.images && coming ==> after.incoming is None
            &&& !going && !coming ==> after == state
        }),
{
}

/// An image that takes too long is given up, in either direction, and the other
/// side is told by its number: one that goes out when its time is over, one that
/// comes in when it has made no progress for over ten seconds. The other
/// direction goes on.
pub proof fn law_slow_images_are_given_up(state: SyncState, now: Instant)
    requires
        state.incoming matches Some(image) ==> image.last_progress.nanos <= now.nanos,
    ensures
        ({
            let (after, told) = state.timing_out();
            &&& after.outgoing is None && after.outgoing_image_id is None
            &&& after.incoming == state.incoming
            &&& after.tracker == state.tracker
            &&& state.outgoing is None ==> told is None
            &&& state.outgoing matches Some(image) ==> told == Some(
                Frame::Clipboard(
                    ClipboardEvent::ImageCancel {
                        transfer_id: image.transfer_id,
                        reason: ClipboardCancelReason::TimedOut,
                    },
                ),
            )
        }),
        ({
            let (after, told) = state.expiring(now);
            let stalled = state.incoming matches Some(image) && now.nanos
                - image.last_progress.nanos > 10_000_000_000;
            &&& stalled ==> after.incoming is None && told == Some(
                Frame::Clipboard(
                    ClipboardEvent::ImageCancel {
                        transfer_id: state.incoming->Some_0.transfer_id,
                        reason: ClipboardCancelReason::TimedOut,
                    },
                ),
            )
            &&& !stalled ==> after == state && told is None
            &&& after.outgoing == state.outgoing
            &&& after.tracker == state.tracker
        }),
{
}

} // verus!
