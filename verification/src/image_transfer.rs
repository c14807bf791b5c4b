//! Images over the session, in pieces.

use crate::bytes::{bytes_eq, copy_range, push_all};
use crate::clipboard::{
    decoding, dimensions_error, rgba_refusal, validate_dimensions, CanonicalImage, ClipboardError,
    Refusal, IMAGE_CHUNK_BYTES, IMAGE_TRANSFER_TIMEOUT_MILLIS,
};
use crate::clock::{millis, Instant};
use crate::protocol::{ClipboardCancelReason, ClipboardEvent};
use vstd::prelude::*;

verus! {

/// How far an image that goes out has come.
#[derive(Clone, Copy, Debug, PartialEq, Eq, Structural)]
pub enum OutgoingStage {
    Start,
    Chunks,
    End,
    Done,
}

/// An image that goes out.
#[derive(Clone, Debug)]
pub struct OutgoingImageTransfer {
    transfer_id: u64,
    sequence: u64,
    image: CanonicalImage,
    offset: usize,
    stage: OutgoingStage,
}

/// An image that comes in.
#[derive(Debug)]
pub struct IncomingImageTransfer {
    active: Option<IncomingState>,
}

#[derive(Debug)]
struct IncomingState {
    transfer_id: u64,
    width: u32,
    height: u32,
    total_bytes: usize,
    content_sha256: [u8; 32],
    bytes: Vec<u8>,
    last_progress: Instant,
}

/// An event of an image transfer.
pub ghost enum TransferEvent {
    Start {
        transfer_id: u64,
        sequence: u64,
        width: u32,
        height: u32,
        total_bytes: u32,
        digest: Seq<u8>,
    },
    Chunk { transfer_id: u64, offset: u32, bytes: Seq<u8> },
    End { transfer_id: u64 },
    Cancel { transfer_id: u64 },
    Other,
}

/// The event of an image transfer that a clipboard event is.
pub open spec fn transfer_event(event: ClipboardEvent) -> TransferEvent {
    match event {
        ClipboardEvent::ImageStart {
            transfer_id,
            sequence,
            width,
            height,
            total_bytes,
            content_sha256,
        } => TransferEvent::Start {
            transfer_id,
            sequence,
            width,
            height,
            total_bytes,
            digest: content_sha256@,
        },
        ClipboardEvent::ImageChunk { transfer_id, offset, bytes } => TransferEvent::Chunk {
            transfer_id,
            offset,
            bytes: bytes@,
        },
        ClipboardEvent::ImageEnd { transfer_id } => TransferEvent::End { transfer_id },
        ClipboardEvent::ImageCancel { transfer_id, .. } => TransferEvent::Cancel { transfer_id },
        _ => TransferEvent::Other,
    }
}

/// What an image that goes out holds, and how far it has come.
pub ghost struct Outgoing {
    pub transfer_id: u64,
    pub sequence: u64,
    pub width: u32,
    pub height: u32,
    pub png: Seq<u8>,
    pub digest: Seq<u8>,
    pub offset: int,
    pub stage: OutgoingStage,
}

impl Outgoing {
    /// Where the next piece ends.
    pub open spec fn piece_end(self) -> int {
        if self.offset + IMAGE_CHUNK_BYTES <= self.png.len() {
            self.offset + IMAGE_CHUNK_BYTES
        } else {
            self.png.len() as int
        }
    }

    /// The next event, and what is left: a start, the pieces one behind the
    /// other, an end, and nothing more.
    pub open spec fn next(self) -> (Option<TransferEvent>, Outgoing) {
        match self.stage {
            OutgoingStage::Start => (
                Some(
                    TransferEvent::Start {
                        transfer_id: self.transfer_id,
                        sequence: self.sequence,
                        width: self.width,
                        height: self.height,
                        total_bytes: self.png.len() as u32,
                        digest: self.digest,
                    },
                ),
                Outgoing { stage: OutgoingStage::Chunks, ..self },
            ),
            OutgoingStage::Chunks => if self.offset < self.png.len() {
                (
                    Some(
                        TransferEvent::Chunk {
                            transfer_id: self.transfer_id,
                            offset: self.offset as u32,
                            bytes: self.png.subrange(self.offset, self.piece_end()),
                        },
                    ),
                    Outgoing { offset: self.piece_end(), ..self },
                )
            } else {
                self.ending()
            },
            OutgoingStage::End => self.ending(),
            OutgoingStage::Done => (None, self),
        }
    }

    /// Whether asking for the next event gives one, or none, and leaves `after`.
    pub open spec fn sends(self, event: Option<ClipboardEvent>, after: Outgoing) -> bool {
        &&& after == self.next().1
        &&& match event {
            Some(event) => self.next().0 == Some(transfer_event(event)),
            None => self.next().0 is None,
        }
    }

    /// The end.
    pub open spec fn ending(self) -> (Option<TransferEvent>, Outgoing) {
        (
            Some(TransferEvent::End { transfer_id: self.transfer_id }),
            Outgoing { stage: OutgoingStage::Done, ..self },
        )
    }
}

impl View for OutgoingImageTransfer {
    type V = Outgoing;

    closed spec fn view(&self) -> Outgoing {
        Outgoing {
            transfer_id: self.transfer_id,
            sequence: self.sequence,
            width: self.image.width,
            height: self.image.height,
            png: self.image.png@,
            digest: self.image.content_sha256@,
            offset: self.offset as int,
            stage: self.stage,
        }
    }
}

impl OutgoingImageTransfer {
    /// What has gone is no more than there is.
    pub closed spec fn wf(self) -> bool {
        self.offset <= self.image.png@.len()
    }

    /// An image that is about to go out.
    pub fn new(transfer_id: u64, sequence: u64, image: CanonicalImage) -> (transfer: Self)
        ensures
            transfer.wf(),
            transfer@ == (Outgoing {
                transfer_id,
                sequence,
                width: image.width,
                height: image.height,
                png: image.png@,
                digest: image.content_sha256@,
                offset: 0,
                stage: OutgoingStage::Start,
            }),
    {
        OutgoingImageTransfer {
            transfer_id,
            sequence,
            image,
            offset: 0,
            stage: OutgoingStage::Start,
        }
    }

    /// The number of the transfer.
    pub fn transfer_id(&self) -> (id: u64)
        ensures
            id == self@.transfer_id,
    {
        self.transfer_id
    }

    /// Whether nothing more is to go.
    pub fn is_done(&self) -> (done: bool)
        ensures
            done == (self@.stage is Done),
    {
        match self.stage {
            OutgoingStage::Done => true,
            _ => false,
        }
    }

    /// The event that gives the transfer up.
    pub fn cancel_event(&self, reason: ClipboardCancelReason) -> (event: ClipboardEvent)
        ensures
            event == (ClipboardEvent::ImageCancel { transfer_id: self@.transfer_id, reason }),
    {
        ClipboardEvent::ImageCancel { transfer_id: self.transfer_id, reason }
    }

    /// The next event to send, if there is one.
    pub fn next_event(&mut self) -> (event: Option<ClipboardEvent>)
        requires
            old(self).wf(),
        ensures
            final(self).wf(),
            old(self)@.sends(event, final(self)@),
    {
        match self.stage {
            OutgoingStage::Start => {
                self.stage = OutgoingStage::Chunks;
                Some(
                    ClipboardEvent::ImageStart {
                        transfer_id: self.transfer_id,
                        sequence: self.sequence,
                        width: self.image.width,
                        height: self.image.height,
                        total_bytes: self.image.png.len() as u32,
                        content_sha256: self.image.content_sha256,
                    },
                )
            },
            OutgoingStage::Chunks => {
                if self.offset >= self.image.png.len() {
                    self.stage = OutgoingStage::Done;
                    return Some(ClipboardEvent::ImageEnd { transfer_id: self.transfer_id });
                }
                let rest: usize = self.image.png.len() - self.offset;
                let end: usize = if rest > IMAGE_CHUNK_BYTES {
                    self.offset + IMAGE_CHUNK_BYTES
                } else {
                    self.image.png.len()
                };
                let bytes: Vec<u8> = copy_range(self.image.png.as_slice(), self.offset, end);
                let event = ClipboardEvent::ImageChunk {
                    transfer_id: self.transfer_id,
                    offset: self.offset as u32,
                    bytes,
                };
                self.offset = end;
                Some(event)
            },
            OutgoingStage::End => {
                self.stage = OutgoingStage::Done;
                Some(ClipboardEvent::ImageEnd { transfer_id: self.transfer_id })
            },
            OutgoingStage::Done => None,
        }
    }
}

/// An image that comes in, as far as it has.
pub ghost struct Incoming {
    pub transfer_id: u64,
    pub width: u32,
    pub height: u32,
    pub total_bytes: nat,
    pub digest: Seq<u8>,
    pub bytes: Seq<u8>,
    pub last_progress: Instant,
}

/// What an event of an image transfer comes to.
pub ghost enum Arrival {
    /// More has to come.
    Pending,
    /// All of it is there.
    Complete(Incoming),
    Refused(Refusal),
}

/// Why a start is refused: dimensions that no image has, or a size that is
/// none or too large.
pub open spec fn start_refusal(
    width: u32,
    height: u32,
    total_bytes: u32,
    max_bytes: nat,
) -> Option<Refusal> {
    let rgba_len = 4 * (width * height);
    if rgba_len > usize::MAX {
        Some(Refusal::InvalidDimensions)
    } else if dimensions_error(width, height, rgba_len as nat) is Some {
        dimensions_error(width, height, rgba_len as nat)
    } else if total_bytes == 0 || total_bytes > max_bytes {
        Some(Refusal::EncodedTooLarge { actual: total_bytes as nat, max: max_bytes })
    } else {
        None
    }
}

/// What an event does to an image that comes in. A piece has to follow the
/// one before it, within the size that the start named; an end has to come
/// when all of it is there, and clears the way for another image.
pub open spec fn arrival(
    active: Option<Incoming>,
    event: TransferEvent,
    max_bytes: nat,
    now: Instant,
) -> (Option<Incoming>, Arrival) {
    match event {
        TransferEvent::Start { transfer_id, width, height, total_bytes, digest, .. } => {
            match start_refusal(width, height, total_bytes, max_bytes) {
                Some(refusal) => (active, Arrival::Refused(refusal)),
                None => (
                    Some(
                        Incoming {
                            transfer_id,
                            width,
                            height,
                            total_bytes: total_bytes as nat,
                            digest,
                            bytes: Seq::empty(),
                            last_progress: now,
                        },
                    ),
                    Arrival::Pending,
                ),
            }
        },
        TransferEvent::Chunk { transfer_id, offset, bytes } => match active {
            None => (active, Arrival::Refused(Refusal::InvalidTransfer)),
            Some(image) => if image.transfer_id != transfer_id {
                (active, Arrival::Refused(Refusal::InvalidTransfer))
            } else if offset != image.bytes.len() as u32 {
                (
                    active,
                    Arrival::Refused(
                        Refusal::OffsetMismatch {
                            expected: image.bytes.len() as u32,
                            actual: offset,
                        },
                    ),
                )
            } else if bytes.len() == 0 || bytes.len() > IMAGE_CHUNK_BYTES || image.bytes.len()
                + bytes.len() > image.total_bytes {
                (active, Arrival::Refused(Refusal::InvalidTransfer))
            } else {
                (
                    Some(Incoming { bytes: image.bytes + bytes, last_progress: now, ..image }),
                    Arrival::Pending,
                )
            },
        },
        TransferEvent::End { transfer_id } => match active {
            None => (None, Arrival::Refused(Refusal::InvalidTransfer)),
            Some(image) => if image.transfer_id != transfer_id || image.bytes.len()
                != image.total_bytes {
                (None, Arrival::Refused(Refusal::InvalidTransfer))
            } else {
                (None, Arrival::Complete(image))
            },
        },
        TransferEvent::Cancel { transfer_id } => (
            if active matches Some(image) && image.transfer_id == transfer_id {
                None
            } else {
                active
            },
            Arrival::Pending,
        ),
        TransferEvent::Other => (active, Arrival::Refused(Refusal::InvalidTransfer)),
    }
}

/// What becomes of an image that is all there: it is decoded, made canonical,
/// and held against the dimensions and the digest that its start named.
pub open spec fn finished(image: Incoming, max_bytes: nat) -> Result<(u32, u32, Seq<u8>), Refusal> {
    match decoding(image.bytes, "image/png"@, max_bytes) {
        Err(refusal) => Err(refusal),
        Ok((width, height, rgba)) => match rgba_refusal(width, height, rgba, max_bytes) {
            Some(refusal) => Err(refusal),
            None => if width != image.width || height != image.height
                || crate::clipboard::image_digest(width, height, rgba) != image.digest {
                Err(Refusal::HashMismatch)
            } else {
                Ok((width, height, rgba))
            },
        },
    }
}

/// What taking an event in gives: nothing while more has to come, the image when
/// all of it is there, or why it was refused.
pub open spec fn handles(
    before: Option<Incoming>,
    event: ClipboardEvent,
    max_bytes: nat,
    now: Instant,
    after: Option<Incoming>,
    out: Result<Option<CanonicalImage>, ClipboardError>,
) -> bool {
    let (next, came) = arrival(before, transfer_event(event), max_bytes, now);
    &&& after == next
    &&& match came {
        Arrival::Pending => out matches Ok(image) && image is None,
        Arrival::Complete(image) => match finished(image, max_bytes) {
            Ok((width, height, rgba)) => out matches Ok(Some(done)) && done.is_of(
                width,
                height,
                rgba,
            ),
            Err(refusal) => out matches Err(error) && error.refusal() == refusal,
        },
        Arrival::Refused(refusal) => out matches Err(error) && error.refusal() == refusal,
    }
}

impl IncomingState {
    spec fn model(self) -> Incoming {
        Incoming {
            transfer_id: self.transfer_id,
            width: self.width,
            height: self.height,
            total_bytes: self.total_bytes as nat,
            digest: self.content_sha256@,
            bytes: self.bytes@,
            last_progress: self.last_progress,
        }
    }
}

impl View for IncomingImageTransfer {
    type V = Option<Incoming>;

    closed spec fn view(&self) -> Option<Incoming> {
        match self.active {
            Some(state) => Some(state.model()),
            None => None,
        }
    }
}

impl Default for IncomingImageTransfer {
    fn default() -> (transfer: Self)
        ensures
            transfer@ is None,
    {
        IncomingImageTransfer { active: None }
    }
}

impl IncomingImageTransfer {
    /// Whether an image is on its way.
    pub fn is_active(&self) -> (active: bool)
        ensures
            active == (self@ is Some),
    {
        self.active.is_some()
    }

    fn start(
        &mut self,
        state: IncomingState,
        max_bytes: usize,
    ) -> (out: Result<(), ClipboardError>)
        requires
            state.total_bytes <= u32::MAX,
            state.bytes@.len() == 0,
        ensures
            match start_refusal(
                state.width,
                state.height,
                state.total_bytes as u32,
                max_bytes as nat,
            ) {
                Some(refusal) => final(self)@ == old(self)@ && (out matches Err(error)
                    && error.refusal() == refusal),
                None => final(self)@ == Some(state.model()) && out is Ok,
            },
    {
        let width: u32 = state.width;
        let height: u32 = state.height;
        assert(width * height <= u32::MAX * u32::MAX) by (nonlinear_arith)
            requires
                width <= u32::MAX,
                height <= u32::MAX,
        ;
        let pixels: u64 = width as u64 * height as u64;
        if pixels > (usize::MAX as u64) / 4 {
            return Err(ClipboardError::InvalidDimensions);
        }
        let rgba_len: usize = (pixels * 4) as usize;
        match validate_dimensions(width, height, rgba_len) {
            Ok(_) => {},
            Err(error) => {
                return Err(error);
            },
        }
        if state.total_bytes == 0 || state.total_bytes > max_bytes {
            return Err(
                ClipboardError::EncodedTooLarge { actual: state.total_bytes, max: max_bytes },
            );
        }
        self.active = Some(state);
        Ok(())
    }

    fn receive(&mut self, transfer_id: u64, offset: u32, bytes: &[u8], now: Instant) -> (out:
        Result<(), ClipboardError>)
        ensures
            ({
                let (next, came) = arrival(
                    old(self)@,
                    TransferEvent::Chunk { transfer_id, offset, bytes: bytes@ },
                    0,
                    now,
                );
                &&& final(self)@ == next
                &&& match came {
                    Arrival::Refused(refusal) => out matches Err(error) && error.refusal()
                        == refusal,
                    _ => out is Ok,
                }
            }),
    {
        let mut state: IncomingState = match self.active.take() {
            Some(state) => state,
            None => {
                return Err(ClipboardError::InvalidTransfer);
            },
        };
        if state.transfer_id != transfer_id {
            self.active = Some(state);
            return Err(ClipboardError::InvalidTransfer);
        }
        let expected: u32 = state.bytes.len() as u32;
        if offset != expected {
            self.active = Some(state);
            return Err(ClipboardError::OffsetMismatch { expected, actual: offset });
        }
        if bytes.len() == 0 || bytes.len() > IMAGE_CHUNK_BYTES || state.bytes.len()
            > state.total_bytes || bytes.len() > state.total_bytes - state.bytes.len() {
            self.active = Some(state);
            return Err(ClipboardError::InvalidTransfer);
        }
        push_all(&mut state.bytes, bytes);
        state.last_progress = now;
        self.active = Some(state);
        Ok(())
    }

    fn finish(&mut self, transfer_id: u64, max_bytes: usize) -> (out: Result<
        CanonicalImage,
        ClipboardError,
    >)
        ensures
            ({
                let (next, came) = arrival(
                    old(self)@,
                    TransferEvent::End { transfer_id },
                    max_bytes as nat,
                    Instant { nanos: 0 },
                );
                &&& final(self)@ == next
                &&& match came {
                    Arrival::Complete(image) => match finished(image, max_bytes as nat) {
                        Ok((width, height, rgba)) => out matches Ok(done) && done.is_of(
                            width,
                            height,
                            rgba,
                        ),
                        Err(refusal) => out matches Err(error) && error.refusal() == refusal,
                    },
                    Arrival::Refused(refusal) => out matches Err(error) && error.refusal()
                        == refusal,
                    Arrival::Pending => false,
                }
            }),
    {
        let state: IncomingState = match self.active.take() {
            Some(state) => state,
            None => {
                return Err(ClipboardError::InvalidTransfer);
            },
        };
        if state.transfer_id != transfer_id || state.bytes.len() != state.total_bytes {
            return Err(ClipboardError::InvalidTransfer);
        }
        let image: CanonicalImage = match CanonicalImage::from_encoded(
            state.bytes.as_slice(),
            "image/png",
            max_bytes,
        ) {
            Ok(image) => image,
            Err(error) => {
                return Err(error);
            },
        };
        if image.width != state.width || image.height != state.height || !bytes_eq(
            image.content_sha256.as_slice(),
            state.content_sha256.as_slice(),
        ) {
            return Err(ClipboardError::HashMismatch);
        }
        Ok(image)
    }

    /// Takes an event in; gives the image when all of it is there.
    pub fn handle(&mut self, event: ClipboardEvent, max_bytes: usize, now: Instant) -> (out: Result<
        Option<CanonicalImage>,
        ClipboardError,
    >)
        ensures
            handles(old(self)@, event, max_bytes as nat, now, final(self)@, out),
    {
        match event {
            ClipboardEvent::ImageStart {
                transfer_id,
                width,
                height,
                total_bytes,
                content_sha256,
                ..
            } => {
                let state = IncomingState {
                    transfer_id,
                    width,
                    height,
                    total_bytes: total_bytes as usize,
                    content_sha256,
                    bytes: Vec::new(),
                    last_progress: now,
                };
                match self.start(state, max_bytes) {
                    Ok(_) => Ok(None),
                    Err(error) => Err(error),
                }
            },
            ClipboardEvent::ImageChunk { transfer_id, offset, bytes } => {
                match self.receive(transfer_id, offset, bytes.as_slice(), now) {
                    Ok(_) => Ok(None),
                    Err(error) => Err(error),
                }
            },
            ClipboardEvent::ImageEnd { transfer_id } => {
                match self.finish(transfer_id, max_bytes) {
                    Ok(image) => Ok(Some(image)),
                    Err(error) => Err(error),
                }
            },
            ClipboardEvent::ImageCancel { transfer_id, .. } => {
                let same: bool = match &self.active {
                    Some(active) => active.transfer_id == transfer_id,
                    None => false,
                };
                if same {
                    self.active = None;
                }
                Ok(None)
            },
            _ => Err(ClipboardError::InvalidTransfer),
        }
    }

    /// An image has made no progress for too long.
    pub open spec fn is_expired(active: Option<Incoming>, now: Instant) -> bool {
        active matches Some(image) && now.since(image.last_progress) > millis(
            IMAGE_TRANSFER_TIMEOUT_MILLIS as int,
        )
    }

    /// Gives an image up that has made no progress for too long, as an error.
    pub fn expire(&mut self, now: Instant) -> (out: Result<(), ClipboardError>)
        ensures
            match out {
                Ok(_) => !Self::is_expired(old(self)@, now) && final(self)@ == old(self)@,
                Err(error) => Self::is_expired(old(self)@, now) && final(self)@ is None
                    && error.refusal() == Refusal::TransferExpired,
            },
    {
        if self.expire_transfer_id(now).is_some() {
            return Err(ClipboardError::TransferExpired);
        }
        Ok(())
    }

    /// Gives an image up that has made no progress for too long; its number.
    pub fn expire_transfer_id(&mut self, now: Instant) -> (id: Option<u64>)
        ensures
            if Self::is_expired(old(self)@, now) {
                id == Some(old(self)@->Some_0.transfer_id) && final(self)@ is None
            } else {
                id is None && final(self)@ == old(self)@
            },
    {
        let mut expired: Option<u64> = None;
        if let Some(active) = &self.active {
            if now.is_more_than_millis_after(active.last_progress, IMAGE_TRANSFER_TIMEOUT_MILLIS) {
                expired = Some(active.transfer_id);
            }
        }
        if expired.is_some() {
            self.active = None;
        }
        expired
    }

    /// Gives up whatever is on its way.
    pub fn clear(&mut self)
        ensures
            final(self)@ is None,
    {
        self.active = None;
    }
}

/// The pieces of an image follow one another without a gap, are never empty
/// and never larger than a piece may be.
pub proof fn law_pieces_are_contiguous(out: Outgoing)
    requires
        out.stage is Chunks,
        0 <= out.offset < out.png.len() <= u32::MAX,
    ensures
        out.next().0 matches Some(TransferEvent::Chunk { transfer_id, offset, bytes })
            && transfer_id == out.transfer_id && offset == out.offset && 0 < bytes.len()
            <= IMAGE_CHUNK_BYTES && out.next().1.offset == out.offset + bytes.len(),
{
}

/// A refusal leaves what was on its way as it was, except that an end that
/// comes at the wrong time gives it up.
pub proof fn law_refused_event_changes_nothing(
    active: Option<Incoming>,
    event: TransferEvent,
    max_bytes: nat,
    now: Instant,
)
    requires
        !(event is End),
        arrival(active, event, max_bytes, now).1 is Refused,
    ensures
        arrival(active, event, max_bytes, now).0 == active,
{
}

/// What has arrived is never more than the start named.
pub proof fn law_never_more_than_announced(
    active: Option<Incoming>,
    event: TransferEvent,
    max_bytes: nat,
    now: Instant,
)
    requires
        active matches Some(image) ==> image.bytes.len() <= image.total_bytes,
    ensures
        arrival(active, event, max_bytes, now).0 matches Some(image) ==> image.bytes.len()
            <= image.total_bytes,
{
}

/// How many pieces so many bytes go over in.
pub open spec fn piece_count(len: nat) -> nat {
    (len + IMAGE_CHUNK_BYTES as nat - 1) as nat / IMAGE_CHUNK_BYTES as nat
}

/// How many bytes have gone with some pieces.
pub open spec fn bytes_in(len: nat, pieces: nat) -> nat {
    if pieces * IMAGE_CHUNK_BYTES <= len {
        pieces * IMAGE_CHUNK_BYTES as nat
    } else {
        len
    }
}

/// A piece of an image.
pub open spec fn piece(png: Seq<u8>, i: nat) -> Seq<u8> {
    png.subrange(bytes_in(png.len(), i) as int, bytes_in(png.len(), i + 1) as int)
}

/// Some first pieces of an image, joined.
pub open spec fn joined(png: Seq<u8>, pieces: nat) -> Seq<u8>
    decreases pieces,
{
    if pieces == 0 {
        Seq::empty()
    } else {
        joined(png, (pieces - 1) as nat) + piece(png, (pieces - 1) as nat)
    }
}

proof fn lemma_bytes_in(len: nat, i: nat)
    ensures
        bytes_in(len, 0) == 0,
        bytes_in(len, piece_count(len)) == len,
        bytes_in(len, i) <= bytes_in(len, i + 1) <= len,
        bytes_in(len, i + 1) <= bytes_in(len, i) + IMAGE_CHUNK_BYTES,
        i < piece_count(len) ==> bytes_in(len, i) == i * IMAGE_CHUNK_BYTES && bytes_in(len, i)
            < bytes_in(len, i + 1),
        i >= piece_count(len) ==> bytes_in(len, i) == len,
{
    let size = IMAGE_CHUNK_BYTES as int;
    let count = piece_count(len) as int;
    assert(count * size >= len && (count - 1) * size < len) by (nonlinear_arith)
        requires
            count == (len + size - 1) / size,
            size == 16384,
    ;
    assert((i + 1) * size == i * size + size) by (nonlinear_arith);
    if i < count {
        assert(i * size <= (count - 1) * size) by (nonlinear_arith)
            requires
                i <= count - 1,
                size == 16384,
        ;
    } else {
        assert(i * size >= count * size) by (nonlinear_arith)
            requires
                i >= count,
                size == 16384,
        ;
    }
}

proof fn lemma_joined(png: Seq<u8>, pieces: nat)
    ensures
        joined(png, pieces) == png.take(bytes_in(png.len(), pieces) as int),
    decreases pieces,
{
    lemma_bytes_in(png.len(), 0);
    if pieces > 0 {
        let before = (pieces - 1) as nat;
        lemma_bytes_in(png.len(), before);
        lemma_joined(png, before);
        assert(joined(png, pieces) =~= png.take(bytes_in(png.len(), pieces) as int));
    } else {
        assert(joined(png, 0) =~= png.take(0));
    }
}

/// The pieces of an image make it up: none is empty or larger than a piece may
/// be, and joined they are the image.
pub proof fn law_pieces_make_up_the_image(png: Seq<u8>)
    ensures
        joined(png, piece_count(png.len())) == png,
        forall|i: nat|
            i < piece_count(png.len()) ==> 0 < (#[trigger] piece(png, i)).len()
                <= IMAGE_CHUNK_BYTES,
{
    lemma_bytes_in(png.len(), 0);
    lemma_joined(png, piece_count(png.len()));
    assert(png.take(png.len() as int) =~= png);
    assert forall|i: nat| i < piece_count(png.len()) implies 0 < (#[trigger] piece(png, i)).len()
        <= IMAGE_CHUNK_BYTES by {
        lemma_bytes_in(png.len(), i);
    }
}

impl Outgoing {
    /// The event with a number: a start, then the pieces, then an end.
    pub open spec fn event_at(self, i: nat) -> Option<TransferEvent> {
        let pieces = piece_count(self.png.len());
        if i == 0 {
            Some(
                TransferEvent::Start {
                    transfer_id: self.transfer_id,
                    sequence: self.sequence,
                    width: self.width,
                    height: self.height,
                    total_bytes: self.png.len() as u32,
                    digest: self.digest,
                },
            )
        } else if i <= pieces {
            Some(
                TransferEvent::Chunk {
                    transfer_id: self.transfer_id,
                    offset: ((i - 1) * IMAGE_CHUNK_BYTES) as u32,
                    bytes: piece(self.png, (i - 1) as nat),
                },
            )
        } else if i == pieces + 1 {
            Some(TransferEvent::End { transfer_id: self.transfer_id })
        } else {
            None
        }
    }

    /// How far the image has come after some events.
    pub open spec fn after(self, events: nat) -> Outgoing {
        let pieces = piece_count(self.png.len());
        if events == 0 {
            self
        } else if events <= pieces + 1 {
            Outgoing {
                stage: OutgoingStage::Chunks,
                offset: bytes_in(self.png.len(), (events - 1) as nat) as int,
                ..self
            }
        } else {
            Outgoing { stage: OutgoingStage::Done, offset: self.png.len() as int, ..self }
        }
    }
}

/// The next event was asked for again and again: each time from what was left
/// the time before.
pub open spec fn is_sending(states: Seq<Outgoing>, events: Seq<Option<ClipboardEvent>>) -> bool {
    &&& states.len() == events.len() + 1
    &&& states[0].stage is Start
    &&& states[0].offset == 0
    &&& forall|i: int|
        0 <= i < events.len() ==> states[i].sends(#[trigger] events[i], states[i + 1])
}

proof fn lemma_sending_so_far(
    states: Seq<Outgoing>,
    events: Seq<Option<ClipboardEvent>>,
    upto: nat,
)
    requires
        is_sending(states, events),
        upto <= events.len(),
    ensures
        states[upto as int] == states[0].after(upto),
        upto < events.len() ==> (match states[0].event_at(upto) {
            Some(event) => events[upto as int] matches Some(sent) && transfer_event(sent) == event,
            None => events[upto as int] is None,
        }),
    decreases upto,
{
    let out = states[0];
    let len = out.png.len();
    if upto > 0 {
        let last = (upto - 1) as nat;
        lemma_sending_so_far(states, events, last);
        lemma_bytes_in(len, 0);
        assert(states[last as int].sends(events[last as int], states[upto as int]));
        if 0 < last {
            lemma_bytes_in(len, (last - 1) as nat);
        }
    }
    lemma_bytes_in(len, 0);
    if upto > 0 {
        lemma_bytes_in(len, (upto - 1) as nat);
    }
    if upto < events.len() {
        assert(states[upto as int].sends(events[upto as int], states[upto as int + 1]));
    }
}

/// An image goes out whole and in order: however often the next event is asked
/// for, there are one start, then the pieces one behind the other, then one end,
/// and then nothing more.
pub proof fn law_image_is_sent_in_order(
    states: Seq<Outgoing>,
    events: Seq<Option<ClipboardEvent>>,
)
    requires
        is_sending(states, events),
    ensures
        forall|i: int|
            0 <= i < events.len() ==> match states[0].event_at(i as nat) {
                Some(event) => (#[trigger] events[i]) matches Some(sent) && transfer_event(sent)
                    == event,
                None => events[i] is None,
            },
{
    assert forall|i: int| 0 <= i < events.len() implies match states[0].event_at(i as nat) {
        Some(event) => (#[trigger] events[i]) matches Some(sent) && transfer_event(sent) == event,
        None => events[i] is None,
    } by {
        lemma_sending_so_far(states, events, i as nat);
    }
}

/// Each of some events is taken in, in turn.
pub open spec fn is_receiving(
    states: Seq<Option<Incoming>>,
    events: Seq<Option<ClipboardEvent>>,
    max_bytes: nat,
    clock: Seq<Instant>,
    outs: Seq<Result<Option<CanonicalImage>, ClipboardError>>,
) -> bool {
    &&& states.len() == events.len() + 1
    &&& outs.len() == events.len()
    &&& clock.len() == events.len()
    &&& forall|i: int|
        0 <= i < events.len() ==> ((#[trigger] events[i]) matches Some(event) && handles(
            states[i],
            event,
            max_bytes,
            clock[i],
            states[i + 1],
            outs[i],
        ))
}

proof fn lemma_receiving_so_far(
    sent: Seq<Outgoing>,
    events: Seq<Option<ClipboardEvent>>,
    states: Seq<Option<Incoming>>,
    max_bytes: nat,
    clock: Seq<Instant>,
    outs: Seq<Result<Option<CanonicalImage>, ClipboardError>>,
    upto: nat,
)
    requires
        is_sending(sent, events),
        is_receiving(states, events, max_bytes, clock, outs),
        sent[0].png.len() <= u32::MAX,
        start_refusal(sent[0].width, sent[0].height, sent[0].png.len() as u32, max_bytes) is None,
        1 <= upto <= piece_count(sent[0].png.len()) + 1,
        upto <= events.len(),
    ensures
        ({
            let out = sent[0];
            &&& states[upto as int] == Some(
                Incoming {
                    transfer_id: out.transfer_id,
                    width: out.width,
                    height: out.height,
                    total_bytes: out.png.len(),
                    digest: out.digest,
                    bytes: out.png.take(bytes_in(out.png.len(), (upto - 1) as nat) as int),
                    last_progress: clock[upto - 1],
                },
            )
            &&& outs[upto - 1] matches Ok(image) && image is None
        }),
    decreases upto,
{
    let out = sent[0];
    let len = out.png.len();
    let last = upto - 1;
    lemma_sending_so_far(sent, events, last as nat);
    lemma_bytes_in(len, 0);
    assert(events[last] is Some);
    if last == 0 {
        assert(out.png.take(0) =~= Seq::<u8>::empty());
    } else {
        lemma_receiving_so_far(sent, events, states, max_bytes, clock, outs, last as nat);
        let before = (last - 1) as nat;
        lemma_bytes_in(len, before);
        assert(out.png.take(bytes_in(len, before) as int) + piece(out.png, before)
            =~= out.png.take(bytes_in(len, (before + 1) as nat) as int));
    }
}

/// A canonical image that both sides have room for survives its way: when every
/// event that the sender gives until it gives no more is taken in, each is
/// accepted, none but the last gives an image, and the last one gives the image
/// that was sent.
pub proof fn law_sent_image_is_received(
    image: CanonicalImage,
    sent: Seq<Outgoing>,
    events: Seq<Option<ClipboardEvent>>,
    states: Seq<Option<Incoming>>,
    max_bytes: nat,
    clock: Seq<Instant>,
    outs: Seq<Result<Option<CanonicalImage>, ClipboardError>>,
)
    requires
        image.is_of(image.width, image.height, image.rgba@),
        rgba_refusal(image.width, image.height, image.rgba@, max_bytes) is None,
        image.png@.len() <= u32::MAX,
        is_sending(sent, events),
        sent[0].width == image.width,
        sent[0].height == image.height,
        sent[0].png == image.png@,
        sent[0].digest == image.content_sha256@,
        sent.last().next().0 is None,
        is_receiving(states, events, max_bytes, clock, outs),
    ensures
        events.len() == piece_count(image.png@.len()) + 2,
        forall|i: int|
            0 <= i < outs.len() - 1 ==> ((#[trigger] outs[i]) matches Ok(early) && early is None),
        outs.last() matches Ok(Some(received)) && received.width == image.width
            && received.height == image.height && received.rgba@ == image.rgba@ && received.png@
            == image.png@ && received.content_sha256@ == image.content_sha256@,
        states.last() is None,
{
    let out = sent[0];
    let len = out.png.len();
    let pieces = piece_count(len);
    lemma_bytes_in(len, 0);
    lemma_sending_so_far(sent, events, events.len());
    if events.len() < pieces + 2 {
        assert(sent.last() == out.after(events.len()));
        if events.len() > 0 {
            lemma_bytes_in(len, (events.len() - 1) as nat);
        }
        assert(false);
    }
    if events.len() > pieces + 2 {
        lemma_sending_so_far(sent, events, (pieces + 2) as nat);
        assert(events[pieces as int + 2] is Some);
        assert(false);
    }
    assert forall|i: int| 0 <= i < outs.len() - 1 implies ((#[trigger] outs[i]) matches Ok(early)
        && early is None) by {
        lemma_receiving_so_far(sent, events, states, max_bytes, clock, outs, (i + 1) as nat);
    }
    let last = pieces + 1;
    lemma_receiving_so_far(sent, events, states, max_bytes, clock, outs, last as nat);
    lemma_sending_so_far(sent, events, last as nat);
    assert(out.png.take(len as int) =~= out.png);
    assert(events[last as int] is Some);
}

/// An image whose start fits is taken in from its first byte on, in place of
/// one that was on its way.
pub proof fn law_fitting_start_is_taken_in(
    active: Option<Incoming>,
    transfer_id: u64,
    sequence: u64,
    width: u32,
    height: u32,
    total_bytes: u32,
    digest: Seq<u8>,
    max_bytes: nat,
    now: Instant,
)
    requires
        0 < width,
        0 < height,
        width * height <= 16_777_216,
        0 < total_bytes <= max_bytes,
    ensures
        ({
            let (next, came) = arrival(
                active,
                TransferEvent::Start { transfer_id, sequence, width, height, total_bytes, digest },
                max_bytes,
                now,
            );
            &&& came == Arrival::Pending
            &&& next == Some(
                Incoming {
                    transfer_id,
                    width,
                    height,
                    total_bytes: total_bytes as nat,
                    digest,
                    bytes: Seq::empty(),
                    last_progress: now,
                },
            )
        }),
{
    assert(4 * (width * height) <= usize::MAX);
}

/// A piece that goes on where the image stands is put behind what has come, and
/// counts as progress, however small it is.
pub proof fn law_next_piece_is_taken_in(
    image: Incoming,
    bytes: Seq<u8>,
    max_bytes: nat,
    now: Instant,
)
    requires
        0 < bytes.len() <= 16_384,
        image.bytes.len() + bytes.len() <= image.total_bytes <= u32::MAX,
    ensures
        ({
            let (next, came) = arrival(
                Some(image),
                TransferEvent::Chunk {
                    transfer_id: image.transfer_id,
                    offset: image.bytes.len() as u32,
                    bytes,
                },
                max_bytes,
                now,
            );
            &&& came == Arrival::Pending
            &&& next == Some(Incoming { bytes: image.bytes + bytes, last_progress: now, ..image })
        }),
{
}

/// An image of which all has come is complete at its end, and nothing is on its
/// way any more; what does not go on where the image stands is refused.
pub proof fn law_image_is_complete_at_its_end(
    image: Incoming,
    transfer_id: u64,
    offset: u32,
    bytes: Seq<u8>,
    max_bytes: nat,
    now: Instant,
)
    requires
        image.bytes.len() <= u32::MAX,
    ensures
        arrival(
            Some(image),
            TransferEvent::End { transfer_id },
            max_bytes,
            now,
        ).0 is None,
        arrival(Some(image), TransferEvent::End { transfer_id }, max_bytes, now).1
            == Arrival::Complete(image) <==> transfer_id == image.transfer_id && image.bytes.len()
            == image.total_bytes,
        transfer_id != image.transfer_id || offset != image.bytes.len() ==> arrival(
            Some(image),
            TransferEvent::Chunk { transfer_id, offset, bytes },
            max_bytes,
            now,
        ).1 is Refused,
{
}

/// An image that has made no progress for over ten seconds is given up, and
/// none before.
pub proof fn law_stalled_image_runs_out(image: Incoming, now: Instant)
    requires
        image.last_progress.nanos <= now.nanos,
    ensures
        IncomingImageTransfer::is_expired(Some(image), now) <==> now.nanos
            - image.last_progress.nanos > 10_000_000_000,
        !IncomingImageTransfer::is_expired(None, now),
{
}

/// A whole image is accepted exactly where it decodes, to the dimensions and
/// the digest that its start named, and can be kept here.
pub proof fn law_image_is_held_against_its_start(
    image: Incoming,
    max_bytes: nat,
    width: u32,
    height: u32,
    rgba: Seq<u8>,
)
    ensures
        finished(image, max_bytes) == Ok::<(u32, u32, Seq<u8>), Refusal>((width, height, rgba))
            <==> {
            &&& decoding(image.bytes, "image/png"@, max_bytes) == Ok::<
                (u32, u32, Seq<u8>),
                Refusal,
            >((width, height, rgba))
            &&& rgba_refusal(width, height, rgba, max_bytes) is None
            &&& width == image.width
            &&& height == image.height
            &&& crate::clipboard::image_digest(width, height, rgba) == image.digest
        },
{
}

} // verus!
