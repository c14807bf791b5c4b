//! Clipboards as they go over: what was seen, and images in pieces.

use crate::bytes::{be_bytes, bytes_eq, copy_all, push_all, push_be};
use crate::hash::{sha256, sha256_digest};
use crate::jpeg::{copes_with, is_coped_with};
use crate::text::str_eq;
use image::{DynamicImage, ImageFormat, ImageReader, Limits, RgbaImage};
use std::io::Cursor;
use vstd::prelude::*;
use vstd::utf8::encode_utf8;

verus! {

broadcast use vstd::string::group_string_axioms;

/// The most pixels that an image may have.
pub const MAX_IMAGE_PIXELS: u64 = 16_777_216;

/// The largest piece of an image.
pub const IMAGE_CHUNK_BYTES: usize = 16_384;

/// How long an image may make no progress, in milliseconds.
pub const IMAGE_TRANSFER_TIMEOUT_MILLIS: u64 = 10_000;

/// How many other frames may go before a piece of an image has its turn.
pub const MAX_HIGH_PRIORITY_FRAMES_BEFORE_IMAGE_CHUNK: u8 = 64;

/// Whose turn it is: other frames go first, but not forever.
#[derive(Clone, Copy, Debug, PartialEq, Eq, Structural)]
pub struct ImageTransferSchedule {
    high_priority_frames_since_chunk: u8,
}

/// How many frames went before a piece of an image, with one more.
pub open spec fn frames_after(frames: nat) -> nat {
    if frames < u8::MAX {
        frames + 1
    } else {
        frames
    }
}

/// A piece of an image has waited for so many frames that it goes first.
pub open spec fn is_chunk_due(frames: nat) -> bool {
    frames >= MAX_HIGH_PRIORITY_FRAMES_BEFORE_IMAGE_CHUNK
}

/// How many frames went before a piece of an image, with some more.
pub open spec fn frames_after_all(frames: nat, more: nat) -> nat
    decreases more,
{
    if more == 0 {
        frames
    } else {
        frames_after(frames_after_all(frames, (more - 1) as nat))
    }
}

impl Default for ImageTransferSchedule {
    fn default() -> (schedule: Self)
        ensures
            schedule.frames() == 0,
    {
        ImageTransferSchedule { high_priority_frames_since_chunk: 0 }
    }
}

impl ImageTransferSchedule {
    /// The frames since the last piece of an image, as far as they are counted.
    pub closed spec fn frames(self) -> nat {
        self.high_priority_frames_since_chunk as nat
    }

    /// Another frame has gone.
    pub fn record_high_priority_frame(&mut self)
        ensures
            final(self).frames() == frames_after(old(self).frames()),
    {
        self.high_priority_frames_since_chunk =
            self.high_priority_frames_since_chunk.saturating_add(1);
    }

    /// A piece of an image has gone.
    pub fn record_image_chunk(&mut self)
        ensures
            final(self).frames() == 0,
    {
        self.high_priority_frames_since_chunk = 0;
    }

    /// Whether a piece of an image has its turn.
    pub fn image_chunk_is_due(&self) -> (due: bool)
        ensures
            due == is_chunk_due(self.frames()),
    {
        self.high_priority_frames_since_chunk >= MAX_HIGH_PRIORITY_FRAMES_BEFORE_IMAGE_CHUNK
    }
}

/// `image::ImageError`: why an image could not be decoded or encoded.
#[verifier::external_type_specification]
#[verifier::external_body]
pub struct ExImageError(image::ImageError);

/// Why an image is not accepted.
#[derive(Debug)]
#[allow(inconsistent_fields)]
pub enum ClipboardError {
    InvalidDimensions,
    TooManyPixels { pixels: u64 },
    InvalidRgbaLength { width: u32, height: u32 },
    EncodedTooLarge { actual: usize, max: usize },
    UnsupportedMime(String),
    /// A JPEG file that the decoder does not cope with.
    UnsupportedJpeg,
    Image(image::ImageError),
    InvalidTransfer,
    OffsetMismatch { expected: u32, actual: u32 },
    HashMismatch,
    TransferExpired,
}

/// What a clipboard holds.
#[derive(Clone, Debug, PartialEq, Eq)]
pub enum ClipboardItem {
    Text(String),
    Image(CanonicalImage),
}

/// What tells the contents of clipboards apart.
#[derive(Clone, Copy, Debug, PartialEq, Eq)]
pub enum ClipboardContentId {
    Text([u8; 32]),
    Image([u8; 32]),
}

impl ClipboardItem {
    /// Whether an id is the item's: a text has the digest of its bytes, an
    /// image the digest that it carries.
    pub open spec fn has_id(self, id: ClipboardContentId) -> bool {
        match self {
            ClipboardItem::Text(text) => id matches ClipboardContentId::Text(digest) && digest@
                == sha256_digest(encode_utf8(text@)),
            ClipboardItem::Image(image) => id == ClipboardContentId::Image(image.content_sha256),
        }
    }

    /// The item's id.
    pub open spec fn content_id(self) -> ClipboardContentId {
        choose|id: ClipboardContentId| self.has_id(id)
    }

    /// What tells the item apart.
    pub fn id(&self) -> (id: ClipboardContentId)
        ensures
            self.has_id(id),
            id == self.content_id(),
    {
        let id: ClipboardContentId = match self {
            ClipboardItem::Text(text) => ClipboardContentId::Text(
                sha256(text.as_str().as_bytes()),
            ),
            ClipboardItem::Image(image) => ClipboardContentId::Image(image.content_sha256),
        };
        proof {
            assert(self.has_id(id));
            law_item_has_one_id(*self, id, self.content_id());
        }
        id
    }
}

/// An item has one id.
pub proof fn law_item_has_one_id(item: ClipboardItem, a: ClipboardContentId, b: ClipboardContentId)
    requires
        item.has_id(a),
        item.has_id(b),
    ensures
        a == b,
{
    match (a, b) {
        (ClipboardContentId::Text(x), ClipboardContentId::Text(y)) => {
            assert(x =~= y);
        },
        _ => {},
    }
}

/// Whether two optional ids are the same.
pub fn same_id(a: &Option<ClipboardContentId>, b: &Option<ClipboardContentId>) -> (same: bool)
    ensures
        same == (*a == *b),
{
    match (a, b) {
        (None, None) => true,
        (Some(ClipboardContentId::Text(x)), Some(ClipboardContentId::Text(y))) => {
            let same: bool = bytes_eq(x.as_slice(), y.as_slice());
            assert(same ==> *x =~= *y);
            same
        },
        (Some(ClipboardContentId::Image(x)), Some(ClipboardContentId::Image(y))) => {
            let same: bool = bytes_eq(x.as_slice(), y.as_slice());
            assert(same ==> *x =~= *y);
            same
        },
        _ => false,
    }
}

/// Tells a change of the clipboard from an echo of what was seen.
#[derive(Clone, Copy, Debug)]
pub struct ClipboardChangeTracker {
    pub sequence: u64,
    pub last_observed: Option<ClipboardContentId>,
}

impl ClipboardChangeTracker {
    /// A tracker that has seen something, or an empty clipboard.
    pub fn new(last_observed: Option<ClipboardContentId>) -> (tracker: Self)
        ensures
            tracker == (ClipboardChangeTracker { sequence: 0, last_observed }),
    {
        ClipboardChangeTracker { sequence: 0, last_observed }
    }

    /// Whether this is what was last seen.
    pub fn is_observed(&self, current: &Option<ClipboardContentId>) -> (observed: bool)
        ensures
            observed == (self.last_observed == *current),
    {
        same_id(&self.last_observed, current)
    }

    /// This was seen.
    pub fn mark_observed(&mut self, current: Option<ClipboardContentId>)
        ensures
            *final(self) == (ClipboardChangeTracker { last_observed: current, ..*old(self) }),
    {
        self.last_observed = current;
    }

    /// What an offer does: the contents count as seen, and have the next
    /// number unless there are none.
    pub open spec fn offering(self, current: Option<ClipboardContentId>) -> (Self, Option<u64>) {
        let sequence = crate::stats::bumped(self.sequence);
        if current is Some {
            (ClipboardChangeTracker { sequence, last_observed: current }, Some(sequence))
        } else {
            (ClipboardChangeTracker { last_observed: current, ..self }, None)
        }
    }

    /// What an offer of what is new does: nothing where it was seen.
    pub open spec fn offering_changes(self, current: Option<ClipboardContentId>) -> (
        Self,
        Option<u64>,
    ) {
        if self.last_observed == current {
            (self, None)
        } else {
            self.offering(current)
        }
    }

    /// The number of an offer of what is new; `None` where it was seen or is
    /// nothing.
    pub fn offer_if_changed(&mut self, current: Option<ClipboardContentId>) -> (number: Option<u64>)
        ensures
            (*final(self), number) == old(self).offering_changes(current),
    {
        if self.is_observed(&current) {
            return None;
        }
        self.offer_current(current)
    }

    /// The number of an offer; `None` where there is nothing to offer.
    pub fn offer_current(&mut self, current: Option<ClipboardContentId>) -> (number: Option<u64>)
        ensures
            (*final(self), number) == old(self).offering(current),
    {
        self.last_observed = current;
        if current.is_none() {
            return None;
        }
        self.sequence = self.sequence.saturating_add(1);
        Some(self.sequence)
    }
}

impl Default for ClipboardChangeTracker {
    fn default() -> (tracker: Self)
        ensures
            tracker == (ClipboardChangeTracker { sequence: 0, last_observed: None }),
    {
        ClipboardChangeTracker { sequence: 0, last_observed: None }
    }
}

/// What was offered is not offered again as a change: it counts as seen.
pub proof fn law_offer_is_observed(
    tracker: ClipboardChangeTracker,
    current: Option<ClipboardContentId>,
)
    ensures
        tracker.offering(current).0.last_observed == current,
{
}

/// The numbers of offers rise, up to the limit of the counter.
pub proof fn law_offers_are_numbered(
    tracker: ClipboardChangeTracker,
    current: Option<ClipboardContentId>,
)
    requires
        current is Some,
        tracker.sequence < u64::MAX,
    ensures
        tracker.offering(current).1 == Some((tracker.sequence + 1) as u64),
        tracker.offering(current).0.sequence == tracker.sequence + 1,
{
}

/// An image in its canonical form: its pixels, the PNG of them, and the
/// digest of the dimensions and the pixels.
#[derive(Clone, Debug, PartialEq, Eq)]
pub struct CanonicalImage {
    pub width: u32,
    pub height: u32,
    pub rgba: Vec<u8>,
    pub png: Vec<u8>,
    pub content_sha256: [u8; 32],
}

/// The formats that an image is accepted in.
#[derive(Clone, Copy, Debug, PartialEq, Eq, Structural)]
pub enum ImageKind {
    Png,
    Jpeg,
    Bmp,
}

/// What `DynamicImage::write_to` writes as PNG for some RGBA pixels; `None`
/// where it fails.
pub uninterp spec fn png_encoding(width: u32, height: u32, rgba: Seq<u8>) -> Option<Seq<u8>>;

/// What `ImageReader::into_dimensions` finds in some bytes of a format;
/// `None` where it fails.
pub uninterp spec fn image_dimensions(kind: ImageKind, bytes: Seq<u8>) -> Option<(u32, u32)>;

/// The RGBA pixels that `ImageReader::decode` finds in some bytes of a format,
/// within limits of the width, the height and what it allocates; `None` where
/// it fails.
pub uninterp spec fn image_pixels(
    kind: ImageKind,
    bytes: Seq<u8>,
    max_width: u32,
    max_height: u32,
    max_alloc: u64,
) -> Option<Seq<u8>>;

/// `DynamicImage::write_to` as PNG: depends on the dimensions and the pixels
/// alone. There are as many pixels as the dimensions say. What comes out is
/// never empty, and as PNG loses nothing, it is read back as the image that it
/// was made of, within the limits that this library reads images with.
#[verifier::external_body]
fn write_png(width: u32, height: u32, rgba: Vec<u8>) -> (out: Result<Vec<u8>, image::ImageError>)
    requires
        rgba@.len() == 4 * (width * height),
    ensures
        match out {
            Ok(png) => {
                &&& png_encoding(width, height, rgba@) == Some(png@)
                &&& png@.len() > 0
                &&& 0 < width * height <= MAX_IMAGE_PIXELS ==> reads_back(
                    width,
                    height,
                    rgba@,
                    png@,
                )
            },
            Err(_) => png_encoding(width, height, rgba@) is None,
        },
{
    let image = RgbaImage::from_raw(width, height, rgba).unwrap();
    let mut png = Cursor::new(Vec::new());
    DynamicImage::ImageRgba8(image).write_to(&mut png, ImageFormat::Png)?;
    Ok(png.into_inner())
}

/// `ImageReader::into_dimensions`: depends on the format and the bytes alone.
#[verifier::external_body]
fn read_dimensions(kind: ImageKind, bytes: &[u8]) -> (out: Result<(u32, u32), image::ImageError>)
    ensures
        match out {
            Ok(dimensions) => image_dimensions(kind, bytes@) == Some(dimensions),
            Err(_) => image_dimensions(kind, bytes@) is None,
        },
{
    let format = match kind {
        ImageKind::Png => ImageFormat::Png,
        ImageKind::Jpeg => ImageFormat::Jpeg,
        ImageKind::Bmp => ImageFormat::Bmp,
    };
    ImageReader::with_format(Cursor::new(bytes), format).into_dimensions()
}

/// `ImageReader::decode` with limits, as RGBA pixels: depends on the format,
/// the bytes and the limits alone. JPEG files that the decoder does not cope
/// with are left out.
#[verifier::external_body]
fn read_pixels(kind: ImageKind, bytes: &[u8], width: u32, height: u32, max_alloc: u64) -> (out:
    Result<Vec<u8>, image::ImageError>)
    requires
        kind is Jpeg ==> is_coped_with(bytes@),
    ensures
        match out {
            Ok(rgba) => image_pixels(kind, bytes@, width, height, max_alloc) == Some(rgba@),
            Err(_) => image_pixels(kind, bytes@, width, height, max_alloc) is None,
        },
{
    let format = match kind {
        ImageKind::Png => ImageFormat::Png,
        ImageKind::Jpeg => ImageFormat::Jpeg,
        ImageKind::Bmp => ImageFormat::Bmp,
    };
    let mut reader = ImageReader::with_format(Cursor::new(bytes), format);
    let mut limits = Limits::default();
    limits.max_image_width = Some(width);
    limits.max_image_height = Some(height);
    limits.max_alloc = Some(max_alloc);
    reader.limits(limits);
    Ok(reader.decode()?.into_rgba8().into_raw())
}

/// An encoding as PNG is read back as the image that it was made of.
pub open spec fn reads_back(width: u32, height: u32, rgba: Seq<u8>, png: Seq<u8>) -> bool {
    &&& image_dimensions(ImageKind::Png, png) == Some((width, height))
    &&& image_pixels(ImageKind::Png, png, width, height, (MAX_IMAGE_PIXELS * 4) as u64) == Some(
        rgba,
    )
}

/// Dimensions and a number of bytes that do not make an image, and why.
pub open spec fn dimensions_error(width: u32, height: u32, rgba_len: nat) -> Option<Refusal> {
    if width == 0 || height == 0 {
        Some(Refusal::InvalidDimensions)
    } else if width * height > MAX_IMAGE_PIXELS {
        Some(Refusal::TooManyPixels { pixels: width * height })
    } else if rgba_len != 4 * (width * height) {
        Some(Refusal::InvalidRgbaLength { width, height })
    } else {
        None
    }
}

/// What an error says of why an image was not accepted.
#[allow(inconsistent_fields)]
pub ghost enum Refusal {
    InvalidDimensions,
    TooManyPixels { pixels: int },
    InvalidRgbaLength { width: u32, height: u32 },
    EncodedTooLarge { actual: nat, max: nat },
    UnsupportedMime { mime: Seq<char> },
    UnsupportedJpeg,
    Image,
    InvalidTransfer,
    OffsetMismatch { expected: u32, actual: u32 },
    HashMismatch,
    TransferExpired,
}

impl ClipboardError {
    /// What the error says.
    pub open spec fn refusal(self) -> Refusal {
        match self {
            ClipboardError::InvalidDimensions => Refusal::InvalidDimensions,
            ClipboardError::TooManyPixels { pixels } => Refusal::TooManyPixels {
                pixels: pixels as int,
            },
            ClipboardError::InvalidRgbaLength { width, height } => Refusal::InvalidRgbaLength {
                width,
                height,
            },
            ClipboardError::EncodedTooLarge { actual, max } => Refusal::EncodedTooLarge {
                actual: actual as nat,
                max: max as nat,
            },
            ClipboardError::UnsupportedMime(mime) => Refusal::UnsupportedMime { mime: mime@ },
            ClipboardError::UnsupportedJpeg => Refusal::UnsupportedJpeg,
            ClipboardError::Image(_) => Refusal::Image,
            ClipboardError::InvalidTransfer => Refusal::InvalidTransfer,
            ClipboardError::OffsetMismatch { expected, actual } => Refusal::OffsetMismatch {
                expected,
                actual,
            },
            ClipboardError::HashMismatch => Refusal::HashMismatch,
            ClipboardError::TransferExpired => Refusal::TransferExpired,
        }
    }
}

/// Checks dimensions against a number of bytes, four for each pixel.
pub fn validate_dimensions(width: u32, height: u32, rgba_len: usize) -> (out: Result<
    (),
    ClipboardError,
>)
    ensures
        match out {
            Ok(_) => dimensions_error(width, height, rgba_len as nat) is None,
            Err(error) => dimensions_error(width, height, rgba_len as nat) == Some(
                error.refusal(),
            ),
        },
{
    if width == 0 || height == 0 {
        return Err(ClipboardError::InvalidDimensions);
    }
    assert(width * height <= u32::MAX * u32::MAX) by (nonlinear_arith)
        requires
            width <= u32::MAX,
            height <= u32::MAX,
    ;
    let pixels: u64 = width as u64 * height as u64;
    if pixels > MAX_IMAGE_PIXELS {
        return Err(ClipboardError::TooManyPixels { pixels });
    }
    if rgba_len as u64 != pixels * 4 {
        return Err(ClipboardError::InvalidRgbaLength { width, height });
    }
    Ok(())
}

/// The digest of an image: of its width and height, the highest byte first,
/// and its pixels.
pub open spec fn image_digest(width: u32, height: u32, rgba: Seq<u8>) -> Seq<u8> {
    sha256_digest(be_bytes(width as nat, 4) + be_bytes(height as nat, 4) + rgba)
}

fn hash_image(width: u32, height: u32, rgba: &[u8]) -> (digest: [u8; 32])
    ensures
        digest@ == image_digest(width, height, rgba@),
{
    let mut bytes: Vec<u8> = Vec::new();
    push_be(&mut bytes, width as u64, 4);
    push_be(&mut bytes, height as u64, 4);
    push_all(&mut bytes, rgba);
    assert(bytes@ =~= be_bytes(width as nat, 4) + be_bytes(height as nat, 4) + rgba@);
    sha256(bytes.as_slice())
}

/// Why some pixels do not make a canonical image of at most so many bytes.
pub open spec fn rgba_refusal(
    width: u32,
    height: u32,
    rgba: Seq<u8>,
    max_bytes: nat,
) -> Option<Refusal> {
    match dimensions_error(width, height, rgba.len()) {
        Some(refusal) => Some(refusal),
        None => match png_encoding(width, height, rgba) {
            None => Some(Refusal::Image),
            Some(png) => if png.len() > max_bytes {
                Some(Refusal::EncodedTooLarge { actual: png.len(), max: max_bytes })
            } else {
                None
            },
        },
    }
}

/// The format of a MIME type.
pub open spec fn kind_of(mime: Seq<char>) -> Option<ImageKind> {
    if mime == "image/png"@ {
        Some(ImageKind::Png)
    } else if mime == "image/jpeg"@ || mime == "image/jpg"@ {
        Some(ImageKind::Jpeg)
    } else if mime == "image/bmp"@ || mime == "image/x-bmp"@ {
        Some(ImageKind::Bmp)
    } else {
        None
    }
}

/// What an encoded image is decoded to, or why it is not: its dimensions are
/// looked at before its pixels, and a JPEG file has to be one that the decoder
/// copes with.
pub open spec fn decoding(bytes: Seq<u8>, mime: Seq<char>, max_bytes: nat) -> Result<
    (u32, u32, Seq<u8>),
    Refusal,
> {
    if bytes.len() > max_bytes {
        Err(Refusal::EncodedTooLarge { actual: bytes.len(), max: max_bytes })
    } else {
        match kind_of(mime) {
            None => Err(Refusal::UnsupportedMime { mime }),
            Some(kind) => match image_dimensions(kind, bytes) {
                None => Err(Refusal::Image),
                Some((width, height)) => if width == 0 || height == 0 {
                    Err(Refusal::InvalidDimensions)
                } else if width * height > MAX_IMAGE_PIXELS {
                    Err(Refusal::TooManyPixels { pixels: width * height })
                } else if kind is Jpeg && !is_coped_with(bytes) {
                    Err(Refusal::UnsupportedJpeg)
                } else {
                    match image_pixels(
                        kind,
                        bytes,
                        width,
                        height,
                        (MAX_IMAGE_PIXELS * 4) as u64,
                    ) {
                        None => Err(Refusal::Image),
                        Some(rgba) => Ok((width, height, rgba)),
                    }
                },
            },
        }
    }
}

impl CanonicalImage {
    /// The image is the canonical one of its pixels.
    pub open spec fn is_of(self, width: u32, height: u32, rgba: Seq<u8>) -> bool {
        &&& self.width == width
        &&& self.height == height
        &&& self.rgba@ == rgba
        &&& png_encoding(width, height, rgba) == Some(self.png@)
        &&& self.content_sha256@ == image_digest(width, height, rgba)
        &&& self.png@.len() > 0
        &&& reads_back(width, height, rgba, self.png@)
    }

    /// The canonical image of some pixels.
    pub fn from_rgba(width: u32, height: u32, rgba: Vec<u8>, max_bytes: usize) -> (out: Result<
        Self,
        ClipboardError,
    >)
        ensures
            match out {
                Ok(image) => rgba_refusal(width, height, rgba@, max_bytes as nat) is None
                    && image.is_of(width, height, rgba@),
                Err(error) => rgba_refusal(width, height, rgba@, max_bytes as nat) == Some(
                    error.refusal(),
                ),
            },
    {
        match validate_dimensions(width, height, rgba.len()) {
            Ok(_) => {},
            Err(error) => {
                return Err(error);
            },
        }
        assert(0 < width * height) by (nonlinear_arith)
            requires
                0 < width,
                0 < height,
        ;
        let pixels: Vec<u8> = copy_all(rgba.as_slice());
        let png: Vec<u8> = match write_png(width, height, pixels) {
            Ok(png) => png,
            Err(error) => {
                return Err(ClipboardError::Image(error));
            },
        };
        if png.len() > max_bytes {
            return Err(ClipboardError::EncodedTooLarge { actual: png.len(), max: max_bytes });
        }
        let content_sha256: [u8; 32] = hash_image(width, height, rgba.as_slice());
        Ok(CanonicalImage { width, height, content_sha256, rgba, png })
    }

    /// The canonical image of an encoded one.
    pub fn from_encoded(bytes: &[u8], mime: &str, max_bytes: usize) -> (out: Result<
        Self,
        ClipboardError,
    >)
        ensures
            match decoding(bytes@, mime@, max_bytes as nat) {
                Ok((width, height, rgba)) => match out {
                    Ok(image) => rgba_refusal(width, height, rgba, max_bytes as nat) is None
                        && image.is_of(width, height, rgba),
                    Err(error) => rgba_refusal(width, height, rgba, max_bytes as nat) == Some(
                        error.refusal(),
                    ),
                },
                Err(refusal) => out matches Err(error) && error.refusal() == refusal,
            },
    {
        if bytes.len() > max_bytes {
            return Err(ClipboardError::EncodedTooLarge { actual: bytes.len(), max: max_bytes });
        }
        let kind: ImageKind = if str_eq(mime, "image/png") {
            ImageKind::Png
        } else if str_eq(mime, "image/jpeg") || str_eq(mime, "image/jpg") {
            ImageKind::Jpeg
        } else if str_eq(mime, "image/bmp") || str_eq(mime, "image/x-bmp") {
            ImageKind::Bmp
        } else {
            return Err(ClipboardError::UnsupportedMime(mime.to_owned()));
        };
        let (width, height): (u32, u32) = match read_dimensions(kind, bytes) {
            Ok(dimensions) => dimensions,
            Err(error) => {
                return Err(ClipboardError::Image(error));
            },
        };
        assert(width * height <= u32::MAX * u32::MAX) by (nonlinear_arith)
            requires
                width <= u32::MAX,
                height <= u32::MAX,
        ;
        let pixels: u64 = width as u64 * height as u64;
        if width == 0 || height == 0 {
            return Err(ClipboardError::InvalidDimensions);
        }
        if pixels > MAX_IMAGE_PIXELS {
            return Err(ClipboardError::TooManyPixels { pixels });
        }
        if matches!(kind, ImageKind::Jpeg) && !copes_with(bytes) {
            return Err(ClipboardError::UnsupportedJpeg);
        }
        match read_pixels(kind, bytes, width, height, MAX_IMAGE_PIXELS * 4) {
            Ok(rgba) => Self::from_rgba(width, height, rgba, max_bytes),
            Err(error) => Err(ClipboardError::Image(error)),
        }
    }
}

/// Each of the five names that an image goes by has it read as its kind, where
/// it is not too large and its decoder copes with it.
pub proof fn law_known_images_are_read(
    bytes: Seq<u8>,
    max_bytes: nat,
    kind: ImageKind,
    mime: Seq<char>,
    width: u32,
    height: u32,
    rgba: Seq<u8>,
)
    requires
        kind == ImageKind::Png && mime == "image/png"@ || kind == ImageKind::Jpeg && (mime
            == "image/jpeg"@ || mime == "image/jpg"@) || kind == ImageKind::Bmp && (mime
            == "image/bmp"@ || mime == "image/x-bmp"@),
        bytes.len() <= max_bytes,
        image_dimensions(kind, bytes) == Some((width, height)),
        width > 0,
        height > 0,
        width * height <= 16_777_216,
        kind == ImageKind::Jpeg ==> is_coped_with(bytes),
        image_pixels(kind, bytes, width, height, 67_108_864) == Some(rgba),
    ensures
        decoding(bytes, mime, max_bytes) == Ok::<(u32, u32, Seq<u8>), Refusal>(
            (width, height, rgba),
        ),
{
    reveal_strlit("image/png");
    reveal_strlit("image/jpeg");
    reveal_strlit("image/jpg");
    reveal_strlit("image/bmp");
    reveal_strlit("image/x-bmp");
    assert("image/png"@.len() == 9);
    assert("image/jpeg"@.len() == 10);
    assert("image/jpg"@.len() == 9);
    assert("image/bmp"@.len() == 9);
    assert("image/x-bmp"@.len() == 11);
    assert("image/png"@[6] == 'p');
    assert("image/jpg"@[6] == 'j');
    assert("image/bmp"@[6] == 'b');
}

/// An image that this side made is read back as the same image.
pub proof fn law_own_image_reads_back(image: CanonicalImage, max_bytes: nat)
    requires
        image.is_of(image.width, image.height, image.rgba@),
        0 < image.width,
        0 < image.height,
        image.width * image.height <= MAX_IMAGE_PIXELS,
        image.png@.len() <= max_bytes,
    ensures
        decoding(image.png@, "image/png"@, max_bytes) == Ok::<(u32, u32, Seq<u8>), Refusal>(
            (image.width, image.height, image.rgba@),
        ),
{
}

/// Pixels make an image exactly where there are some, not too many, four bytes
/// for each, and their encoding is not too large.
pub proof fn law_fitting_pixels_make_an_image(
    width: u32,
    height: u32,
    rgba: Seq<u8>,
    max_bytes: nat,
)
    ensures
        rgba_refusal(width, height, rgba, max_bytes) is None <==> width > 0 && height > 0 && width
            * height <= 16_777_216 && rgba.len() == 4 * (width * height) && (png_encoding(
            width,
            height,
            rgba,
        ) matches Some(png) && png.len() <= max_bytes),
{
}

/// Two texts count as the same exactly where their bytes have one digest, two
/// images where their digests are one, and a text is never an image.
pub proof fn law_ids_tell_items_apart(
    text: String,
    other_text: String,
    image: CanonicalImage,
    other_image: CanonicalImage,
    a: ClipboardContentId,
    b: ClipboardContentId,
)
    ensures
        ClipboardItem::Text(text).has_id(a) && ClipboardItem::Text(other_text).has_id(b) ==> (a
            == b <==> sha256_digest(encode_utf8(text@)) == sha256_digest(
            encode_utf8(other_text@),
        )),
        ClipboardItem::Image(image).has_id(a) && ClipboardItem::Image(other_image).has_id(b) ==> (a
            == b <==> image.content_sha256 == other_image.content_sha256),
        ClipboardItem::Text(text).has_id(a) && ClipboardItem::Image(image).has_id(b) ==> a != b,
{
    match (a, b) {
        (ClipboardContentId::Text(x), ClipboardContentId::Text(y)) => {
            assert(x@ == y@ ==> x =~= y);
        },
        _ => {},
    }
}

/// An image is not held up for good: however much else there is to send, a piece
/// of it goes behind 64 frames, and none is put first before.
pub proof fn law_images_are_not_held_up(more: nat)
    ensures
        is_chunk_due(frames_after_all(0, more)) <==> more >= 64,
    decreases more,
{
    lemma_frames_after_all(more);
}

proof fn lemma_frames_after_all(more: nat)
    ensures
        more <= u8::MAX ==> frames_after_all(0, more) == more,
        more > u8::MAX ==> frames_after_all(0, more) == u8::MAX,
    decreases more,
{
    if more > 0 {
        lemma_frames_after_all((more - 1) as nat);
    }
}

/// What is new has a number of its own and counts as seen, and then is new no
/// more; an emptied clipboard is seen, and has none.
pub proof fn law_changes_are_offered_once(
    tracker: ClipboardChangeTracker,
    current: ClipboardContentId,
)
    requires
        tracker.last_observed != Some(current),
        tracker.sequence < u64::MAX,
    ensures
        tracker.offering_changes(Some(current)).1 == Some((tracker.sequence + 1) as u64),
        tracker.offering_changes(Some(current)).0 == (ClipboardChangeTracker {
            sequence: (tracker.sequence + 1) as u64,
            last_observed: Some(current),
        }),
        tracker.offering_changes(Some(current)).0.offering_changes(Some(current)).1 is None,
        tracker.offering_changes(None).1 is None,
        tracker.offering_changes(None).0.last_observed is None,
        tracker.offering_changes(None).0.sequence == tracker.sequence,
{
}

} // verus!
