//! JPEG files that the decoder does not cope with.
//!
//! On a few frames that no camera and no program writes, the decoder of the
//! `image` crate neither gives an image nor an error: it stops the program. So
//! it does, in a build that checks for overflow, where the first coefficients of
//! a sequential image run away. The frame is found as the decoder finds it;
//! what comes behind the headers counts wherever something looks like it.

use crate::jpeg_scan::{follow_units, span, span_of, units_follow, Part, Spot, COEFFICIENT_LIMIT};
use vstd::prelude::*;

verus! {

/// A byte that begins a marker.
pub const MARKER: u8 = 0xFF;

/// The marker of a progressive frame, behind those of the sequential ones.
pub const PROGRESSIVE_FRAME: u8 = 0xC2;

/// The marker of a scan.
pub const SCAN: u8 = 0xDA;

/// The marker of a segment in which programs of Adobe tell the colors.
pub const COLORS: u8 = 0xEE;

/// The colors of a segment: YCbCr.
pub const YCBCR: u8 = 1;

/// The colors of a segment: YCCK.
pub const YCCK: u8 = 2;

/// Something that looks like the header of a frame: its marker, its length,
/// precision, height and width, the number of its components, one to four, and
/// three bytes for each of them.
pub open spec fn is_frame(bytes: Seq<u8>, at: int) -> bool {
    &&& 0 <= at
    &&& at + 10 <= bytes.len()
    &&& bytes[at] == MARKER
    &&& 0xC0 <= bytes[at + 1] <= PROGRESSIVE_FRAME
    &&& 1 <= bytes[at + 9] <= 4
    &&& bytes[at + 2] == 0
    &&& bytes[at + 3] == 8 + 3 * bytes[at + 9]
    &&& at + 10 + 3 * bytes[at + 9] <= bytes.len()
}

/// How often a component of a frame is sampled in a row.
pub open spec fn across(bytes: Seq<u8>, at: int, component: int) -> u8 {
    bytes[at + 11 + 3 * component] / 16
}

/// How often a component of a frame is sampled in a column.
pub open spec fn down(bytes: Seq<u8>, at: int, component: int) -> u8 {
    bytes[at + 11 + 3 * component] % 16
}

/// How often the widest of the first components of a frame is sampled.
pub open spec fn widest(bytes: Seq<u8>, at: int, components: nat) -> u8
    decreases components,
{
    if components == 0 {
        0
    } else {
        let before = widest(bytes, at, (components - 1) as nat);
        let last = across(bytes, at, components - 1);
        if last > before {
            last
        } else {
            before
        }
    }
}

/// How often the tallest of the first components of a frame is sampled.
pub open spec fn tallest(bytes: Seq<u8>, at: int, components: nat) -> u8
    decreases components,
{
    if components == 0 {
        0
    } else {
        let before = tallest(bytes, at, (components - 1) as nat);
        let last = down(bytes, at, components - 1);
        if last > before {
            last
        } else {
            before
        }
    }
}

/// A frame has so many rows or columns that a whole block more is too many to
/// count.
pub open spec fn is_vast(bytes: Seq<u8>, at: int) -> bool {
    (bytes[at + 5] == 255 && bytes[at + 6] > 248) || (bytes[at + 7] == 255 && bytes[at + 8] > 248)
}

/// A component of a frame has half of its pixels in a row, and half of them in
/// a column.
pub open spec fn is_quartered(bytes: Seq<u8>, at: int, component: int) -> bool {
    let components = bytes[at + 9] as nat;
    &&& widest(bytes, at, components) == 2 * across(bytes, at, component)
    &&& tallest(bytes, at, components) == 2
    &&& down(bytes, at, component) == 1
}

/// Something that looks like a segment of Adobe that tells some colors.
pub open spec fn tells_colors(bytes: Seq<u8>, at: int, colors: u8) -> bool {
    &&& 0 <= at
    &&& at + 16 <= bytes.len()
    &&& bytes[at] == MARKER
    &&& bytes[at + 1] == COLORS
    &&& bytes[at + 4] == 0x41
    &&& bytes[at + 5] == 0x64
    &&& bytes[at + 6] == 0x6F
    &&& bytes[at + 7] == 0x62
    &&& bytes[at + 8] == 0x65
    &&& bytes[at + 15] == colors
}

/// Something that looks like a scan of another number of components.
pub open spec fn is_other_scan(bytes: Seq<u8>, at: int, components: u8) -> bool {
    &&& 0 <= at
    &&& at + 5 <= bytes.len()
    &&& bytes[at] == MARKER
    &&& bytes[at + 1] == SCAN
    &&& bytes[at + 4] != components
}

/// A frame that the decoder does not cope with. A progressive one of one or two
/// components is read as if it had three where its colors are told to be YCCK,
/// and the last component of one of four is not there where they are told to
/// be YCbCr. Where the first component is not the widest, there is not room
/// enough for a quartered component of a progressive frame, nor for the rows of
/// a sequential one whose scans do not hold all components. The blocks of a
/// vast sequential one are miscounted where its only component is sampled more
/// than once.
pub open spec fn trips(bytes: Seq<u8>, at: int) -> bool {
    let progressive = bytes[at + 1] == PROGRESSIVE_FRAME;
    let components = bytes[at + 9];
    let skewed = across(bytes, at, 0) < widest(bytes, at, components as nat);
    ||| progressive && components <= 2 && exists|i: int| #[trigger] tells_colors(bytes, i, YCCK)
    ||| progressive && components == 4 && exists|i: int| #[trigger] tells_colors(bytes, i, YCBCR)
    ||| progressive && skewed && exists|i: int|
        0 <= i < components && #[trigger] is_quartered(bytes, at, i)
    ||| !progressive && components == 1 && bytes[at + 11] != 0x11 && is_vast(bytes, at)
    ||| !progressive && skewed && exists|i: int| #[trigger] is_other_scan(bytes, i, components)
}

fn has_colors(bytes: &[u8], colors: u8) -> (found: bool)
    ensures
        found == exists|i: int| #[trigger] tells_colors(bytes@, i, colors),
{
    let mut i: usize = 0;
    while bytes.len() >= 16 && i <= bytes.len() - 16
        invariant
            i <= bytes@.len(),
            forall|k: int| 0 <= k < i ==> !#[trigger] tells_colors(bytes@, k, colors),
        decreases bytes@.len() - i,
    {
        if bytes[i] == MARKER && bytes[i + 1] == COLORS && bytes[i + 4] == 0x41 && bytes[i + 5]
            == 0x64 && bytes[i + 6] == 0x6F && bytes[i + 7] == 0x62 && bytes[i + 8] == 0x65
            && bytes[i + 15] == colors {
            assert(tells_colors(bytes@, i as int, colors));
            return true;
        }
        i = i + 1;
    }
    false
}

fn has_other_scan(bytes: &[u8], components: u8) -> (found: bool)
    ensures
        found == exists|i: int| #[trigger] is_other_scan(bytes@, i, components),
{
    let mut i: usize = 0;
    while bytes.len() >= 5 && i <= bytes.len() - 5
        invariant
            i <= bytes@.len(),
            forall|k: int| 0 <= k < i ==> !#[trigger] is_other_scan(bytes@, k, components),
        decreases bytes@.len() - i,
    {
        if bytes[i] == MARKER && bytes[i + 1] == SCAN && bytes[i + 4] != components {
            assert(is_other_scan(bytes@, i as int, components));
            return true;
        }
        i = i + 1;
    }
    false
}

fn has_frame_at(bytes: &[u8], at: usize) -> (found: bool)
    requires
        at < bytes@.len(),
    ensures
        found == is_frame(bytes@, at as int),
{
    if bytes.len() - at < 10 {
        return false;
    }
    let components: u8 = bytes[at + 9];
    bytes[at] == MARKER && 0xC0 <= bytes[at + 1] && bytes[at + 1] <= PROGRESSIVE_FRAME && 1
        <= components && components <= 4 && bytes[at + 2] == 0 && bytes[at + 3] == 8 + 3
        * components && bytes.len() - at >= 10 + 3 * components as usize
}

fn find_factors(bytes: &[u8], at: usize) -> (factors: (u8, u8))
    requires
        is_frame(bytes@, at as int),
    ensures
        factors.0 == widest(bytes@, at as int, bytes@[at + 9] as nat),
        factors.1 == tallest(bytes@, at as int, bytes@[at + 9] as nat),
        factors.0 <= 15,
        factors.1 <= 15,
{
    let len: usize = bytes.len();
    let components: u8 = bytes[at + 9];
    let mut width: u8 = 0;
    let mut height: u8 = 0;
    let mut i: usize = 0;
    while i < components as usize
        invariant
            i <= components <= 4,
            is_frame(bytes@, at as int),
            len == bytes@.len(),
            components == bytes@[at + 9],
            width == widest(bytes@, at as int, i as nat),
            height == tallest(bytes@, at as int, i as nat),
            width <= 15,
            height <= 15,
        decreases components - i,
    {
        let factors: u8 = bytes[at + 11 + 3 * i];
        if factors / 16 > width {
            width = factors / 16;
        }
        if factors % 16 > height {
            height = factors % 16;
        }
        i = i + 1;
    }
    (width, height)
}

fn trips_at(bytes: &[u8], at: usize) -> (found: bool)
    requires
        is_frame(bytes@, at as int),
    ensures
        found == trips(bytes@, at as int),
{
    let len: usize = bytes.len();
    let progressive: bool = bytes[at + 1] == PROGRESSIVE_FRAME;
    let components: u8 = bytes[at + 9];
    if progressive && components <= 2 && has_colors(bytes, YCCK) {
        return true;
    }
    if progressive && components == 4 && has_colors(bytes, YCBCR) {
        return true;
    }
    if !progressive && components == 1 && bytes[at + 11] != 0x11 && ((bytes[at + 5] == 255
        && bytes[at + 6] > 248) || (bytes[at + 7] == 255 && bytes[at + 8] > 248)) {
        return true;
    }
    let (width, height): (u8, u8) = find_factors(bytes, at);
    let skewed: bool = bytes[at + 11] / 16 < width;
    if !skewed {
        return false;
    }
    if !progressive {
        return has_other_scan(bytes, components);
    }
    let mut i: usize = 0;
    while i < components as usize
        invariant
            i <= components <= 4,
            is_frame(bytes@, at as int),
            len == bytes@.len(),
            components == bytes@[at + 9],
            width == widest(bytes@, at as int, components as nat),
            height == tallest(bytes@, at as int, components as nat),
            progressive == (bytes@[at + 1] == PROGRESSIVE_FRAME),
            progressive,
            across(bytes@, at as int, 0) < width,
            forall|k: int| 0 <= k < i ==> !#[trigger] is_quartered(bytes@, at as int, k),
        decreases components - i,
    {
        let factors: u8 = bytes[at + 11 + 3 * i];
        if width == 2 * (factors / 16) && height == 2 && factors % 16 == 1 {
            assert(is_quartered(bytes@, at as int, i as int));
            return true;
        }
        i = i + 1;
    }
    false
}

/// Four places of a file; nought stands for none.
#[derive(Clone, Copy, Debug, PartialEq, Eq, Structural)]
pub struct Four {
    pub a: usize,
    pub b: usize,
    pub c: usize,
    pub d: usize,
}

impl Four {
    /// One of the places.
    pub open spec fn place(self, i: int) -> usize {
        if i == 0 {
            self.a
        } else if i == 1 {
            self.b
        } else if i == 2 {
            self.c
        } else {
            self.d
        }
    }

    /// The places with another one.
    pub open spec fn with(self, i: int, place: usize) -> Four {
        if i == 0 {
            Four { a: place, ..self }
        } else if i == 1 {
            Four { b: place, ..self }
        } else if i == 2 {
            Four { c: place, ..self }
        } else {
            Four { d: place, ..self }
        }
    }

    fn get(self, i: u8) -> (place: usize)
        ensures
            place == self.place(i as int),
    {
        if i == 0 {
            self.a
        } else if i == 1 {
            self.b
        } else if i == 2 {
            self.c
        } else {
            self.d
        }
    }

    fn put(self, i: u8, place: usize) -> (out: Four)
        ensures
            out == self.with(i as int, place),
    {
        if i == 0 {
            Four { a: place, ..self }
        } else if i == 1 {
            Four { b: place, ..self }
        } else if i == 2 {
            Four { c: place, ..self }
        } else {
            Four { d: place, ..self }
        }
    }
}

/// What the headers of a file say before its first scan.
#[derive(Clone, Copy, Debug, PartialEq, Eq, Structural)]
pub struct Header {
    /// Where the frame stands; nought where none has come.
    pub frame: usize,
    /// Where the counts of the Huffman codes stand, for the first coefficients
    /// of blocks and for the others.
    pub first_codes: Four,
    pub other_codes: Four,
    /// The most bits of a difference of first coefficients.
    pub bits: u8,
    /// The largest quantizer of first coefficients.
    pub quantizer: u16,
    /// How many units there are between two restarts; nought for no restarts.
    pub interval: u16,
    /// The colors are told.
    pub colors: bool,
}

/// How far the headers of a file go.
#[derive(Clone, Copy, Debug, PartialEq, Eq, Structural)]
pub enum Start {
    /// There is no frame or no scan.
    Nothing,
    Progressive { frame: usize },
    Sequential { header: Header, scan: usize },
}

impl Header {
    /// Nothing was said. The codes that a decoder goes by where none are given
    /// have differences of eleven bits.
    pub open spec fn none() -> Header {
        Header {
            frame: 0,
            first_codes: Four { a: 0, b: 0, c: 0, d: 0 },
            other_codes: Four { a: 0, b: 0, c: 0, d: 0 },
            bits: 11,
            quantizer: 1,
            interval: 0,
            colors: false,
        }
    }

    fn new() -> (header: Header)
        ensures
            header == Header::none(),
    {
        Header {
            frame: 0,
            first_codes: Four { a: 0, b: 0, c: 0, d: 0 },
            other_codes: Four { a: 0, b: 0, c: 0, d: 0 },
            bits: 11,
            quantizer: 1,
            interval: 0,
            colors: false,
        }
    }
}

/// A number of two bytes.
pub open spec fn two_bytes(bytes: Seq<u8>, at: int) -> int {
    bytes[at] * 256 + bytes[at + 1]
}

fn read_two(bytes: &[u8], at: usize) -> (number: usize)
    requires
        at + 1 < bytes@.len(),
    ensures
        number == two_bytes(bytes@, at as int),
        number <= 65535,
{
    bytes[at] as usize * 256 + bytes[at + 1] as usize
}

/// Where the next marker begins.
pub open spec fn next_marker(bytes: Seq<u8>, from: int) -> Option<int>
    decreases bytes.len() - from,
{
    if from + 1 >= bytes.len() {
        None
    } else if bytes[from] == MARKER && bytes[from + 1] != 0 && bytes[from + 1] != MARKER {
        Some(from)
    } else {
        next_marker(bytes, from + 1)
    }
}

fn find_marker(bytes: &[u8], from: usize) -> (at: Option<usize>)
    requires
        from <= bytes@.len(),
    ensures
        match at {
            Some(at) => next_marker(bytes@, from as int) == Some(at as int) && from <= at && at + 1
                < bytes@.len(),
            None => next_marker(bytes@, from as int) is None,
        },
{
    let mut at: usize = from;
    while at < bytes.len() && bytes.len() - at > 1
        invariant
            from <= at <= bytes@.len(),
            next_marker(bytes@, from as int) == next_marker(bytes@, at as int),
        decreases bytes@.len() - at,
    {
        if bytes[at] == MARKER && bytes[at + 1] != 0 && bytes[at + 1] != MARKER {
            return Some(at);
        }
        at = at + 1;
    }
    None
}

/// The sum of some bytes.
pub open spec fn sum(bytes: Seq<u8>, at: int, count: nat) -> nat
    decreases count,
{
    if count == 0 {
        0
    } else {
        sum(bytes, at, (count - 1) as nat) + bytes[at + count - 1] as nat
    }
}

fn add_up(bytes: &[u8], at: usize, count: usize) -> (total: usize)
    requires
        at + count <= bytes@.len(),
        count <= 16,
    ensures
        total == sum(bytes@, at as int, count as nat),
        total <= 255 * count,
{
    let len: usize = bytes.len();
    let mut total: usize = 0;
    let mut i: usize = 0;
    while i < count
        invariant
            i <= count <= 16,
            len == bytes@.len(),
            at + count <= bytes@.len(),
            total == sum(bytes@, at as int, i as nat),
            total <= 255 * i,
        decreases count - i,
    {
        total = total + bytes[at + i] as usize;
        i = i + 1;
    }
    total
}

/// The largest of some bytes and a number.
pub open spec fn largest(bytes: Seq<u8>, at: int, count: nat, other: u8) -> u8
    decreases count,
{
    if count == 0 {
        other
    } else {
        let before = largest(bytes, at, (count - 1) as nat, other);
        let last = bytes[at + count - 1];
        if last > before {
            last
        } else {
            before
        }
    }
}

fn find_largest(bytes: &[u8], at: usize, count: usize, other: u8) -> (found: u8)
    requires
        at + count <= bytes@.len(),
    ensures
        found == largest(bytes@, at as int, count as nat, other),
{
    let len: usize = bytes.len();
    let mut found: u8 = other;
    let mut i: usize = 0;
    while i < count
        invariant
            i <= count,
            len == bytes@.len(),
            at + count <= bytes@.len(),
            found == largest(bytes@, at as int, i as nat, other),
        decreases count - i,
    {
        if bytes[at + i] > found {
            found = bytes[at + i];
        }
        i = i + 1;
    }
    found
}

/// What is known behind a segment of Huffman codes, from a place in it on.
pub open spec fn codes_read(bytes: Seq<u8>, at: int, end: int, header: Header) -> Option<Header>
    decreases end - at,
{
    if end - at <= 16 {
        if at == end {
            Some(header)
        } else {
            None
        }
    } else {
        let kind = bytes[at] / 16;
        let index = (bytes[at] % 16) as int;
        let count = sum(bytes, at + 1, 16);
        let bits = largest(bytes, at + 17, count, header.bits);
        if kind > 1 || index > 3 || count > 256 || at + 17 + count > end || (kind == 0 && bits > 15)
        {
            None
        } else {
            let next = if kind == 0 {
                Header {
                    first_codes: header.first_codes.with(index, (at + 1) as usize),
                    bits,
                    ..header
                }
            } else {
                Header { other_codes: header.other_codes.with(index, (at + 1) as usize), ..header }
            };
            codes_read(bytes, at + 17 + count, end, next)
        }
    }
}

fn read_codes(bytes: &[u8], begin: usize, end: usize, header: Header) -> (out: Option<Header>)
    requires
        begin <= end <= bytes@.len(),
        header.bits <= 15,
        header.quantizer >= 1,
    ensures
        out == codes_read(bytes@, begin as int, end as int, header),
        out matches Some(next) ==> next.bits <= 15 && next.quantizer >= 1 && next.frame
            == header.frame,
{
    let mut at: usize = begin;
    let mut known: Header = header;
    while end - at > 16
        invariant
            begin <= at <= end <= bytes@.len(),
            known.bits <= 15,
            known.quantizer >= 1,
            known.frame == header.frame,
            codes_read(bytes@, begin as int, end as int, header) == codes_read(
                bytes@,
                at as int,
                end as int,
                known,
            ),
        decreases end - at,
    {
        let kind: u8 = bytes[at] / 16;
        let index: u8 = bytes[at] % 16;
        let count: usize = add_up(bytes, at + 1, 16);
        if kind > 1 || index > 3 || count > 256 || end - at < 17 + count {
            return None;
        }
        if kind == 0 {
            let bits: u8 = find_largest(bytes, at + 17, count, known.bits);
            if bits > 15 {
                return None;
            }
            known.first_codes = known.first_codes.put(index, at + 1);
            known.bits = bits;
        } else {
            known.other_codes = known.other_codes.put(index, at + 1);
        }
        at = at + 17 + count;
    }
    if at == end {
        Some(known)
    } else {
        None
    }
}

/// What is known behind a segment of quantizers, from a place in it on.
pub open spec fn quantizers_read(bytes: Seq<u8>, at: int, end: int, header: Header) -> Option<
    Header,
>
    decreases end - at,
{
    if at >= end {
        if at == end {
            Some(header)
        } else {
            None
        }
    } else {
        let wide = bytes[at] / 16;
        let size = 64 * (wide + 1);
        if wide > 1 || bytes[at] % 16 > 3 || at + 1 + size > end {
            None
        } else {
            let first = if wide == 0 {
                bytes[at + 1] as int
            } else {
                two_bytes(bytes, at + 1)
            };
            let next = if first > header.quantizer {
                Header { quantizer: first as u16, ..header }
            } else {
                header
            };
            quantizers_read(bytes, at + 1 + size, end, next)
        }
    }
}

fn read_quantizers(bytes: &[u8], begin: usize, end: usize, header: Header) -> (out: Option<Header>)
    requires
        begin <= end <= bytes@.len(),
        header.bits <= 15,
        header.quantizer >= 1,
    ensures
        out == quantizers_read(bytes@, begin as int, end as int, header),
        out matches Some(next) ==> next.bits <= 15 && next.quantizer >= 1 && next.frame
            == header.frame,
{
    let mut at: usize = begin;
    let mut known: Header = header;
    while at < end
        invariant
            begin <= at <= end <= bytes@.len(),
            known.bits <= 15,
            known.quantizer >= 1,
            known.frame == header.frame,
            quantizers_read(bytes@, begin as int, end as int, header) == quantizers_read(
                bytes@,
                at as int,
                end as int,
                known,
            ),
        decreases end - at,
    {
        let wide: u8 = bytes[at] / 16;
        if wide > 1 || bytes[at] % 16 > 3 {
            return None;
        }
        let size: usize = 64 * (wide as usize + 1);
        if end - at < 1 + size {
            return None;
        }
        let first: usize = if wide == 0 {
            bytes[at + 1] as usize
        } else {
            read_two(bytes, at + 1)
        };
        if first > known.quantizer as usize {
            known.quantizer = first as u16;
        }
        at = at + 1 + size;
    }
    Some(known)
}

/// What is known behind a segment that begins with a marker.
pub open spec fn segment_read(bytes: Seq<u8>, at: int, end: int, header: Header) -> Option<Header> {
    let kind = bytes[at + 1];
    if kind == 0xC0 || kind == 0xC1 {
        if header.frame == 0 && is_frame(bytes, at) {
            Some(Header { frame: at as usize, ..header })
        } else {
            None
        }
    } else if kind == 0xC4 {
        codes_read(bytes, at + 4, end, header)
    } else if kind == 0xDB {
        quantizers_read(bytes, at + 4, end, header)
    } else if kind == 0xDD {
        if end == at + 6 {
            Some(Header { interval: two_bytes(bytes, at + 4) as u16, ..header })
        } else {
            None
        }
    } else if kind == COLORS {
        Some(Header { colors: true, ..header })
    } else {
        Some(header)
    }
}

fn read_segment(bytes: &[u8], at: usize, end: usize, header: Header) -> (out: Option<Header>)
    requires
        at + 4 <= end <= bytes@.len(),
        header.bits <= 15,
        header.quantizer >= 1,
        header.frame > 0 ==> is_frame(bytes@, header.frame as int),
        at > 0,
    ensures
        out == segment_read(bytes@, at as int, end as int, header),
        out matches Some(next) ==> next.bits <= 15 && next.quantizer >= 1 && (next.frame > 0
            ==> is_frame(bytes@, next.frame as int)),
{
    let kind: u8 = bytes[at + 1];
    let mut known: Header = header;
    if kind == 0xC0 || kind == 0xC1 {
        if header.frame == 0 && has_frame_at(bytes, at) {
            known.frame = at;
            Some(known)
        } else {
            None
        }
    } else if kind == 0xC4 {
        read_codes(bytes, at + 4, end, header)
    } else if kind == 0xDB {
        read_quantizers(bytes, at + 4, end, header)
    } else if kind == 0xDD {
        if end - at == 6 {
            known.interval = read_two(bytes, at + 4) as u16;
            Some(known)
        } else {
            None
        }
    } else if kind == COLORS {
        known.colors = true;
        Some(known)
    } else {
        Some(known)
    }
}

/// How far the headers go, from a place on.
pub open spec fn headers_end(bytes: Seq<u8>, from: int, header: Header) -> Start
    decreases bytes.len() - from, 0nat,
    via headers_end_decreases
{
    match next_marker(bytes, from) {
        None => Start::Nothing,
        Some(at) => {
            let end = at + 2 + two_bytes(bytes, at + 2);
            if at + 4 > bytes.len() || end < at + 4 || end > bytes.len() {
                Start::Nothing
            } else if bytes[at + 1] == SCAN {
                if header.frame == 0 {
                    Start::Nothing
                } else {
                    Start::Sequential { header, scan: at as usize }
                }
            } else if bytes[at + 1] == PROGRESSIVE_FRAME {
                if header.frame == 0 && is_frame(bytes, at) {
                    Start::Progressive { frame: at as usize }
                } else {
                    Start::Nothing
                }
            } else {
                match segment_read(bytes, at, end, header) {
                    None => Start::Nothing,
                    Some(next) => headers_end(bytes, end, next),
                }
            }
        },
    }
}

#[via_fn]
proof fn headers_end_decreases(bytes: Seq<u8>, from: int, header: Header) {
    lemma_marker_is_ahead(bytes, from);
}

proof fn lemma_marker_is_ahead(bytes: Seq<u8>, from: int)
    ensures
        next_marker(bytes, from) matches Some(at) ==> from <= at && at + 1 < bytes.len(),
    decreases bytes.len() - from,
{
    if from + 1 < bytes.len() && !(bytes[from] == MARKER && bytes[from + 1] != 0 && bytes[from + 1]
        != MARKER) {
        lemma_marker_is_ahead(bytes, from + 1);
    }
}

fn read_headers(bytes: &[u8]) -> (start: Start)
    ensures
        start == headers_end(bytes@, 2, Header::none()),
        match start {
            Start::Nothing => true,
            Start::Progressive { frame } => is_frame(bytes@, frame as int),
            Start::Sequential { header, scan } => is_frame(bytes@, header.frame as int)
                && header.bits <= 15 && header.quantizer >= 1 && scan + 4 <= bytes@.len(),
        },
{
    if bytes.len() < 2 {
        return Start::Nothing;
    }
    let mut from: usize = 2;
    let mut known: Header = Header::new();
    loop
        invariant
            2 <= from <= bytes@.len(),
            known.bits <= 15,
            known.quantizer >= 1,
            known.frame > 0 ==> is_frame(bytes@, known.frame as int),
            headers_end(bytes@, 2, Header::none()) == headers_end(bytes@, from as int, known),
        decreases bytes@.len() - from,
    {
        let at: usize = match find_marker(bytes, from) {
            Some(at) => at,
            None => {
                return Start::Nothing;
            },
        };
        if bytes.len() - at < 4 {
            return Start::Nothing;
        }
        let length: usize = read_two(bytes, at + 2);
        if length < 2 || bytes.len() - at - 2 < length {
            return Start::Nothing;
        }
        let end: usize = at + 2 + length;
        if bytes[at + 1] == SCAN {
            if known.frame == 0 {
                return Start::Nothing;
            }
            return Start::Sequential { header: known, scan: at };
        }
        if bytes[at + 1] == PROGRESSIVE_FRAME {
            if known.frame == 0 && has_frame_at(bytes, at) {
                return Start::Progressive { frame: at };
            }
            return Start::Nothing;
        }
        known = match read_segment(bytes, at, end, known) {
            Some(next) => next,
            None => {
                return Start::Nothing;
            },
        };
        from = end;
    }
}

/// How many scans there may be, from a place on.
pub open spec fn scans_from(bytes: Seq<u8>, from: int) -> nat
    decreases bytes.len() - from,
{
    if from + 1 >= bytes.len() {
        0
    } else {
        let others = scans_from(bytes, from + 1);
        if bytes[from] == MARKER && bytes[from + 1] == SCAN {
            others + 1
        } else {
            others
        }
    }
}

fn count_scans(bytes: &[u8]) -> (count: usize)
    ensures
        count == scans_from(bytes@, 0),
        count <= bytes@.len(),
{
    let mut count: usize = 0;
    let mut at: usize = 0;
    while at < bytes.len() && bytes.len() - at > 1
        invariant
            at <= bytes@.len(),
            count <= at,
            count + scans_from(bytes@, at as int) == scans_from(bytes@, 0),
        decreases bytes@.len() - at,
    {
        if bytes[at] == MARKER && bytes[at + 1] == SCAN {
            count = count + 1;
        }
        at = at + 1;
    }
    count
}

/// Something that looks like another segment of Huffman codes, behind a scan.
pub open spec fn is_later_code(bytes: Seq<u8>, scan: int, at: int) -> bool {
    scan <= at && at + 1 < bytes.len() && bytes[at] == MARKER && bytes[at + 1] == 0xC4
}

fn has_later_codes(bytes: &[u8], scan: usize) -> (found: bool)
    requires
        scan <= bytes@.len(),
    ensures
        found == exists|i: int| #[trigger] is_later_code(bytes@, scan as int, i),
{
    let mut at: usize = scan;
    while at < bytes.len() && bytes.len() - at > 1
        invariant
            scan <= at <= bytes@.len(),
            forall|k: int| scan <= k < at ==> !#[trigger] is_later_code(bytes@, scan as int, k),
        decreases bytes@.len() - at,
    {
        if bytes[at] == MARKER && bytes[at + 1] == 0xC4 {
            assert(is_later_code(bytes@, scan as int, at as int));
            return true;
        }
        at = at + 1;
    }
    false
}

/// No more blocks of a component than these are read in a scan.
pub open spec fn most_blocks(bytes: Seq<u8>, frame: int) -> int {
    (two_bytes(bytes, frame + 7) / 8 + 4) * (two_bytes(bytes, frame + 5) / 8 + 4)
}

/// The first coefficients stay within their limit even if all differences are
/// as large as the codes have them.
pub open spec fn is_small(bytes: Seq<u8>, header: Header, scan: int) -> bool {
    let bits: nat = if exists|i: int| #[trigger] is_later_code(bytes, scan, i) {
        15
    } else {
        header.bits as nat
    };
    most_blocks(bytes, header.frame as int) * scans_from(bytes, 0) * ((span(bits) - 1)
        * header.quantizer) <= COEFFICIENT_LIMIT
}

fn stays_small(bytes: &[u8], header: Header, scan: usize) -> (small: bool)
    requires
        is_frame(bytes@, header.frame as int),
        header.bits <= 15,
        header.quantizer >= 1,
        scan <= bytes@.len(),
    ensures
        small == is_small(bytes@, header, scan as int),
{
    let len: usize = bytes.len();
    let bits: u8 = if has_later_codes(bytes, scan) {
        15
    } else {
        header.bits
    };
    let columns: u64 = read_two(bytes, header.frame + 7) as u64 / 8 + 4;
    let rows: u64 = read_two(bytes, header.frame + 5) as u64 / 8 + 4;
    let scans: u64 = count_scans(bytes) as u64;
    let most: u64 = (span_of(bits) - 1) as u64;
    let quantizer: u64 = header.quantizer as u64;
    assert(columns * rows <= 8195 * 8195) by (nonlinear_arith)
        requires
            columns <= 8195,
            rows <= 8195,
    ;
    assert(most * quantizer <= 32767 * 65535) by (nonlinear_arith)
        requires
            most <= 32767,
            quantizer <= 65535,
    ;
    let blocks: u128 = (columns * rows) as u128;
    let step: u128 = (most * quantizer) as u128;
    assert(blocks * scans <= 67158025 * 0x1_0000_0000_0000_0000) by (nonlinear_arith)
        requires
            blocks <= 67158025,
            scans <= 0x1_0000_0000_0000_0000,
    ;
    let all: u128 = blocks * scans as u128;
    assert(all * step <= 67158025 * 0x1_0000_0000_0000_0000 * 2147385345) by (nonlinear_arith)
        requires
            all <= 67158025 * 0x1_0000_0000_0000_0000,
            step <= 2147385345,
    ;
    all * step <= COEFFICIENT_LIMIT as u128
}

/// Which component of a frame has a name, from one on.
pub open spec fn component_named(bytes: Seq<u8>, frame: int, name: u8, from: nat) -> Option<nat>
    decreases bytes[frame + 9] - from,
{
    if from >= bytes[frame + 9] {
        None
    } else if bytes[frame + 10 + 3 * from] == name {
        Some(from)
    } else {
        component_named(bytes, frame, name, from + 1)
    }
}

fn find_component(bytes: &[u8], frame: usize, name: u8) -> (found: Option<usize>)
    requires
        is_frame(bytes@, frame as int),
    ensures
        match found {
            Some(i) => component_named(bytes@, frame as int, name, 0) == Some(i as nat) && i
                < bytes@[frame + 9],
            None => component_named(bytes@, frame as int, name, 0) is None,
        },
{
    let len: usize = bytes.len();
    let mut i: usize = 0;
    while i < bytes[frame + 9] as usize
        invariant
            is_frame(bytes@, frame as int),
            len == bytes@.len(),
            i <= bytes@[frame + 9],
            component_named(bytes@, frame as int, name, 0) == component_named(
                bytes@,
                frame as int,
                name,
                i as nat,
            ),
        decreases bytes@[frame + 9] - i,
    {
        if bytes[frame + 10 + 3 * i] == name {
            return Some(i);
        }
        i = i + 1;
    }
    None
}

/// What a scan says of one of its components. The only component of a frame has
/// one block in a unit.
pub open spec fn part_at(bytes: Seq<u8>, header: Header, scan: int, i: int) -> Option<Part> {
    let frame = header.frame as int;
    let codes = bytes[scan + 6 + 2 * i];
    match component_named(bytes, frame, bytes[scan + 5 + 2 * i], 0) {
        None => None,
        Some(component) => {
            let first = header.first_codes.place(codes as int / 16);
            let others = header.other_codes.place(codes as int % 16);
            if codes / 16 > 3 || codes % 16 > 3 || first == 0 || others == 0 {
                None
            } else {
                Some(
                    Part {
                        first,
                        others,
                        blocks: if bytes[frame + 9] == 1 {
                            1
                        } else {
                            (across(bytes, frame, component as int) * down(
                                bytes,
                                frame,
                                component as int,
                            )) as usize
                        },
                    },
                )
            }
        },
    }
}

/// What a scan says of its components, from one on.
pub open spec fn parts_from(
    bytes: Seq<u8>,
    header: Header,
    scan: int,
    from: nat,
    before: Seq<Part>,
) -> Option<Seq<Part>>
    decreases bytes[header.frame + 9] - from,
{
    if from >= bytes[header.frame + 9] {
        Some(before)
    } else {
        match part_at(bytes, header, scan, from as int) {
            None => None,
            Some(part) => parts_from(bytes, header, scan, from + 1, before.push(part)),
        }
    }
}

fn read_parts(bytes: &[u8], header: Header, scan: usize) -> (out: Option<Vec<Part>>)
    requires
        is_frame(bytes@, header.frame as int),
        scan + 5 + 2 * bytes@[header.frame + 9] <= bytes@.len(),
    ensures
        match out {
            Some(parts) => parts_from(bytes@, header, scan as int, 0, Seq::empty()) == Some(parts@),
            None => parts_from(bytes@, header, scan as int, 0, Seq::empty()) is None,
        },
{
    let len: usize = bytes.len();
    let frame: usize = header.frame;
    let mut parts: Vec<Part> = Vec::new();
    let mut i: usize = 0;
    while i < bytes[frame + 9] as usize
        invariant
            is_frame(bytes@, frame as int),
            frame == header.frame,
            len == bytes@.len(),
            scan + 5 + 2 * bytes@[frame + 9] <= bytes@.len(),
            i <= bytes@[frame + 9],
            parts_from(bytes@, header, scan as int, 0, Seq::empty()) == parts_from(
                bytes@,
                header,
                scan as int,
                i as nat,
                parts@,
            ),
        decreases bytes@[frame + 9] - i,
    {
        let codes: u8 = bytes[scan + 6 + 2 * i];
        let component: usize = match find_component(bytes, frame, bytes[scan + 5 + 2 * i]) {
            Some(component) => component,
            None => {
                return None;
            },
        };
        if codes / 16 > 3 || codes % 16 > 3 {
            return None;
        }
        let first: usize = header.first_codes.get(codes / 16);
        let others: usize = header.other_codes.get(codes % 16);
        if first == 0 || others == 0 {
            return None;
        }
        let factors: u8 = bytes[frame + 11 + 3 * component];
        let blocks: usize = if bytes[frame + 9] == 1 {
            1
        } else {
            assert((factors / 16) * (factors % 16) <= 15 * 15) by (nonlinear_arith)
                requires
                    factors / 16 <= 15,
                    factors % 16 <= 15,
            ;
            (factors / 16) as usize * (factors % 16) as usize
        };
        parts.push(Part { first, others, blocks });
        i = i + 1;
    }
    Some(parts)
}

/// How many parts of a size cover a length.
pub open spec fn covering(length: int, size: int) -> int {
    (length + size - 1) / size
}

/// How many units a scan of all components of a frame has.
pub open spec fn units_of(bytes: Seq<u8>, frame: int) -> int {
    let components = bytes[frame + 9] as nat;
    let width = two_bytes(bytes, frame + 7);
    let height = two_bytes(bytes, frame + 5);
    if components == 1 {
        covering(width, 8) * covering(height, 8)
    } else {
        covering(width, 8 * widest(bytes, frame, components)) * covering(
            height,
            8 * tallest(bytes, frame, components),
        )
    }
}

/// A scan holds all components of the frame. Of the only component of a frame
/// the colors must not be told: else it is read as one of several.
pub open spec fn is_whole_scan(bytes: Seq<u8>, header: Header, scan: int) -> bool {
    let frame = header.frame as int;
    let components = bytes[frame + 9];
    &&& scan + 5 + 2 * components + 3 <= bytes.len()
    &&& bytes[scan + 4] == components
    &&& two_bytes(bytes, scan + 2) == 6 + 2 * components
    &&& components == 1 ==> !header.colors
    &&& widest(bytes, frame, components as nat) > 0
    &&& tallest(bytes, frame, components as nat) > 0
}

/// The only scan of a file is whole and undamaged, and no first coefficient in
/// it leaves its limit.
pub open spec fn is_undamaged(bytes: Seq<u8>, header: Header, scan: int) -> bool {
    let frame = header.frame as int;
    &&& bytes.len() < usize::MAX
    &&& is_whole_scan(bytes, header, scan)
    &&& parts_from(bytes, header, scan, 0, Seq::empty()) matches Some(parts) && units_follow(
        bytes,
        parts,
        header.quantizer as int,
        header.interval as nat,
        (Spot { at: (scan + 2 + two_bytes(bytes, scan + 2)) as usize, bit: 0 }),
        Seq::new(parts.len(), |i: int| 0),
        units_of(bytes, frame) as nat,
        header.interval as nat,
    )
}

fn stays_undamaged(bytes: &[u8], header: Header, scan: usize) -> (undamaged: bool)
    requires
        is_frame(bytes@, header.frame as int),
        header.quantizer >= 1,
        scan + 4 <= bytes@.len(),
    ensures
        undamaged == is_undamaged(bytes@, header, scan as int),
{
    let len: usize = bytes.len();
    let frame: usize = header.frame;
    let components: usize = bytes[frame + 9] as usize;
    if len == usize::MAX || len - scan < 8 + 2 * components || bytes[scan + 4] as usize
        != components || read_two(bytes, scan + 2) != 6 + 2 * components || (components == 1
        && header.colors) {
        return false;
    }
    let (across, down): (u8, u8) = find_factors(bytes, frame);
    if across == 0 || down == 0 {
        return false;
    }
    let parts: Vec<Part> = match read_parts(bytes, header, scan) {
        Some(parts) => parts,
        None => {
            return false;
        },
    };
    let width: u64 = read_two(bytes, frame + 7) as u64;
    let height: u64 = read_two(bytes, frame + 5) as u64;
    let (unit_width, unit_height): (u64, u64) = if components == 1 {
        (8, 8)
    } else {
        (8 * across as u64, 8 * down as u64)
    };
    let columns: u64 = (width + unit_width - 1) / unit_width;
    let rows: u64 = (height + unit_height - 1) / unit_height;
    assert(columns <= width + unit_width && rows <= height + unit_height) by (nonlinear_arith)
        requires
            columns == (width + unit_width - 1) as u64 / unit_width,
            rows == (height + unit_height - 1) as u64 / unit_height,
            unit_width >= 1,
            unit_height >= 1,
            width + unit_width <= 100000,
            height + unit_height <= 100000,
    ;
    assert(columns * rows <= 100000 * 100000) by (nonlinear_arith)
        requires
            columns <= 100000,
            rows <= 100000,
    ;
    follow_units(
        bytes,
        &parts,
        header.quantizer as u32,
        header.interval as usize,
        scan + 2 + read_two(bytes, scan + 2),
        columns * rows,
    )
}

/// A file that the decoder copes with: its frame does not trip it, and the first
/// coefficients of a sequential one stay within their limit, be it because the
/// image is small or because it is undamaged.
pub open spec fn is_coped_with(bytes: Seq<u8>) -> bool {
    match headers_end(bytes, 2, Header::none()) {
        Start::Nothing => false,
        Start::Progressive { frame } => !trips(bytes, frame as int),
        Start::Sequential { header, scan } => !trips(bytes, header.frame as int) && (is_small(
            bytes,
            header,
            scan as int,
        ) || is_undamaged(bytes, header, scan as int)),
    }
}

/// Whether the decoder copes with a file.
pub fn copes_with(bytes: &[u8]) -> (copes: bool)
    ensures
        copes == is_coped_with(bytes@),
{
    match read_headers(bytes) {
        Start::Nothing => false,
        Start::Progressive { frame } => !trips_at(bytes, frame),
        Start::Sequential { header, scan } => !trips_at(bytes, header.frame) && (stays_small(
            bytes,
            header,
            scan,
        ) || stays_undamaged(bytes, header, scan)),
    }
}

/// An image as cameras and programs write them is not turned away for its frame:
/// three components, with none sampled more often in a row than the first. So a
/// progressive one is always read, and a sequential one where it is small or
/// undamaged.
pub proof fn law_common_images_are_coped_with(bytes: Seq<u8>, frame: int)
    requires
        is_frame(bytes, frame),
        bytes[frame + 9] == 3,
        bytes[frame + 14] / 16 <= bytes[frame + 11] / 16,
        bytes[frame + 17] / 16 <= bytes[frame + 11] / 16,
    ensures
        !trips(bytes, frame),
        headers_end(bytes, 2, Header::none()) matches Start::Progressive { frame: found } ==> found
            == frame ==> is_coped_with(bytes),
        headers_end(bytes, 2, Header::none()) matches Start::Sequential { header, scan }
            ==> header.frame == frame ==> (is_coped_with(bytes) <==> is_small(
            bytes,
            header,
            scan as int,
        ) || is_undamaged(bytes, header, scan as int)),
{
    reveal_with_fuel(widest, 4);
    assert(across(bytes, frame, 0) == bytes[frame + 11] / 16);
    assert(across(bytes, frame, 1) == bytes[frame + 14] / 16);
    assert(across(bytes, frame, 2) == bytes[frame + 17] / 16);
    assert(widest(bytes, frame, 3) == across(bytes, frame, 0));
}

/// A gray image whose component is sampled once is not turned away for its
/// frame, unless it is progressive and tells the colors of four components.
pub proof fn law_gray_images_are_coped_with(bytes: Seq<u8>, frame: int)
    requires
        is_frame(bytes, frame),
        bytes[frame + 9] == 1,
        bytes[frame + 11] == 0x11,
        bytes[frame + 1] == 0xC2 ==> forall|i: int| !#[trigger] tells_colors(bytes, i, 2),
    ensures
        !trips(bytes, frame),
{
    reveal_with_fuel(widest, 2);
    assert(across(bytes, frame, 0) == bytes[frame + 11] / 16);
    assert(widest(bytes, frame, 1) == across(bytes, frame, 0));
}

} // verus!
