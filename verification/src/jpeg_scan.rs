//! The entropy-coded part of a sequential JPEG file, followed as far as its
//! first coefficients go.
//!
//! Each block of a component says by how much its first coefficient differs
//! from that of the block before. Nothing in the headers keeps the sum of these
//! differences from running away in a damaged file.

use vstd::prelude::*;

verus! {

/// The largest product of a first coefficient and its quantizer that rounding
/// and centring leave within 32 bits.
pub const COEFFICIENT_LIMIT: u64 = 2_147_482_619;

/// A bit of the entropy-coded part: a byte, and how many of its bits have gone.
#[derive(Clone, Copy, Debug, PartialEq, Eq, Structural)]
pub struct Spot {
    pub at: usize,
    pub bit: u8,
}

/// What a scan says of a component: where the counts of its Huffman codes
/// stand, for the first and for the other coefficients, and how many blocks of
/// it there are in a unit.
#[derive(Clone, Copy, Debug, PartialEq, Eq, Structural)]
pub struct Part {
    pub first: usize,
    pub others: usize,
    pub blocks: usize,
}

/// A power of two.
pub open spec fn span(n: nat) -> nat
    decreases n,
{
    if n == 0 {
        1
    } else {
        2 * span((n - 1) as nat)
    }
}

/// A power of two.
pub fn span_of(n: u8) -> (power: u32)
    requires
        n <= 15,
    ensures
        power == span(n as nat),
        1 <= power <= 0x8000,
{
    let mut power: u32 = 1;
    let mut i: u8 = 0;
    proof {
        reveal_with_fuel(span, 16);
    }
    while i < n
        invariant
            i <= n <= 15,
            power == span(i as nat),
            power >= 1,
            span(0) == 1,
            forall|k: nat| 0 < k <= 15 ==> #[trigger] span(k) <= 0x8000,
        decreases n - i,
    {
        i = i + 1;
        assert(span(i as nat) <= 0x8000);
        power = 2 * power;
    }
    power
}

/// The bit at a spot, and the spot behind it. A byte of all ones is followed by
/// one of nought; with anything else behind it, it begins a marker, and there
/// are no more bits.
pub open spec fn bit_at(bytes: Seq<u8>, spot: Spot) -> Option<(u8, Spot)> {
    if spot.at >= bytes.len() || spot.bit > 7 {
        None
    } else {
        let byte = bytes[spot.at as int];
        if byte == 0xFF && (spot.at + 1 >= bytes.len() || bytes[spot.at + 1] != 0) {
            None
        } else {
            let bit = (byte >> (7 - spot.bit) as u8) & 1;
            let next = if spot.bit < 7 {
                Spot { at: spot.at, bit: (spot.bit + 1) as u8 }
            } else if byte == 0xFF {
                Spot { at: (spot.at + 2) as usize, bit: 0 }
            } else {
                Spot { at: (spot.at + 1) as usize, bit: 0 }
            };
            Some((bit, next))
        }
    }
}

fn read_bit(bytes: &[u8], spot: Spot) -> (out: Option<(u8, Spot)>)
    ensures
        out == bit_at(bytes@, spot),
        out matches Some((bit, _)) ==> bit <= 1,
{
    if spot.at >= bytes.len() || spot.bit > 7 {
        return None;
    }
    let byte: u8 = bytes[spot.at];
    if byte == 0xFF && (spot.at + 1 >= bytes.len() || bytes[spot.at + 1] != 0) {
        return None;
    }
    let shift: u8 = 7 - spot.bit;
    let bit: u8 = (byte >> shift) & 1;
    assert(bit <= 1) by (bit_vector)
        requires
            bit == (byte >> shift) & 1,
    ;
    let next: Spot = if spot.bit < 7 {
        Spot { at: spot.at, bit: spot.bit + 1 }
    } else if byte == 0xFF {
        Spot { at: spot.at + 2, bit: 0 }
    } else {
        Spot { at: spot.at + 1, bit: 0 }
    };
    Some((bit, next))
}

/// The number that some bits make, behind those that make `before`.
pub open spec fn number_at(bytes: Seq<u8>, spot: Spot, bits: nat, before: int) -> Option<
    (int, Spot),
>
    decreases bits,
{
    if bits == 0 {
        Some((before, spot))
    } else {
        match bit_at(bytes, spot) {
            None => None,
            Some((bit, next)) => number_at(bytes, next, (bits - 1) as nat, 2 * before + bit),
        }
    }
}

fn read_number(bytes: &[u8], spot: Spot, bits: u8) -> (out: Option<(u32, Spot)>)
    requires
        bits <= 15,
    ensures
        match out {
            Some((number, next)) => number_at(bytes@, spot, bits as nat, 0) == Some(
                (number as int, next),
            ) && number < span(bits as nat),
            None => number_at(bytes@, spot, bits as nat, 0) is None,
        },
{
    let mut here: Spot = spot;
    let mut number: u32 = 0;
    let mut left: u8 = bits;
    proof {
        reveal_with_fuel(span, 16);
    }
    while left > 0
        invariant
            left <= bits <= 15,
            number < span((bits - left) as nat),
            forall|k: nat| 0 < k <= 15 ==> #[trigger] span(k) <= 0x8000,
            forall|k: nat| 0 < k <= 15 ==> #[trigger] span(k) == 2 * span((k - 1) as nat),
            number_at(bytes@, spot, bits as nat, 0) == number_at(
                bytes@,
                here,
                left as nat,
                number as int,
            ),
        decreases left,
    {
        let (bit, next): (u8, Spot) = match read_bit(bytes, here) {
            Some(found) => found,
            None => {
                return None;
            },
        };
        assert(span((bits - left + 1) as nat) == 2 * span((bits - left) as nat));
        number = 2 * number + bit as u32;
        here = next;
        left = left - 1;
    }
    Some((number, here))
}

/// The symbol that a Huffman code stands for. `counts` is where the numbers of
/// codes of each length stand, with the symbols behind them; `code` holds the
/// bits so far, `first` the first code of the length before, doubled, and
/// `index` the number of shorter codes.
pub open spec fn symbol_at(
    bytes: Seq<u8>,
    counts: int,
    spot: Spot,
    length: nat,
    code: int,
    first: int,
    index: int,
) -> Option<(u8, Spot)>
    decreases 17 - length,
{
    if length > 16 || counts + 16 > bytes.len() {
        None
    } else {
        match bit_at(bytes, spot) {
            None => None,
            Some((bit, next)) => {
                let longer = 2 * code + bit;
                let count = bytes[counts + length - 1];
                if first <= longer < first + count {
                    let symbol = counts + 16 + index + longer - first;
                    if symbol < bytes.len() {
                        Some((bytes[symbol], next))
                    } else {
                        None
                    }
                } else {
                    symbol_at(
                        bytes,
                        counts,
                        next,
                        length + 1,
                        longer,
                        2 * (first + count),
                        index + count,
                    )
                }
            },
        }
    }
}

/// The symbol at a spot.
pub open spec fn code_at(bytes: Seq<u8>, counts: int, spot: Spot) -> Option<(u8, Spot)> {
    symbol_at(bytes, counts, spot, 1, 0, 0, 0)
}

fn read_code(bytes: &[u8], counts: usize, spot: Spot) -> (out: Option<(u8, Spot)>)
    ensures
        out == code_at(bytes@, counts as int, spot),
{
    if bytes.len() < 16 || counts > bytes.len() - 16 {
        return None;
    }
    let mut here: Spot = spot;
    let mut length: usize = 1;
    let mut code: u32 = 0;
    let mut first: u32 = 0;
    let mut index: usize = 0;
    proof {
        reveal_with_fuel(span, 17);
    }
    while length <= 16
        invariant
            1 <= length <= 17,
            counts + 16 <= bytes@.len(),
            bytes@.len() <= usize::MAX,
            code < span((length - 1) as nat),
            first + 510 <= 510 * span((length - 1) as nat),
            index <= 255 * (length - 1),
            forall|k: nat| 0 < k <= 16 ==> #[trigger] span(k) <= 0x1_0000,
            forall|k: nat| 0 < k <= 16 ==> #[trigger] span(k) == 2 * span((k - 1) as nat),
            span(0) == 1,
            code_at(bytes@, counts as int, spot) == symbol_at(
                bytes@,
                counts as int,
                here,
                length as nat,
                code as int,
                first as int,
                index as int,
            ),
        decreases 17 - length,
    {
        let (bit, next): (u8, Spot) = match read_bit(bytes, here) {
            Some(found) => found,
            None => {
                return None;
            },
        };
        assert(span(length as nat) == 2 * span((length - 1) as nat));
        assert(span(length as nat) <= 0x1_0000);
        code = 2 * code + bit as u32;
        let count: u8 = bytes[counts + length - 1];
        if first <= code && code < first + count as u32 {
            let ahead: usize = 16 + index + (code - first) as usize;
            if ahead < bytes.len() - counts {
                return Some((bytes[counts + ahead], next));
            }
            return None;
        }
        first = 2 * (first + count as u32);
        index = index + count as usize;
        length = length + 1;
        here = next;
    }
    None
}

/// The spot behind the other coefficients of a block, of which `place` have
/// gone.
pub open spec fn others_end(bytes: Seq<u8>, counts: int, spot: Spot, place: nat) -> Option<Spot>
    decreases 80 - place,
{
    if place >= 64 {
        Some(spot)
    } else {
        match code_at(bytes, counts, spot) {
            None => None,
            Some((symbol, next)) => {
                let run = (symbol / 16) as nat;
                let bits = (symbol % 16) as nat;
                if bits == 0 {
                    if run == 15 {
                        others_end(bytes, counts, next, place + 16)
                    } else {
                        Some(next)
                    }
                } else if place + run > 63 {
                    None
                } else {
                    match number_at(bytes, next, bits, 0) {
                        None => None,
                        Some((_, behind)) => others_end(bytes, counts, behind, place + run + 1),
                    }
                }
            },
        }
    }
}

fn skip_others(bytes: &[u8], counts: usize, spot: Spot) -> (out: Option<Spot>)
    ensures
        out == others_end(bytes@, counts as int, spot, 1),
{
    let mut here: Spot = spot;
    let mut place: usize = 1;
    while place < 64
        invariant
            place <= 80,
            others_end(bytes@, counts as int, spot, 1) == others_end(
                bytes@,
                counts as int,
                here,
                place as nat,
            ),
        decreases 80 - place,
    {
        let (symbol, next): (u8, Spot) = match read_code(bytes, counts, here) {
            Some(found) => found,
            None => {
                return None;
            },
        };
        let run: usize = (symbol / 16) as usize;
        let bits: u8 = symbol % 16;
        if bits == 0 {
            if run != 15 {
                return Some(next);
            }
            here = next;
            place = place + 16;
        } else {
            if place + run > 63 {
                return None;
            }
            here = match read_number(bytes, next, bits) {
                Some((_, behind)) => behind,
                None => {
                    return None;
                },
            };
            place = place + run + 1;
        }
    }
    Some(here)
}

/// A difference of first coefficients: a number of so many bits, where a small
/// one stands for a negative difference.
pub open spec fn difference(bits: nat, number: int) -> int {
    if bits == 0 {
        0
    } else if 2 * number < span(bits) {
        number - span(bits) + 1
    } else {
        number
    }
}

/// A first coefficient stays within its limit.
pub open spec fn is_in_limit(coefficient: int, quantizer: int) -> bool {
    -COEFFICIENT_LIMIT <= coefficient * quantizer <= COEFFICIENT_LIMIT
}

/// The spot behind a block, and its first coefficient, which comes after the
/// one of the block before.
pub open spec fn block_end(
    bytes: Seq<u8>,
    part: Part,
    quantizer: int,
    spot: Spot,
    before: int,
) -> Option<(Spot, int)> {
    match code_at(bytes, part.first as int, spot) {
        None => None,
        Some((bits, next)) => if bits > 15 {
            None
        } else {
            match number_at(bytes, next, bits as nat, 0) {
                None => None,
                Some((number, behind)) => {
                    let coefficient = before + difference(bits as nat, number);
                    if !is_in_limit(coefficient, quantizer) {
                        None
                    } else {
                        match others_end(bytes, part.others as int, behind, 1) {
                            None => None,
                            Some(end) => Some((end, coefficient)),
                        }
                    }
                },
            }
        },
    }
}

fn skip_block(bytes: &[u8], part: Part, quantizer: u32, spot: Spot, before: i64) -> (out: Option<
    (Spot, i64),
>)
    requires
        1 <= quantizer <= 65535,
        is_in_limit(before as int, quantizer as int),
    ensures
        match out {
            Some((end, coefficient)) => block_end(
                bytes@,
                part,
                quantizer as int,
                spot,
                before as int,
            ) == Some((end, coefficient as int)) && is_in_limit(
                coefficient as int,
                quantizer as int,
            ),
            None => block_end(bytes@, part, quantizer as int, spot, before as int) is None,
        },
{
    let (bits, next): (u8, Spot) = match read_code(bytes, part.first, spot) {
        Some(found) => found,
        None => {
            return None;
        },
    };
    if bits > 15 {
        return None;
    }
    let (number, behind): (u32, Spot) = match read_number(bytes, next, bits) {
        Some(found) => found,
        None => {
            return None;
        },
    };
    let power: u32 = span_of(bits);
    let step: i64 = if bits == 0 {
        0
    } else if 2 * number < power {
        number as i64 - power as i64 + 1
    } else {
        number as i64
    };
    assert(-COEFFICIENT_LIMIT <= before <= COEFFICIENT_LIMIT) by (nonlinear_arith)
        requires
            -COEFFICIENT_LIMIT <= before * quantizer <= COEFFICIENT_LIMIT,
            1 <= quantizer,
    ;
    let coefficient: i64 = before + step;
    let limit: i64 = (COEFFICIENT_LIMIT / quantizer as u64) as i64;
    proof {
        let c = coefficient as int;
        let q = quantizer as int;
        let l = limit as int;
        let most = COEFFICIENT_LIMIT as int;
        assert(l == most / q);
        assert(is_in_limit(c, q) <==> -l <= c <= l) by {
            assert(l * q <= most < (l + 1) * q) by (nonlinear_arith)
                requires
                    l == most / q,
                    q >= 1,
                    most >= 0,
            ;
            if -l <= c <= l {
                assert(-most <= c * q <= most) by (nonlinear_arith)
                    requires
                        -l <= c <= l,
                        l * q <= most,
                        q >= 1,
                ;
            }
            if c > l {
                assert(c * q > most) by (nonlinear_arith)
                    requires
                        c >= l + 1,
                        most < (l + 1) * q,
                        q >= 1,
                ;
            }
            if c < -l {
                assert(c * q < -most) by (nonlinear_arith)
                    requires
                        c <= -l - 1,
                        most < (l + 1) * q,
                        q >= 1,
                ;
            }
        }
    }
    if coefficient > limit || coefficient < -limit {
        return None;
    }
    match skip_others(bytes, part.others, behind) {
        Some(end) => Some((end, coefficient)),
        None => None,
    }
}

/// The spot behind some blocks of a component, and the first coefficient of the
/// last of them.
pub open spec fn blocks_end(
    bytes: Seq<u8>,
    part: Part,
    quantizer: int,
    spot: Spot,
    before: int,
    blocks: nat,
) -> Option<(Spot, int)>
    decreases blocks,
{
    if blocks == 0 {
        Some((spot, before))
    } else {
        match block_end(bytes, part, quantizer, spot, before) {
            None => None,
            Some((next, coefficient)) => blocks_end(
                bytes,
                part,
                quantizer,
                next,
                coefficient,
                (blocks - 1) as nat,
            ),
        }
    }
}

fn skip_blocks(bytes: &[u8], part: Part, quantizer: u32, spot: Spot, before: i64) -> (out: Option<
    (Spot, i64),
>)
    requires
        1 <= quantizer <= 65535,
        is_in_limit(before as int, quantizer as int),
    ensures
        match out {
            Some((end, coefficient)) => blocks_end(
                bytes@,
                part,
                quantizer as int,
                spot,
                before as int,
                part.blocks as nat,
            ) == Some((end, coefficient as int)) && is_in_limit(
                coefficient as int,
                quantizer as int,
            ),
            None => blocks_end(
                bytes@,
                part,
                quantizer as int,
                spot,
                before as int,
                part.blocks as nat,
            ) is None,
        },
{
    let mut here: Spot = spot;
    let mut coefficient: i64 = before;
    let mut left: usize = part.blocks;
    while left > 0
        invariant
            1 <= quantizer <= 65535,
            is_in_limit(coefficient as int, quantizer as int),
            blocks_end(
                bytes@,
                part,
                quantizer as int,
                spot,
                before as int,
                part.blocks as nat,
            ) == blocks_end(
                bytes@,
                part,
                quantizer as int,
                here,
                coefficient as int,
                left as nat,
            ),
        decreases left,
    {
        let (next, after): (Spot, i64) = match skip_block(
            bytes,
            part,
            quantizer,
            here,
            coefficient,
        ) {
            Some(found) => found,
            None => {
                return None;
            },
        };
        here = next;
        coefficient = after;
        left = left - 1;
    }
    Some((here, coefficient))
}

/// The spot behind a unit, of which the first `done` components have gone, and
/// the last first coefficient of each component.
pub open spec fn unit_end(
    bytes: Seq<u8>,
    parts: Seq<Part>,
    quantizer: int,
    spot: Spot,
    before: Seq<int>,
    done: nat,
) -> Option<(Spot, Seq<int>)>
    decreases parts.len() - done,
{
    if done >= parts.len() {
        Some((spot, before))
    } else {
        let part = parts[done as int];
        match blocks_end(
            bytes,
            part,
            quantizer,
            spot,
            before[done as int],
            part.blocks as nat,
        ) {
            None => None,
            Some((next, coefficient)) => unit_end(
                bytes,
                parts,
                quantizer,
                next,
                before.update(done as int, coefficient),
                done + 1,
            ),
        }
    }
}

/// Whole numbers that are held as such.
pub open spec fn wholes(numbers: Seq<i64>) -> Seq<int> {
    numbers.map_values(|n: i64| n as int)
}

fn skip_unit(bytes: &[u8], parts: &Vec<Part>, quantizer: u32, spot: Spot, last: &mut Vec<i64>)
    -> (out: Option<Spot>)
    requires
        1 <= quantizer <= 65535,
        old(last)@.len() == parts@.len(),
        forall|i: int|
            0 <= i < old(last)@.len() ==> is_in_limit(
                #[trigger] old(last)@[i] as int,
                quantizer as int,
            ),
    ensures
        final(last)@.len() == parts@.len(),
        forall|i: int|
            0 <= i < final(last)@.len() ==> is_in_limit(
                #[trigger] final(last)@[i] as int,
                quantizer as int,
            ),
        ({
            let end = unit_end(
                bytes@,
                parts@,
                quantizer as int,
                spot,
                wholes(old(last)@),
                0,
            );
            match out {
                Some(next) => end == Some((next, wholes(final(last)@))),
                None => end is None,
            }
        }),
{
    let mut here: Spot = spot;
    let mut done: usize = 0;
    let ghost begun = wholes(last@);
    while done < parts.len()
        invariant
            done <= parts@.len(),
            1 <= quantizer <= 65535,
            last@.len() == parts@.len(),
            begun == wholes(old(last)@),
            forall|i: int|
                0 <= i < last@.len() ==> is_in_limit(
                    #[trigger] last@[i] as int,
                    quantizer as int,
                ),
            unit_end(bytes@, parts@, quantizer as int, spot, begun, 0) == unit_end(
                bytes@,
                parts@,
                quantizer as int,
                here,
                wholes(last@),
                done as nat,
            ),
        decreases parts@.len() - done,
    {
        assert(wholes(last@)[done as int] == last@[done as int]);
        let (next, coefficient): (Spot, i64) = match skip_blocks(
            bytes,
            parts[done],
            quantizer,
            here,
            last[done],
        ) {
            Some(found) => found,
            None => {
                return None;
            },
        };
        let ghost before = wholes(last@);
        last.set(done, coefficient);
        assert(wholes(last@) =~= before.update(done as int, coefficient as int));
        here = next;
        done = done + 1;
    }
    Some(here)
}

/// The byte behind the one that a spot stands in, or the one that it begins.
pub open spec fn behind(bytes: Seq<u8>, spot: Spot) -> int {
    if spot.bit == 0 || spot.at >= bytes.len() {
        spot.at as int
    } else if bytes[spot.at as int] == 0xFF {
        spot.at + 2
    } else {
        spot.at + 1
    }
}

fn byte_behind(bytes: &[u8], spot: Spot) -> (at: usize)
    requires
        bytes@.len() < usize::MAX,
    ensures
        at == behind(bytes@, spot),
{
    if spot.bit == 0 || spot.at >= bytes.len() {
        spot.at
    } else if bytes[spot.at] == 0xFF {
        spot.at + 2
    } else {
        spot.at + 1
    }
}

/// The spot behind a restart.
pub open spec fn restart_end(bytes: Seq<u8>, spot: Spot) -> Option<Spot> {
    let at = behind(bytes, spot);
    if at + 1 < bytes.len() && bytes[at] == 0xFF && 0xD0 <= bytes[at + 1] <= 0xD7 {
        Some(Spot { at: (at + 2) as usize, bit: 0 })
    } else {
        None
    }
}

/// Some units follow one another, with a restart after each `interval` of them
/// but the last, which is due in `due` units, and the end of the image follows
/// them.
pub open spec fn units_follow(
    bytes: Seq<u8>,
    parts: Seq<Part>,
    quantizer: int,
    interval: nat,
    spot: Spot,
    before: Seq<int>,
    units: nat,
    due: nat,
) -> bool
    decreases units,
{
    if units == 0 {
        let at = behind(bytes, spot);
        at + 1 < bytes.len() && bytes[at] == 0xFF && bytes[at + 1] == 0xD9
    } else {
        match unit_end(bytes, parts, quantizer, spot, before, 0) {
            None => false,
            Some((next, last)) => if interval > 0 && due <= 1 && units > 1 {
                match restart_end(bytes, next) {
                    None => false,
                    Some(again) => units_follow(
                        bytes,
                        parts,
                        quantizer,
                        interval,
                        again,
                        Seq::new(parts.len(), |i: int| 0),
                        (units - 1) as nat,
                        interval,
                    ),
                }
            } else {
                units_follow(
                    bytes,
                    parts,
                    quantizer,
                    interval,
                    next,
                    last,
                    (units - 1) as nat,
                    if due > 0 {
                        (due - 1) as nat
                    } else {
                        0
                    },
                )
            },
        }
    }
}

/// Whether a scan is followed to the end of the image.
pub fn follow_units(
    bytes: &[u8],
    parts: &Vec<Part>,
    quantizer: u32,
    interval: usize,
    begin: usize,
    units: u64,
) -> (followed: bool)
    requires
        1 <= quantizer <= 65535,
    ensures
        followed == (bytes@.len() < usize::MAX && units_follow(
            bytes@,
            parts@,
            quantizer as int,
            interval as nat,
            (Spot { at: begin, bit: 0 }),
            Seq::new(parts@.len(), |i: int| 0),
            units as nat,
            interval as nat,
        )),
{
    if bytes.len() == usize::MAX {
        return false;
    }
    let mut here: Spot = Spot { at: begin, bit: 0 };
    let mut last: Vec<i64> = Vec::new();
    for i in 0..parts.len()
        invariant
            last@ == Seq::new(i as nat, |k: int| 0i64),
    {
        last.push(0);
        assert(last@ =~= Seq::new((i + 1) as nat, |k: int| 0i64));
    }
    let ghost none = Seq::new(parts@.len(), |i: int| 0int);
    assert(wholes(last@) =~= none);
    let mut left: u64 = units;
    let mut due: usize = interval;
    while left > 0
        invariant
            1 <= quantizer <= 65535,
            bytes@.len() < usize::MAX,
            last@.len() == parts@.len(),
            none == Seq::new(parts@.len(), |i: int| 0int),
            forall|i: int|
                0 <= i < last@.len() ==> is_in_limit(
                    #[trigger] last@[i] as int,
                    quantizer as int,
                ),
            units_follow(
                bytes@,
                parts@,
                quantizer as int,
                interval as nat,
                (Spot { at: begin, bit: 0 }),
                none,
                units as nat,
                interval as nat,
            ) == units_follow(
                bytes@,
                parts@,
                quantizer as int,
                interval as nat,
                here,
                wholes(last@),
                left as nat,
                due as nat,
            ),
        decreases left,
    {
        let next: Spot = match skip_unit(bytes, parts, quantizer, here, &mut last) {
            Some(next) => next,
            None => {
                return false;
            },
        };
        if interval > 0 && due <= 1 && left > 1 {
            let at: usize = byte_behind(bytes, next);
            if bytes.len() == 0 || at >= bytes.len() - 1 || bytes[at] != 0xFF || bytes[at + 1] < 0xD0 || bytes[at + 1]
                > 0xD7 {
                return false;
            }
            here = Spot { at: at + 2, bit: 0 };
            for i in 0..parts.len()
                invariant
                    last@.len() == parts@.len(),
                    forall|k: int| 0 <= k < i ==> #[trigger] last@[k] == 0,
            {
                last.set(i, 0);
            }
            assert(wholes(last@) =~= none);
            due = interval;
        } else {
            here = next;
            if due > 0 {
                due = due - 1;
            }
        }
        left = left - 1;
    }
    let at: usize = byte_behind(bytes, here);
    bytes.len() > 0 && at < bytes.len() - 1 && bytes[at] == 0xFF && bytes[at + 1] == 0xD9
}

} // verus!
