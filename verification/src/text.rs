//! Strings as sequences of characters: comparison, trimming, decimal numbers.

use vstd::prelude::*;
use vstd::utf8::*;

verus! {

broadcast use vstd::string::group_string_axioms;

/// `String::push` appends one character to the end of the string.
pub assume_specification[ String::push ](s: &mut String, c: char)
    ensures
        final(s)@ == old(s)@.push(c),
;

/// The characters of a string slice.
pub fn chars_of(s: &str) -> (out: Vec<char>)
    ensures
        out@ == s@,
{
    let mut out: Vec<char> = Vec::new();
    for c in it: s.chars()
        invariant
            it.seq() == s@,
            out@ == s@.take(it.index() as int),
    {
        out.push(c);
    }
    assert(s@.take(s@.len() as int) =~= s@);
    out
}

/// The string made of the characters `chars[from..to]`.
pub fn string_of(chars: &Vec<char>, from: usize, to: usize) -> (out: String)
    requires
        from <= to <= chars@.len(),
    ensures
        out@ == chars@.subrange(from as int, to as int),
{
    let mut out = String::new();
    let mut i: usize = from;
    while i < to
        invariant
            from <= i <= to <= chars@.len(),
            out@ == chars@.subrange(from as int, i as int),
        decreases to - i,
    {
        out.push(chars[i]);
        i = i + 1;
        assert(out@ =~= chars@.subrange(from as int, i as int));
    }
    out
}

/// Two texts with one encoding are one text.
pub proof fn lemma_encoding_is_injective(a: Seq<char>, b: Seq<char>)
    requires
        encode_utf8(a) == encode_utf8(b),
    ensures
        a == b,
{
    encode_utf8_decode_utf8(a);
    encode_utf8_decode_utf8(b);
}

/// Whether two string slices hold the same text.
pub fn str_eq(a: &str, b: &str) -> (same: bool)
    ensures
        same == (a@ == b@),
{
    let left = a.as_bytes();
    let right = b.as_bytes();
    if left.len() != right.len() {
        return false;
    }
    let mut i: usize = 0;
    while i < left.len()
        invariant
            i <= left@.len(),
            left@.len() == right@.len(),
            left@ == encode_utf8(a@),
            right@ == encode_utf8(b@),
            left@.take(i as int) =~= right@.take(i as int),
        decreases left@.len() - i,
    {
        if left[i] != right[i] {
            return false;
        }
        i = i + 1;
        assert(left@.take(i as int) =~= left@.take(i - 1).push(left@[i - 1]));
        assert(right@.take(i as int) =~= right@.take(i - 1).push(right@[i - 1]));
    }
    proof {
        assert(left@.take(left@.len() as int) =~= left@);
        assert(right@.take(right@.len() as int) =~= right@);
        lemma_encoding_is_injective(a@, b@);
    }
    true
}

/// Byte strings in lexicographic order: at the first place where they differ
/// the first has the smaller byte, or the first is a prefix of the second.
pub open spec fn bytes_le(a: Seq<u8>, b: Seq<u8>) -> bool
    decreases a.len(),
{
    if a.len() == 0 {
        true
    } else if b.len() == 0 {
        false
    } else if a[0] != b[0] {
        a[0] < b[0]
    } else {
        bytes_le(a.skip(1), b.skip(1))
    }
}

/// Of two byte strings one comes first.
pub proof fn lemma_bytes_le_total(a: Seq<u8>, b: Seq<u8>)
    ensures
        bytes_le(a, b) || bytes_le(b, a),
    decreases a.len(),
{
    if a.len() > 0 && b.len() > 0 && a[0] == b[0] {
        lemma_bytes_le_total(a.skip(1), b.skip(1));
    }
}

/// Byte strings that each come before the other are equal.
pub proof fn lemma_bytes_le_antisymmetric(a: Seq<u8>, b: Seq<u8>)
    requires
        bytes_le(a, b),
        bytes_le(b, a),
    ensures
        a == b,
    decreases a.len(),
{
    if a.len() > 0 && b.len() > 0 {
        lemma_bytes_le_antisymmetric(a.skip(1), b.skip(1));
        assert(a =~= seq![a[0]] + a.skip(1));
        assert(b =~= seq![b[0]] + b.skip(1));
    } else {
        assert(a =~= b);
    }
}

/// Whether the text `a` comes no later than `b` in the order of their bytes.
pub fn str_le(a: &str, b: &str) -> (le: bool)
    ensures
        le == bytes_le(encode_utf8(a@), encode_utf8(b@)),
{
    let left = a.as_bytes();
    let right = b.as_bytes();
    let mut i: usize = 0;
    proof {
        assert(left@.skip(0) =~= left@);
        assert(right@.skip(0) =~= right@);
    }
    while i < left.len()
        invariant
            i <= left@.len(),
            i <= right@.len(),
            left@ == encode_utf8(a@),
            right@ == encode_utf8(b@),
            bytes_le(left@, right@) == bytes_le(left@.skip(i as int), right@.skip(i as int)),
        decreases left@.len() - i,
    {
        if i == right.len() {
            return false;
        }
        if left[i] != right[i] {
            return left[i] < right[i];
        }
        proof {
            assert(left@.skip(i as int).skip(1) =~= left@.skip(i + 1));
            assert(right@.skip(i as int).skip(1) =~= right@.skip(i + 1));
        }
        i = i + 1;
    }
    true
}

/// The characters with the Unicode property White_Space.
pub open spec fn is_white_space(c: char) -> bool {
    let u = c as u32;
    ||| 0x9 <= u <= 0xd
    ||| u == 0x20
    ||| u == 0x85
    ||| u == 0xa0
    ||| u == 0x1680
    ||| 0x2000 <= u <= 0x200a
    ||| u == 0x2028
    ||| u == 0x2029
    ||| u == 0x202f
    ||| u == 0x205f
    ||| u == 0x3000
}

/// Whether a character is white space.
pub fn char_is_white_space(c: char) -> (white: bool)
    ensures
        white == is_white_space(c),
{
    let u: u32 = c as u32;
    (0x9 <= u && u <= 0xd) || u == 0x20 || u == 0x85 || u == 0xa0 || u == 0x1680 || (0x2000 <= u
        && u <= 0x200a) || u == 0x2028 || u == 0x2029 || u == 0x202f || u == 0x205f || u == 0x3000
}

/// A text of white space alone: what trimming leaves empty.
pub open spec fn is_blank(s: Seq<char>) -> bool {
    forall|i: int| 0 <= i < s.len() ==> is_white_space(#[trigger] s[i])
}

/// Whether a text is empty once trimmed.
pub fn str_is_blank(s: &str) -> (blank: bool)
    ensures
        blank == is_blank(s@),
{
    let chars = chars_of(s);
    let mut i: usize = 0;
    while i < chars.len()
        invariant
            i <= chars@.len(),
            chars@ == s@,
            forall|k: int| 0 <= k < i ==> is_white_space(#[trigger] chars@[k]),
        decreases chars@.len() - i,
    {
        if !char_is_white_space(chars[i]) {
            return false;
        }
        i = i + 1;
    }
    true
}

/// The part of a text between its first and last characters that are not white space.
pub open spec fn trimmed(s: Seq<char>) -> Seq<char>
    decreases s.len(),
{
    if s.len() == 0 {
        s
    } else if is_white_space(s.first()) {
        trimmed(s.skip(1))
    } else if is_white_space(s.last()) {
        trimmed(s.drop_last())
    } else {
        s
    }
}

/// The text with the white space at both ends taken off.
pub fn trim(s: &str) -> (out: &str)
    ensures
        out@ == trimmed(s@),
{
    let chars = chars_of(s);
    let mut from: usize = 0;
    assert(s@.subrange(0, s@.len() as int) =~= s@);
    while from < chars.len() && char_is_white_space(chars[from])
        invariant
            from <= chars@.len(),
            chars@ == s@,
            trimmed(s@) == trimmed(s@.subrange(from as int, s@.len() as int)),
        decreases chars@.len() - from,
    {
        proof {
            let rest = s@.subrange(from as int, s@.len() as int);
            assert(rest.first() == s@[from as int]);
            assert(rest.skip(1) =~= s@.subrange(from + 1, s@.len() as int));
        }
        from = from + 1;
    }
    let mut to: usize = chars.len();
    while to > from && char_is_white_space(chars[to - 1])
        invariant
            from <= to <= chars@.len(),
            chars@ == s@,
            from < to ==> !is_white_space(s@[from as int]),
            trimmed(s@) == trimmed(s@.subrange(from as int, to as int)),
        decreases to,
    {
        proof {
            let rest = s@.subrange(from as int, to as int);
            assert(rest.first() == s@[from as int]);
            assert(rest.last() == s@[to - 1]);
            assert(rest.drop_last() =~= s@.subrange(from as int, to - 1));
        }
        to = to - 1;
    }
    proof {
        let rest = s@.subrange(from as int, to as int);
        if from < to {
            assert(rest.first() == s@[from as int]);
            assert(rest.last() == s@[to - 1]);
        }
    }
    s.substring_char(from, to)
}

/// A text is blank exactly where trimming it leaves nothing.
pub proof fn lemma_blank_is_trimmed_empty(s: Seq<char>)
    ensures
        is_blank(s) == (trimmed(s).len() == 0),
    decreases s.len(),
{
    if s.len() > 0 {
        if is_white_space(s.first()) {
            lemma_blank_is_trimmed_empty(s.skip(1));
            if is_blank(s.skip(1)) {
                assert forall|i: int| 0 <= i < s.len() implies is_white_space(#[trigger] s[i]) by {
                    if i > 0 {
                        assert(s.skip(1)[i - 1] == s[i]);
                    }
                }
            }
        } else {
            assert(!is_white_space(s[0]));
            if is_white_space(s.last()) {
                lemma_blank_is_trimmed_empty(s.drop_last());
                assert(s.drop_last()[0] == s[0]);
            }
        }
    }
}

/// The character of a decimal digit.
pub open spec fn digit_char(d: int) -> char {
    (d + 48) as char
}

/// A number in decimal, without leading zeros.
pub open spec fn decimal(n: nat) -> Seq<char>
    decreases n,
{
    if n < 10 {
        seq![digit_char(n as int)]
    } else {
        decimal(n / 10).push(digit_char((n % 10) as int))
    }
}

/// The character of a digit below ten.
pub fn digit_to_char(d: u8) -> (c: char)
    requires
        d < 10,
    ensures
        c == digit_char(d as int),
{
    (d + 48) as char
}

/// Appends a number in decimal.
pub fn push_decimal(out: &mut String, n: u64)
    ensures
        final(out)@ == old(out)@ + decimal(n as nat),
    decreases n,
{
    if n < 10 {
        out.push(digit_to_char(n as u8));
        assert(out@ =~= old(out)@ + decimal(n as nat));
    } else {
        push_decimal(out, n / 10);
        out.push(digit_to_char((n % 10) as u8));
        assert(out@ =~= old(out)@ + decimal(n as nat));
    }
}

/// Whether a character is one of `0` to `9`.
pub open spec fn is_digit(c: char) -> bool {
    '0' <= c <= '9'
}

/// A text of decimal digits alone.
pub open spec fn all_digits(s: Seq<char>) -> bool {
    forall|i: int| 0 <= i < s.len() ==> is_digit(#[trigger] s[i])
}

/// The number that a text of digits spells.
pub open spec fn digits_value(s: Seq<char>) -> nat
    decreases s.len(),
{
    if s.len() == 0 {
        0
    } else {
        digits_value(s.drop_last()) * 10 + (s.last() as int - 48) as nat
    }
}

/// The text behind one leading `+`, where there is one.
pub open spec fn without_plus(s: Seq<char>) -> Seq<char> {
    if s.len() > 0 && s[0] == '+' {
        s.skip(1)
    } else {
        s
    }
}

/// What an unsigned number of at most `max` is read as: an optional `+`, then
/// one digit or more.
pub open spec fn unsigned_value(s: Seq<char>, max: nat) -> Option<nat> {
    let digits = without_plus(s);
    if digits.len() > 0 && all_digits(digits) && digits_value(digits) <= max {
        Some(digits_value(digits))
    } else {
        None
    }
}

proof fn lemma_digits_value_grows(s: Seq<char>, k: int)
    requires
        0 <= k <= s.len(),
    ensures
        digits_value(s.take(k)) <= digits_value(s),
    decreases s.len(),
{
    if k == s.len() {
        assert(s.take(k) =~= s);
    } else {
        lemma_digits_value_grows(s.drop_last(), k);
        assert(s.drop_last().take(k) =~= s.take(k));
    }
}

/// Reads the digits `chars[from..]`; `None` where there is none, where another
/// character stands among them or where the number is over `max`.
fn parse_digits(chars: &Vec<char>, from: usize, max: u64) -> (out: Option<u64>)
    requires
        from <= chars@.len(),
    ensures
        ({
            let digits = chars@.skip(from as int);
            match out {
                Some(n) => digits.len() > 0 && all_digits(digits) && n == digits_value(digits)
                    && n <= max,
                None => !(digits.len() > 0 && all_digits(digits) && digits_value(digits) <= max),
            }
        }),
{
    let ghost digits = chars@.skip(from as int);
    if from == chars.len() {
        return None;
    }
    let mut value: u64 = 0;
    let mut i: usize = from;
    while i < chars.len()
        invariant
            from <= i <= chars@.len(),
            digits == chars@.skip(from as int),
            value <= max,
            value == digits_value(digits.take(i - from)),
            forall|k: int| 0 <= k < i - from ==> is_digit(#[trigger] digits[k]),
        decreases chars@.len() - i,
    {
        let c: char = chars[i];
        assert(digits[i - from] == c);
        if c < '0' || '9' < c {
            return None;
        }
        let d: u64 = (c as u32 - 48) as u64;
        proof {
            assert(digits.take(i - from + 1).drop_last() =~= digits.take(i - from));
            lemma_digits_value_grows(digits, i - from + 1);
        }
        if value > (u64::MAX - d) / 10 || value * 10 + d > max {
            return None;
        }
        value = value * 10 + d;
        i = i + 1;
    }
    assert(digits.take(digits.len() as int) =~= digits);
    Some(value)
}

/// Reads an unsigned number of at most `max`: an optional `+`, then digits.
pub fn parse_unsigned(s: &str, max: u64) -> (out: Option<u64>)
    ensures
        match out {
            Some(n) => unsigned_value(s@, max as nat) == Some(n as nat),
            None => unsigned_value(s@, max as nat) is None,
        },
{
    let chars = chars_of(s);
    if chars.len() > 0 && chars[0] == '+' {
        parse_digits(&chars, 1, max)
    } else {
        assert(chars@.skip(0) =~= chars@);
        parse_digits(&chars, 0, max)
    }
}

/// What a number is written as reads back as that number.
pub proof fn lemma_decimal_reads_back(n: nat)
    ensures
        decimal(n).len() > 0,
        all_digits(decimal(n)),
        digits_value(decimal(n)) == n,
        decimal(n)[0] != '+',
    decreases n,
{
    reveal_with_fuel(digits_value, 2);
    if n < 10 {
        assert(decimal(n).drop_last() =~= Seq::<char>::empty());
    } else {
        lemma_decimal_reads_back(n / 10);
        assert(decimal(n).drop_last() =~= decimal(n / 10));
        assert(decimal(n)[0] == decimal(n / 10)[0]);
        assert forall|i: int| 0 <= i < decimal(n).len() implies is_digit(
            #[trigger] decimal(n)[i],
        ) by {
            if i < decimal(n / 10).len() {
                assert(decimal(n)[i] == decimal(n / 10)[i]);
            }
        }
    }
}

/// A text has another one in it at a place.
pub open spec fn has_at(s: Seq<char>, part: Seq<char>, at: int) -> bool {
    0 <= at && at + part.len() <= s.len() && s.subrange(at, at + part.len()) == part
}

/// A text has another one in it.
pub open spec fn has_part(s: Seq<char>, part: Seq<char>) -> bool {
    exists|at: int| has_at(s, part, at)
}

fn matches_part(s: &Vec<char>, part: &Vec<char>, at: usize) -> (same: bool)
    requires
        at + part@.len() <= s@.len(),
    ensures
        same == has_at(s@, part@, at as int),
{
    let total: usize = s.len();
    let mut i: usize = 0;
    while i < part.len()
        invariant
            i <= part@.len(),
            at + part@.len() <= s@.len(),
            total == s@.len(),
            forall|k: int| 0 <= k < i ==> s@[at + k] == part@[k],
        decreases part@.len() - i,
    {
        if s[at + i] != part[i] {
            assert(s@.subrange(at as int, at + part@.len())[i as int] != part@[i as int]);
            return false;
        }
        i = i + 1;
    }
    assert(s@.subrange(at as int, at + part@.len()) =~= part@);
    true
}

/// Whether a text has another one in it.
pub fn contains(s: &str, part: &str) -> (found: bool)
    ensures
        found == has_part(s@, part@),
{
    let chars: Vec<char> = chars_of(s);
    let piece: Vec<char> = chars_of(part);
    let total: usize = chars.len();
    if piece.len() > total {
        return false;
    }
    let last: usize = total - piece.len();
    let mut at: usize = 0;
    while at <= last
        invariant
            chars@ == s@,
            piece@ == part@,
            total == s@.len(),
            last + part@.len() == total,
            at <= last,
            forall|k: int| 0 <= k < at ==> !#[trigger] has_at(s@, part@, k),
        decreases last - at,
    {
        if matches_part(&chars, &piece, at) {
            return true;
        }
        if at == last {
            return false;
        }
        at = at + 1;
    }
    false
}

/// What a signed number is read as: a `-` and digits, or what an unsigned
/// number is read as; it must fit 32 bits.
pub open spec fn signed_value(s: Seq<char>) -> Option<int> {
    if s.len() > 0 && s[0] == '-' {
        let digits = s.skip(1);
        if digits.len() > 0 && all_digits(digits) && digits_value(digits) <= 0x8000_0000 {
            Some(-(digits_value(digits) as int))
        } else {
            None
        }
    } else {
        match unsigned_value(s, 0x7fff_ffff) {
            Some(n) => Some(n as int),
            None => None,
        }
    }
}

/// Reads a signed number of 32 bits.
pub fn parse_i32(s: &str) -> (out: Option<i32>)
    ensures
        match out {
            Some(n) => signed_value(s@) == Some(n as int),
            None => signed_value(s@) is None,
        },
{
    let chars = chars_of(s);
    if chars.len() > 0 && chars[0] == '-' {
        match parse_digits(&chars, 1, 0x8000_0000) {
            Some(n) => {
                let value: i64 = 0 - n as i64;
                Some(value as i32)
            },
            None => None,
        }
    } else {
        match parse_unsigned(s, 0x7fff_ffff) {
            Some(n) => Some(n as i32),
            None => None,
        }
    }
}

/// A character, small where it is a capital letter of ASCII.
pub open spec fn lower(c: char) -> char {
    if 'A' <= c <= 'Z' {
        (c as u32 + 32) as char
    } else {
        c
    }
}

/// A text with the capital letters of ASCII made small.
pub open spec fn lowered(s: Seq<char>) -> Seq<char> {
    s.map_values(|c: char| lower(c))
}

/// A character, small where it is a capital letter of ASCII.
pub fn lower_char(c: char) -> (small: char)
    ensures
        small == lower(c),
{
    if 'A' <= c && c <= 'Z' {
        (c as u8 + 32) as char
    } else {
        c
    }
}

/// A text with the capital letters of ASCII made small.
pub fn to_lower(s: &str) -> (small: String)
    ensures
        small@ == lowered(s@),
{
    let chars: Vec<char> = chars_of(s);
    let mut small: Vec<char> = Vec::new();
    for i in 0..chars.len()
        invariant
            small@ == lowered(chars@.take(i as int)),
    {
        small.push(lower_char(chars[i]));
        assert(chars@.take(i + 1) == chars@.take(i as int).push(chars@[i as int]));
        assert(small@ == lowered(chars@.take(i + 1)));
    }
    assert(chars@.take(chars@.len() as int) == chars@);
    let total: usize = small.len();
    let text = string_of(&small, 0, total);
    assert(small@.subrange(0, total as int) == small@);
    text
}

/// Some texts, with another one between any two.
pub open spec fn joined(parts: Seq<Seq<char>>, between: Seq<char>) -> Seq<char>
    decreases parts.len(),
{
    if parts.len() == 0 {
        Seq::empty()
    } else if parts.len() == 1 {
        parts[0]
    } else {
        joined(parts.drop_last(), between) + between + parts.last()
    }
}

/// The views of some texts.
pub open spec fn texts(parts: Seq<String>) -> Seq<Seq<char>> {
    parts.map_values(|part: String| part@)
}

/// Joins some texts, with another one between any two.
pub fn join(parts: &Vec<String>, between: &str) -> (out: String)
    ensures
        out@ == joined(texts(parts@), between@),
{
    let mut out = String::new();
    for i in 0..parts.len()
        invariant
            out@ == joined(texts(parts@.take(i as int)), between@),
    {
        if i > 0 {
            out.append(between);
        }
        out.append(parts[i].as_str());
        proof {
            let so_far = texts(parts@.take(i + 1));
            assert(so_far.drop_last() == texts(parts@.take(i as int)));
            assert(so_far.last() == parts@[i as int]@);
            if i == 0 {
                assert(out@ == parts@[0]@);
            }
        }
    }
    assert(parts@.take(parts@.len() as int) == parts@);
    out
}

/// A text is trimmed to what stands between its outer blanks: what is left
/// neither begins nor ends with one, stands in the text, and is followed and
/// preceded by blanks alone.
pub proof fn law_trimming_takes_the_outer_blanks(s: Seq<char>) -> (at: int)
    ensures
        0 <= at,
        at + trimmed(s).len() <= s.len(),
        trimmed(s) == s.subrange(at, at + trimmed(s).len()),
        trimmed(s).len() > 0 ==> !is_white_space(trimmed(s).first()) && !is_white_space(
            trimmed(s).last(),
        ),
        forall|i: int|
            0 <= i < at || at + trimmed(s).len() <= i < s.len() ==> is_white_space(#[trigger] s[i]),
    decreases s.len(),
{
    let kept = trimmed(s);
    if s.len() == 0 {
        assert(kept =~= s.subrange(0, 0));
        0
    } else if is_white_space(s.first()) {
        let rest = s.skip(1);
        let at = law_trimming_takes_the_outer_blanks(rest);
        assert(kept =~= s.subrange(at + 1, at + 1 + kept.len()));
        assert forall|i: int|
            0 <= i < at + 1 || at + 1 + kept.len() <= i < s.len() implies is_white_space(
            #[trigger] s[i],
        ) by {
            if i > 0 {
                assert(rest[i - 1] == s[i]);
            }
        }
        at + 1
    } else if is_white_space(s.last()) {
        let rest = s.drop_last();
        let at = law_trimming_takes_the_outer_blanks(rest);
        assert(kept =~= s.subrange(at, at + kept.len()));
        assert forall|i: int|
            0 <= i < at || at + kept.len() <= i < s.len() implies is_white_space(
            #[trigger] s[i],
        ) by {
            if i < rest.len() {
                assert(rest[i] == s[i]);
            }
        }
        at
    } else {
        assert(kept =~= s.subrange(0, s.len() as int));
        0
    }
}

} // verus!
