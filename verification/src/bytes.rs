//! Numbers as big-endian bytes, and byte strings.

use vstd::prelude::*;

verus! {

/// The powers of 256.
pub open spec fn pow256(n: nat) -> nat
    decreases n,
{
    if n == 0 {
        1
    } else {
        256 * pow256((n - 1) as nat)
    }
}

/// The last `len` digits of a number to the base 256, the highest first.
pub open spec fn be_bytes(n: nat, len: nat) -> Seq<u8>
    decreases len,
{
    if len == 0 {
        Seq::empty()
    } else {
        be_bytes(n / 256, (len - 1) as nat).push((n % 256) as u8)
    }
}

/// The number that digits to the base 256 spell, the highest first.
pub open spec fn be_value(s: Seq<u8>) -> nat
    decreases s.len(),
{
    if s.len() == 0 {
        0
    } else {
        be_value(s.drop_last()) * 256 + s.last() as nat
    }
}

/// `be_bytes` gives as many digits as asked for.
pub proof fn lemma_be_bytes_len(n: nat, len: nat)
    ensures
        be_bytes(n, len).len() == len,
    decreases len,
{
    if len > 0 {
        lemma_be_bytes_len(n / 256, (len - 1) as nat);
    }
}

/// Digits fit a power of the base.
pub proof fn lemma_be_value_bound(s: Seq<u8>)
    ensures
        be_value(s) < pow256(s.len()),
    decreases s.len(),
{
    if s.len() > 0 {
        lemma_be_value_bound(s.drop_last());
    }
}

/// A number that fits is read back from its digits.
pub proof fn lemma_be_bytes_read_back(n: nat, len: nat)
    requires
        n < pow256(len),
    ensures
        be_bytes(n, len).len() == len,
        be_value(be_bytes(n, len)) == n,
    decreases len,
{
    lemma_be_bytes_len(n, len);
    if len > 0 {
        lemma_be_bytes_read_back(n / 256, (len - 1) as nat);
        assert(be_bytes(n, len).drop_last() =~= be_bytes(n / 256, (len - 1) as nat));
    }
}

/// Digits are given back from the number they spell.
pub proof fn lemma_be_value_written_back(s: Seq<u8>)
    ensures
        be_bytes(be_value(s), s.len()) == s,
    decreases s.len(),
{
    if s.len() > 0 {
        let head = s.drop_last();
        lemma_be_value_written_back(head);
        let n = be_value(s);
        assert(n / 256 == be_value(head));
        assert(n % 256 == s.last() as nat);
        assert(be_bytes(n, s.len()) =~= s);
    } else {
        assert(be_bytes(be_value(s), 0) =~= s);
    }
}

/// The powers of 256 that the fields of this crate's packets need.
pub proof fn lemma_pow256_values()
    ensures
        pow256(2) == 0x1_0000,
        pow256(4) == 0x1_0000_0000,
        pow256(8) == 0x1_0000_0000_0000_0000,
{
    reveal_with_fuel(pow256, 9);
}

/// Appends the last `len` digits of a number to the base 256.
pub fn push_be(out: &mut Vec<u8>, n: u64, len: usize)
    ensures
        final(out)@ == old(out)@ + be_bytes(n as nat, len as nat),
    decreases len,
{
    if len > 0 {
        push_be(out, n / 256, len - 1);
        out.push((n % 256) as u8);
    }
    assert(out@ =~= old(out)@ + be_bytes(n as nat, len as nat));
}

proof fn lemma_pow256_grows(a: nat, b: nat)
    requires
        a <= b,
    ensures
        pow256(a) <= pow256(b),
    decreases b,
{
    if a < b {
        lemma_pow256_grows(a, (b - 1) as nat);
    }
}

/// Reads `len` digits to the base 256 from `from` on.
pub fn read_be(bytes: &[u8], from: usize, len: usize) -> (n: u64)
    requires
        len <= 8,
        from + len <= bytes@.len(),
    ensures
        n == be_value(bytes@.subrange(from as int, from + len)),
{
    let total: usize = bytes.len();
    let mut value: u64 = 0;
    let mut i: usize = 0;
    while i < len
        invariant
            i <= len <= 8,
            bytes@.len() == total,
            from + len <= bytes@.len(),
            value == be_value(bytes@.subrange(from as int, from + i)),
        decreases len - i,
    {
        proof {
            let s = bytes@.subrange(from as int, from + i);
            let t = bytes@.subrange(from as int, from + i + 1);
            assert(t.drop_last() =~= s);
            lemma_be_value_bound(t);
            lemma_pow256_grows(t.len(), 8);
            lemma_pow256_values();
        }
        value = value * 256 + bytes[from + i] as u64;
        i = i + 1;
    }
    value
}

/// Appends `from[start..end]`.
pub fn push_range(out: &mut Vec<u8>, from: &[u8], start: usize, end: usize)
    requires
        start <= end <= from@.len(),
    ensures
        final(out)@ == old(out)@ + from@.subrange(start as int, end as int),
{
    let mut i: usize = start;
    while i < end
        invariant
            start <= i <= end <= from@.len(),
            out@ == old(out)@ + from@.subrange(start as int, i as int),
        decreases end - i,
    {
        out.push(from[i]);
        i = i + 1;
        assert(out@ =~= old(out)@ + from@.subrange(start as int, i as int));
    }
}

/// Appends all of `from`.
pub fn push_all(out: &mut Vec<u8>, from: &[u8])
    ensures
        final(out)@ == old(out)@ + from@,
{
    push_range(out, from, 0, from.len());
    assert(from@.subrange(0, from@.len() as int) =~= from@);
}

/// The bytes `from[start..end]`.
pub fn copy_range(from: &[u8], start: usize, end: usize) -> (out: Vec<u8>)
    requires
        start <= end <= from@.len(),
    ensures
        out@ == from@.subrange(start as int, end as int),
{
    let mut out: Vec<u8> = Vec::new();
    push_range(&mut out, from, start, end);
    assert(out@ =~= from@.subrange(start as int, end as int));
    out
}

/// A copy of some bytes.
pub fn copy_all(from: &[u8]) -> (out: Vec<u8>)
    ensures
        out@ == from@,
{
    let mut out: Vec<u8> = Vec::new();
    push_all(&mut out, from);
    assert(out@ =~= from@);
    out
}

/// Whether `bytes[from..]` starts with all of `other`.
pub fn matches_at(bytes: &[u8], from: usize, other: &[u8]) -> (same: bool)
    requires
        from + other@.len() <= bytes@.len(),
    ensures
        same == (bytes@.subrange(from as int, from + other@.len()) == other@),
{
    let total: usize = bytes.len();
    let mut i: usize = 0;
    while i < other.len()
        invariant
            i <= other@.len(),
            bytes@.len() == total,
            from + other@.len() <= bytes@.len(),
            forall|k: int| 0 <= k < i ==> bytes@[from + k] == #[trigger] other@[k],
        decreases other@.len() - i,
    {
        if bytes[from + i] != other[i] {
            assert(bytes@.subrange(from as int, from + other@.len())[i as int] != other@[i as int]);
            return false;
        }
        i = i + 1;
    }
    assert(bytes@.subrange(from as int, from + other@.len()) =~= other@);
    true
}

/// Whether two byte strings are equal.
pub fn bytes_eq(a: &[u8], b: &[u8]) -> (same: bool)
    ensures
        same == (a@ == b@),
{
    if a.len() != b.len() {
        return false;
    }
    assert(a@.subrange(0, b@.len() as int) =~= a@);
    matches_at(a, 0, b)
}

/// A number of four bytes stands with its highest byte first.
pub proof fn law_highest_byte_comes_first(n: nat)
    requires
        n <= u32::MAX,
    ensures
        be_bytes(n, 4).len() == 4,
        be_bytes(n, 4)[0] == n / 0x100_0000,
        be_bytes(n, 4)[1] == n / 0x1_0000 % 256,
        be_bytes(n, 4)[2] == n / 0x100 % 256,
        be_bytes(n, 4)[3] == n % 256,
{
    reveal_with_fuel(be_bytes, 5);
}

/// Four bytes are read with the highest first.
pub proof fn law_bytes_are_read_from_the_highest(s: Seq<u8>)
    requires
        s.len() == 4,
    ensures
        be_value(s) == s[0] * 0x100_0000 + s[1] * 0x1_0000 + s[2] * 0x100 + s[3],
{
    reveal_with_fuel(be_value, 5);
}

} // verus!
