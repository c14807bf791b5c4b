//! The keys and buttons that are held down.

use std::collections::BTreeSet;
use vstd::prelude::*;
use vstd::std_specs::btree::increasing_seq;
use vstd::std_specs::cmp::OrdSpec;
use vstd::std_specs::iter::IteratorSpec;

verus! {

broadcast use vstd::laws_cmp::group_laws_cmp;

/// The codes of a set that lie below a bound, from the lowest up.
pub open spec fn ascending_below(codes: Set<u16>, bound: nat) -> Seq<u16>
    decreases bound,
{
    if bound == 0 {
        Seq::empty()
    } else {
        let code = (bound - 1) as u16;
        let lower = ascending_below(codes, (bound - 1) as nat);
        if codes.contains(code) {
            lower.push(code)
        } else {
            lower
        }
    }
}

/// The codes of a set, from the lowest up.
pub open spec fn ascending(codes: Set<u16>) -> Seq<u16> {
    ascending_below(codes, 0x1_0000)
}

proof fn lemma_is_ascending_below(list: Seq<u16>, codes: Set<u16>, bound: nat)
    requires
        bound <= 0x1_0000,
        forall|i: int, j: int| 0 <= i < j < list.len() ==> list[i] < list[j],
        forall|c: u16| #[trigger] list.contains(c) <==> codes.contains(c) && c < bound,
    ensures
        list == ascending_below(codes, bound),
    decreases bound,
{
    if bound == 0 {
        if list.len() > 0 {
            assert(list.contains(list[0]));
        }
    } else {
        let code = (bound - 1) as u16;
        if codes.contains(code) {
            assert(list.contains(code));
            let at = choose|i: int| 0 <= i < list.len() && list[i] == code;
            if at < list.len() - 1 {
                assert(list.contains(list[at + 1]));
            }
            let lower = list.drop_last();
            assert(list == lower.push(code));
            assert forall|c: u16| #[trigger]
                lower.contains(c) <==> codes.contains(c) && c < bound - 1 by {
                if lower.contains(c) {
                    let i = choose|i: int| 0 <= i < lower.len() && lower[i] == c;
                    assert(list[i] == c && list[i] < list[at]);
                    assert(list.contains(c));
                }
                if codes.contains(c) && c < bound - 1 {
                    assert(list.contains(c));
                    let i = choose|i: int| 0 <= i < list.len() && list[i] == c;
                    assert(lower[i] == c);
                }
            }
            lemma_is_ascending_below(lower, codes, (bound - 1) as nat);
        } else {
            assert forall|c: u16| #[trigger]
                list.contains(c) <==> codes.contains(c) && c < bound - 1 by {
                if codes.contains(c) && c < bound {
                    assert(c != code);
                }
            }
            lemma_is_ascending_below(list, codes, (bound - 1) as nat);
        }
    }
}

/// A code is listed if and only if it is in the set.
pub proof fn lemma_ascending_lists_all(codes: Set<u16>, bound: nat, code: u16)
    requires
        bound <= 0x1_0000,
    ensures
        ascending_below(codes, bound).contains(code) <==> codes.contains(code) && code < bound,
    decreases bound,
{
    if bound > 0 {
        let lower = ascending_below(codes, (bound - 1) as nat);
        let last = (bound - 1) as u16;
        lemma_ascending_lists_all(codes, (bound - 1) as nat, code);
        if codes.contains(last) {
            let whole = lower.push(last);
            if whole.contains(code) {
                let i = choose|i: int| 0 <= i < whole.len() && whole[i] == code;
                if i < lower.len() {
                    assert(lower[i] == code);
                }
            }
            if lower.contains(code) {
                let i = choose|i: int| 0 <= i < lower.len() && lower[i] == code;
                assert(whole[i] == code);
            }
            assert(whole[lower.len() as int] == last);
        }
    }
}

/// Codes of keys or buttons that are held down.
#[derive(Debug)]
pub struct HeldCodes {
    codes: BTreeSet<u16>,
}

impl View for HeldCodes {
    type V = Set<u16>;

    closed spec fn view(&self) -> Set<u16> {
        self.codes@
    }
}

impl Default for HeldCodes {
    /// Nothing is held.
    fn default() -> (held: Self)
        ensures
            held@ == Set::<u16>::empty(),
    {
        HeldCodes { codes: BTreeSet::new() }
    }
}

/// What is held once a code went down or up.
pub open spec fn held_after(held: Set<u16>, code: u16, down: bool) -> Set<u16> {
    if down {
        held.insert(code)
    } else {
        held.remove(code)
    }
}

impl HeldCodes {
    /// Notes that a code went down or up.
    pub fn update(&mut self, code: u16, down: bool)
        ensures
            final(self)@ == held_after(old(self)@, code, down),
    {
        if down {
            self.codes.insert(code);
        } else {
            self.codes.remove(&code);
        }
    }

    /// Whether a code is held.
    pub fn is_held(&self, code: u16) -> (held: bool)
        ensures
            held == self@.contains(code),
    {
        self.codes.contains(&code)
    }

    /// Whether nothing is held.
    pub fn is_empty(&self) -> (empty: bool)
        ensures
            empty == (self@ == Set::<u16>::empty()),
    {
        let empty = self.codes.is_empty();
        assert(empty == (self@ == Set::<u16>::empty()));
        empty
    }

    /// Forgets what is held.
    pub fn clear(&mut self)
        ensures
            final(self)@ == Set::<u16>::empty(),
    {
        self.codes.clear();
    }

    /// All codes that are held, from the lowest up.
    pub fn list(&self) -> (list: Vec<u16>)
        ensures
            list@ == ascending(self@),
    {
        let mut list: Vec<u16> = Vec::new();
        for code in it: self.codes.iter()
            invariant
                list@.len() == it.index(),
                forall|i: int| 0 <= i < list@.len() ==> list@[i] == *it.seq()[i],
        {
            list.push(*code);
        }
        proof {
            let order = self.codes.iter().remaining();
            assert(list@ == order.unref());
            assert(vstd::laws_cmp::obeys_cmp::<&u16>());
            assert(increasing_seq(order));
            assert forall|i: int, j: int| 0 <= i < j < list@.len() implies list@[i] < list@[j] by {
                assert(OrdSpec::cmp_spec(&order[i], &order[j]) is Less);
                assert(*order[i] == list@[i] && *order[j] == list@[j]);
            }
            assert forall|c: u16| #[trigger]
                list@.contains(c) <==> self@.contains(c) && c < 0x1_0000 by {
                assert(order.unref().to_set().contains(c) <==> order.unref().contains(c));
            }
            lemma_is_ascending_below(list@, self@, 0x1_0000);
        }
        list
    }
}

/// What is held is listed once each, from the lowest code up.
pub proof fn law_list_is_ascending(codes: Set<u16>, code: u16)
    ensures
        ascending(codes).contains(code) <==> codes.contains(code),
        forall|i: int, j: int|
            0 <= i < j < ascending(codes).len() ==> ascending(codes)[i] < ascending(codes)[j],
{
    lemma_ascending_lists_all(codes, 0x1_0000, code);
    lemma_ascending_is_sorted(codes, 0x1_0000);
}

proof fn lemma_ascending_is_sorted(codes: Set<u16>, bound: nat)
    requires
        bound <= 0x1_0000,
    ensures
        forall|i: int, j: int|
            0 <= i < j < ascending_below(codes, bound).len() ==> ascending_below(codes, bound)[i]
                < ascending_below(codes, bound)[j],
        forall|i: int|
            0 <= i < ascending_below(codes, bound).len() ==> (#[trigger] ascending_below(
                codes,
                bound,
            )[i]) < bound,
    decreases bound,
{
    if bound > 0 {
        lemma_ascending_is_sorted(codes, (bound - 1) as nat);
        let lower = ascending_below(codes, (bound - 1) as nat);
        let list = ascending_below(codes, bound);
        assert forall|i: int| 0 <= i < list.len() implies (#[trigger] list[i]) < bound by {
            if i < lower.len() {
                assert(list[i] == lower[i]);
            }
        }
        assert forall|i: int, j: int| 0 <= i < j < list.len() implies list[i] < list[j] by {
            assert(list[i] == lower[i]);
            if j < lower.len() {
                assert(list[j] == lower[j]);
            }
        }
    }
}

/// A code is held from its press to its release, and the others as before.
pub proof fn law_code_is_held_while_down(held: Set<u16>, code: u16, down: bool, other: u16)
    ensures
        held_after(held, code, down).contains(code) == down,
        other != code ==> held_after(held, code, down).contains(other) == held.contains(other),
{
}

} // verus!
