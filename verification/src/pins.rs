//! Which keys the computers were last seen with.

use crate::text::str_eq;
use vstd::prelude::*;

verus! {

/// A computer whose key is known.
#[derive(Clone, Debug, PartialEq, Eq)]
pub struct PinnedPeer {
    pub fingerprint: String,
}

/// The computers whose keys are known, each under one name.
#[derive(Clone, Debug)]
pub struct PinStore {
    peers: Vec<(String, PinnedPeer)>,
}

/// What is known of a key.
#[derive(Clone, Debug, PartialEq, Eq)]
pub enum PinStatus {
    Trusted,
    Unknown,
    Changed { expected: String },
}

impl PinStatus {
    /// Whether the key is the one that is known.
    pub fn is_trusted(&self) -> (trusted: bool)
        ensures
            trusted == (self is Trusted),
    {
        match self {
            PinStatus::Trusted => true,
            _ => false,
        }
    }
}

/// The fingerprints by name.
spec fn by_name(peers: Seq<(String, PinnedPeer)>) -> Map<Seq<char>, Seq<char>>
    decreases peers.len(),
{
    if peers.len() == 0 {
        Map::empty()
    } else {
        by_name(peers.drop_last()).insert(peers.last().0@, peers.last().1.fingerprint@)
    }
}

spec fn is_absent(peers: Seq<(String, PinnedPeer)>, name: Seq<char>) -> bool {
    forall|i: int| 0 <= i < peers.len() ==> #[trigger] peers[i].0@ != name
}

spec fn have_own_names(peers: Seq<(String, PinnedPeer)>) -> bool {
    forall|i: int, j: int|
        0 <= i < j < peers.len() ==> #[trigger] peers[i].0@ != #[trigger] peers[j].0@
}

proof fn lemma_absent_is_unknown(peers: Seq<(String, PinnedPeer)>, name: Seq<char>)
    requires
        is_absent(peers, name),
    ensures
        !by_name(peers).contains_key(name),
    decreases peers.len(),
{
    if peers.len() > 0 {
        assert(peers[peers.len() - 1].0@ != name);
        assert(is_absent(peers.drop_last(), name));
        lemma_absent_is_unknown(peers.drop_last(), name);
    }
}

proof fn lemma_present_is_known(peers: Seq<(String, PinnedPeer)>, at: int)
    requires
        0 <= at < peers.len(),
        have_own_names(peers),
    ensures
        by_name(peers).contains_key(peers[at].0@),
        by_name(peers)[peers[at].0@] == peers[at].1.fingerprint@,
    decreases peers.len(),
{
    if at < peers.len() - 1 {
        let shorter = peers.drop_last();
        assert(peers[at].0@ != peers[peers.len() - 1].0@);
        assert(have_own_names(shorter)) by {
            assert forall|i: int, j: int|
                0 <= i < j < shorter.len() implies #[trigger] shorter[i].0@
                != #[trigger] shorter[j].0@ by {
                assert(peers[i].0@ != peers[j].0@);
            }
        }
        lemma_present_is_known(shorter, at);
    }
}

proof fn lemma_replaced(peers: Seq<(String, PinnedPeer)>, at: int, entry: (String, PinnedPeer))
    requires
        0 <= at < peers.len(),
        have_own_names(peers),
        entry.0@ == peers[at].0@,
    ensures
        by_name(peers.update(at, entry)) == by_name(peers).insert(
            entry.0@,
            entry.1.fingerprint@,
        ),
    decreases peers.len(),
{
    let changed = peers.update(at, entry);
    let last = peers.len() - 1;
    if at == last {
        assert(changed.drop_last() =~= peers.drop_last());
        assert(by_name(changed) =~= by_name(peers).insert(entry.0@, entry.1.fingerprint@));
    } else {
        let shorter = peers.drop_last();
        assert(have_own_names(shorter)) by {
            assert forall|i: int, j: int|
                0 <= i < j < shorter.len() implies #[trigger] shorter[i].0@
                != #[trigger] shorter[j].0@ by {
                assert(peers[i].0@ != peers[j].0@);
            }
        }
        lemma_replaced(shorter, at, entry);
        assert(changed.drop_last() =~= shorter.update(at, entry));
        assert(peers[at].0@ != peers[last].0@);
        assert(by_name(changed) =~= by_name(peers).insert(entry.0@, entry.1.fingerprint@));
    }
}

impl View for PinStore {
    type V = Map<Seq<char>, Seq<char>>;

    closed spec fn view(&self) -> Map<Seq<char>, Seq<char>> {
        by_name(self.peers@)
    }
}

/// What is known of a key, from the fingerprints by name.
pub open spec fn status_of(
    known: Map<Seq<char>, Seq<char>>,
    peer: Seq<char>,
    fingerprint: Seq<char>,
    status: PinStatus,
) -> bool {
    if !known.contains_key(peer) {
        status is Unknown
    } else if known[peer] == fingerprint {
        status is Trusted
    } else {
        status matches PinStatus::Changed { expected } && expected@ == known[peer]
    }
}

impl Default for PinStore {
    fn default() -> (store: Self)
        ensures
            store@ == Map::<Seq<char>, Seq<char>>::empty(),
            store.wf(),
    {
        PinStore { peers: Vec::new() }
    }
}

impl PinStore {
    /// No name stands for two computers.
    pub closed spec fn wf(self) -> bool {
        have_own_names(self.peers@)
    }

    fn find(&self, peer: &str) -> (at: Option<usize>)
        ensures
            match at {
                Some(i) => i < self.peers@.len() && self.peers@[i as int].0@ == peer@,
                None => is_absent(self.peers@, peer@),
            },
    {
        let mut i: usize = 0;
        while i < self.peers.len()
            invariant
                i <= self.peers@.len(),
                forall|k: int| 0 <= k < i ==> #[trigger] self.peers@[k].0@ != peer@,
            decreases self.peers@.len() - i,
        {
            if str_eq(self.peers[i].0.as_str(), peer) {
                return Some(i);
            }
            i = i + 1;
        }
        None
    }

    /// What is known of a key; asking changes nothing.
    pub fn status(&self, peer: &str, fingerprint: &str) -> (status: PinStatus)
        requires
            self.wf(),
        ensures
            status_of(self@, peer@, fingerprint@, status),
    {
        match self.find(peer) {
            Some(i) => {
                proof {
                    lemma_present_is_known(self.peers@, i as int);
                }
                if str_eq(self.peers[i].1.fingerprint.as_str(), fingerprint) {
                    PinStatus::Trusted
                } else {
                    PinStatus::Changed { expected: self.peers[i].1.fingerprint.clone() }
                }
            },
            None => {
                proof {
                    lemma_absent_is_unknown(self.peers@, peer@);
                }
                PinStatus::Unknown
            },
        }
    }

    /// Has a key be known from now on.
    pub fn pin(&mut self, peer: &str, fingerprint: &str)
        requires
            old(self).wf(),
        ensures
            final(self).wf(),
            final(self)@ == old(self)@.insert(peer@, fingerprint@),
    {
        let entry = (peer.to_owned(), PinnedPeer { fingerprint: fingerprint.to_owned() });
        match self.find(peer) {
            Some(i) => {
                proof {
                    lemma_replaced(self.peers@, i as int, entry);
                }
                self.peers.set(i, entry);
            },
            None => {
                self.peers.push(entry);
                assert(self.peers@.drop_last() =~= old(self).peers@);
            },
        }
    }

    /// How many names there are.
    pub fn len(&self) -> (count: usize)
        ensures
            count == self.entries().len(),
    {
        self.peers.len()
    }

    /// The names and their fingerprints, in the order that they were pinned in.
    pub closed spec fn entries(self) -> Seq<(Seq<char>, Seq<char>)> {
        Seq::new(
            self.peers@.len(),
            |i: int| (self.peers@[i].0@, self.peers@[i].1.fingerprint@),
        )
    }

    /// A name and its fingerprint.
    pub fn entry(&self, at: usize) -> (entry: (&String, &PinnedPeer))
        requires
            at < self.entries().len(),
        ensures
            (entry.0@, entry.1.fingerprint@) == self.entries()[at as int],
            self.wf() ==> self@.contains_key(entry.0@) && self@[entry.0@]
                == entry.1.fingerprint@,
    {
        proof {
            if self.wf() {
                lemma_present_is_known(self.peers@, at as int);
            }
        }
        (&self.peers[at].0, &self.peers[at].1)
    }
}

/// The names and fingerprints that can be read out are the ones that are known,
/// each once.
pub proof fn law_entries_are_what_is_known(store: PinStore)
    requires
        store.wf(),
    ensures
        forall|name: Seq<char>| #[trigger]
            store@.contains_key(name) <==> exists|i: int|
                0 <= i < store.entries().len() && (#[trigger] store.entries()[i]).0 == name,
        forall|i: int|
            0 <= i < store.entries().len() ==> store@[(#[trigger] store.entries()[i]).0]
                == store.entries()[i].1,
        forall|i: int, j: int|
            0 <= i < j < store.entries().len() ==> (#[trigger] store.entries()[i]).0 != (
            #[trigger] store.entries()[j]).0,
{
    let peers = store.peers@;
    let entries = store.entries();
    assert forall|i: int| 0 <= i < entries.len() implies store@.contains_key(
        (#[trigger] entries[i]).0,
    ) && store@[entries[i].0] == entries[i].1 by {
        lemma_present_is_known(peers, i);
    }
    assert forall|name: Seq<char>| #[trigger] store@.contains_key(name) implies exists|i: int|
        0 <= i < entries.len() && (#[trigger] entries[i]).0 == name by {
        if is_absent(peers, name) {
            lemma_absent_is_unknown(peers, name);
        } else {
            let i = choose|i: int| 0 <= i < peers.len() && #[trigger] peers[i].0@ == name;
            assert(entries[i].0 == name);
        }
    }
    assert forall|i: int, j: int| 0 <= i < j < entries.len() implies (#[trigger] entries[i]).0 != (
    #[trigger] entries[j]).0 by {
        assert(peers[i].0@ != peers[j].0@);
    }
}

/// A key is trusted once it is pinned, until its computer is pinned again.
pub proof fn law_pinned_key_is_trusted(
    known: Map<Seq<char>, Seq<char>>,
    peer: Seq<char>,
    fingerprint: Seq<char>,
    status: PinStatus,
)
    requires
        status_of(known.insert(peer, fingerprint), peer, fingerprint, status),
    ensures
        status is Trusted,
{
}

/// A key that differs from the one that was pinned is never trusted, and the
/// status names the one that was.
pub proof fn law_changed_key_is_not_trusted(
    known: Map<Seq<char>, Seq<char>>,
    peer: Seq<char>,
    pinned: Seq<char>,
    fingerprint: Seq<char>,
    status: PinStatus,
)
    requires
        pinned != fingerprint,
        status_of(known.insert(peer, pinned), peer, fingerprint, status),
    ensures
        status matches PinStatus::Changed { expected } && expected@ == pinned,
{
}

/// Pinning one computer does not change what is known of another.
pub proof fn law_pinning_leaves_others_alone(
    known: Map<Seq<char>, Seq<char>>,
    peer: Seq<char>,
    pinned: Seq<char>,
    other: Seq<char>,
    fingerprint: Seq<char>,
    status: PinStatus,
)
    requires
        other != peer,
    ensures
        status_of(known.insert(peer, pinned), other, fingerprint, status) == status_of(
            known,
            other,
            fingerprint,
            status,
        ),
{
}

/// A computer that nothing was pinned for is unknown, whatever key it shows;
/// and no key is trusted that was not pinned for that computer.
pub proof fn law_only_pinned_keys_are_trusted(
    known: Map<Seq<char>, Seq<char>>,
    peer: Seq<char>,
    fingerprint: Seq<char>,
    status: PinStatus,
)
    requires
        status_of(known, peer, fingerprint, status),
    ensures
        status is Unknown <==> !known.contains_key(peer),
        status is Trusted <==> known.contains_key(peer) && known[peer] == fingerprint,
{
}

} // verus!
