//! Audio packets that come out of order, played in order.

use crate::audio::FRAME_MS;
use vstd::prelude::*;

verus! {

/// An audio packet, decrypted.
#[derive(Clone, Debug, PartialEq, Eq)]
pub struct AudioPacket {
    pub sequence: u64,
    pub sample_timestamp: u32,
    pub flags: u8,
    pub payload: Vec<u8>,
}

/// Holds packets back until enough of them are there to make up for their
/// coming late or out of order.
#[derive(Debug)]
pub struct JitterBuffer {
    /// By sequence number, strictly rising.
    packets: Vec<AudioPacket>,
    next_sequence: Option<u64>,
    target_packets: usize,
    max_packets: usize,
    started: bool,
}

/// What a jitter buffer holds.
pub ghost struct JitterState {
    /// The packets that are held back, by their sequence numbers.
    pub packets: Map<u64, AudioPacket>,
    /// The next one to be played.
    pub next: Option<u64>,
    /// How many packets the buffered timeline has to span.
    pub target: nat,
    /// How many packets are held back at most.
    pub max: nat,
    /// Something was played.
    pub started: bool,
}

/// The smallest of some sequence numbers.
pub open spec fn is_least(packets: Map<u64, AudioPacket>, n: u64) -> bool {
    packets.contains_key(n) && forall|k: u64| #[trigger] packets.contains_key(k) ==> n <= k
}

/// The largest of some sequence numbers.
pub open spec fn is_greatest(packets: Map<u64, AudioPacket>, n: u64) -> bool {
    packets.contains_key(n) && forall|k: u64| #[trigger] packets.contains_key(k) ==> k <= n
}

impl JitterState {
    /// What a buffer for a delay in milliseconds begins with: nothing. It spans
    /// as many frames as fit into the delay, one at least; and three times as
    /// many packets are held back, 24 at least and 96 at most.
    pub open spec fn fresh(target_ms: u32) -> Self {
        let target: nat = if target_ms < FRAME_MS {
            1
        } else {
            (target_ms / FRAME_MS as u32) as nat
        };
        JitterState {
            packets: Map::empty(),
            next: None,
            target,
            max: if target * 3 < 24 {
                24
            } else if target * 3 > 96 {
                96
            } else {
                target * 3
            },
            started: false,
        }
    }

    /// A packet that comes behind its turn is of no use.
    pub open spec fn is_late(self, sequence: u64) -> bool {
        self.started && (self.next matches Some(next) && sequence < next)
    }

    /// Where playing begins once a packet is taken in: with it, where nothing
    /// was played and it is the first so far.
    pub open spec fn next_with(self, sequence: u64) -> u64 {
        match self.next {
            Some(next) => if !self.started && sequence < next {
                sequence
            } else {
                next
            },
            None => sequence,
        }
    }

    /// Whether `after` is the state once a packet is taken in: it is held
    /// back, in place of one with its number; and where that is one too many,
    /// the first is given up and playing goes on with the next.
    pub open spec fn takes(self, packet: AudioPacket, after: JitterState) -> bool {
        let all = self.packets.insert(packet.sequence, packet);
        &&& after.target == self.target
        &&& after.max == self.max
        &&& after.started == self.started
        &&& if all.dom().len() <= self.max {
            after.packets == all && after.next == Some(self.next_with(packet.sequence))
        } else {
            exists|first: u64| #[trigger]
                is_least(all, first) && after.packets == all.remove(first) && (after.next matches Some(
                    next,
                ) && is_least(after.packets, next))
        }
    }

    /// Whether `after` is the state once a packet came, which was taken in anew
    /// or not: one that is late changes nothing.
    pub open spec fn pushes(self, packet: AudioPacket, inserted: bool, after: JitterState) -> bool {
        if self.is_late(packet.sequence) {
            !inserted && after == self
        } else {
            inserted == !self.packets.contains_key(packet.sequence) && self.takes(packet, after)
        }
    }

    /// Whether `after` is the state once the next packet was asked for: where
    /// the timeline is long enough, it is given, or its loss is, and playing
    /// goes on with the one behind it.
    pub open spec fn pops(self, popped: Option<Option<AudioPacket>>, after: JitterState) -> bool {
        if !self.is_ready() {
            popped is None && after == self
        } else {
            let next = self.next->Some_0;
            &&& popped == Some(
                if self.packets.contains_key(next) {
                    Some(self.packets[next])
                } else {
                    None
                },
            )
            &&& after == (JitterState {
                packets: self.packets.remove(next),
                next: Some(
                    if next == u64::MAX {
                        0
                    } else {
                        (next + 1) as u64
                    },
                ),
                started: true,
                ..self
            })
        }
    }

    /// What every state keeps: each packet stands under its own number, none is
    /// behind its turn, no more are held back than may be, and until something
    /// is played the turn is that of the first.
    pub open spec fn is_sound(self) -> bool {
        &&& self.packets.dom().finite()
        &&& self.packets.dom().len() <= self.max
        &&& 1 <= self.target
        &&& 24 <= self.max <= 96
        &&& self.started ==> self.next is Some
        &&& forall|n: u64| #[trigger]
            self.packets.contains_key(n) ==> self.packets[n].sequence == n && (
            self.next matches Some(next) && next <= n)
        &&& !self.started ==> (self.next matches Some(next) ==> is_least(self.packets, next))
    }

    /// The buffered timeline, from the next packet to the last one that is
    /// held back, is long enough to play.
    pub open spec fn is_ready(self) -> bool {
        self.next matches Some(next) && exists|last: u64| #[trigger]
            is_greatest(self.packets, last) && last - next + 1 >= self.target
    }
}

/// The packets by their sequence numbers.
spec fn by_sequence(packets: Seq<AudioPacket>) -> Map<u64, AudioPacket>
    decreases packets.len(),
{
    if packets.len() == 0 {
        Map::empty()
    } else {
        by_sequence(packets.drop_last()).insert(packets.last().sequence, packets.last())
    }
}

/// Strictly rising sequence numbers.
spec fn rising(packets: Seq<AudioPacket>) -> bool {
    forall|i: int, j: int|
        0 <= i < j < packets.len() ==> #[trigger] packets[i].sequence
            < #[trigger] packets[j].sequence
}

proof fn lemma_by_sequence(packets: Seq<AudioPacket>)
    requires
        rising(packets),
    ensures
        by_sequence(packets).dom().finite(),
        by_sequence(packets).dom().len() == packets.len(),
        forall|i: int|
            0 <= i < packets.len() ==> #[trigger] by_sequence(packets).contains_key(
                packets[i].sequence,
            ) && by_sequence(packets)[packets[i].sequence] == packets[i],
        forall|n: u64| #[trigger]
            by_sequence(packets).contains_key(n) ==> exists|i: int|
                0 <= i < packets.len() && #[trigger] packets[i].sequence == n,
    decreases packets.len(),
{
    if packets.len() > 0 {
        let head = packets.drop_last();
        lemma_by_sequence(head);
        assert forall|n: u64| #[trigger] by_sequence(packets).contains_key(n) implies exists|i: int|
            0 <= i < packets.len() && #[trigger] packets[i].sequence == n by {
            if by_sequence(head).contains_key(n) {
                let i = choose|i: int| 0 <= i < head.len() && #[trigger] head[i].sequence == n;
                assert(packets[i].sequence == n);
            } else {
                assert(packets[packets.len() - 1].sequence == n);
            }
        }
        assert(!by_sequence(head).contains_key(packets.last().sequence)) by {
            if by_sequence(head).contains_key(packets.last().sequence) {
                let i = choose|i: int|
                    0 <= i < head.len() && #[trigger] head[i].sequence == packets.last().sequence;
                assert(packets[i].sequence < packets[packets.len() - 1].sequence);
            }
        }
        assert forall|i: int| 0 <= i < packets.len() implies #[trigger] by_sequence(
            packets,
        ).contains_key(packets[i].sequence) && by_sequence(packets)[packets[i].sequence]
            == packets[i] by {
            if i < head.len() {
                assert(head[i] == packets[i]);
                assert(by_sequence(head).contains_key(head[i].sequence));
                assert(packets[i].sequence < packets[packets.len() - 1].sequence);
            }
        }
    }
}

proof fn lemma_same_packets(a: Seq<AudioPacket>, m: Map<u64, AudioPacket>)
    requires
        rising(a),
        forall|i: int| 0 <= i < a.len() ==> #[trigger] m.contains_key(a[i].sequence)
            && m[a[i].sequence] == a[i],
        forall|n: u64| #[trigger]
            m.contains_key(n) ==> exists|i: int| 0 <= i < a.len() && #[trigger] a[i].sequence == n,
    ensures
        by_sequence(a) == m,
{
    lemma_by_sequence(a);
    assert forall|n: u64| by_sequence(a).contains_key(n) == m.contains_key(n) by {
        if by_sequence(a).contains_key(n) {
            let i = choose|i: int| 0 <= i < a.len() && #[trigger] a[i].sequence == n;
            assert(m.contains_key(a[i].sequence));
        }
        if m.contains_key(n) {
            let i = choose|i: int| 0 <= i < a.len() && #[trigger] a[i].sequence == n;
            assert(by_sequence(a).contains_key(a[i].sequence));
        }
    }
    assert forall|n: u64| #[trigger] by_sequence(a).contains_key(n) implies by_sequence(a)[n]
        == m[n] by {
        let i = choose|i: int| 0 <= i < a.len() && #[trigger] a[i].sequence == n;
        assert(m.contains_key(a[i].sequence));
        assert(by_sequence(a).contains_key(a[i].sequence));
    }
    assert(by_sequence(a) =~= m);
}

/// A packet put at its place among the others, or there in another's place.
proof fn lemma_put(before: Seq<AudioPacket>, at: int, packet: AudioPacket)
    requires
        rising(before),
        0 <= at <= before.len(),
        forall|i: int| 0 <= i < at ==> #[trigger] before[i].sequence < packet.sequence,
        forall|i: int| at <= i < before.len() ==> packet.sequence <= #[trigger] before[i].sequence,
    ensures
        ({
            let replaces = at < before.len() && before[at].sequence == packet.sequence;
            let held = if replaces {
                before.update(at, packet)
            } else {
                before.insert(at, packet)
            };
            &&& replaces == by_sequence(before).contains_key(packet.sequence)
            &&& rising(held)
            &&& by_sequence(held) == by_sequence(before).insert(packet.sequence, packet)
        }),
{
    lemma_by_sequence(before);
    let n = packet.sequence;
    let all = by_sequence(before).insert(n, packet);
    let replaces = at < before.len() && before[at].sequence == n;
    let held = if replaces {
        before.update(at, packet)
    } else {
        before.insert(at, packet)
    };
    if by_sequence(before).contains_key(n) {
        let i = choose|i: int| 0 <= i < before.len() && #[trigger] before[i].sequence == n;
        if i > at {
            assert(before[at].sequence < before[i].sequence);
        }
    }
    if replaces {
        assert(by_sequence(before).contains_key(before[at].sequence));
    }
    assert(held[at] == packet);
    assert forall|i: int| 0 <= i < held.len() && i != at implies #[trigger] held[i]
        == before[old_place(replaces, at, i)] by {}
    assert(rising(held)) by {
        assert forall|i: int, j: int| 0 <= i < j < held.len() implies #[trigger] held[i].sequence
            < #[trigger] held[j].sequence by {
            if i != at && j != at {
                assert(before[old_place(replaces, at, i)].sequence < before[old_place(
                    replaces,
                    at,
                    j,
                )].sequence);
            } else if j == at {
                assert(held[i] == before[i]);
            } else {
                let k = old_place(replaces, at, j);
                assert(held[j] == before[k]);
                if replaces {
                    assert(before[at].sequence < before[k].sequence);
                } else if k > at {
                    assert(before[at].sequence < before[k].sequence);
                }
            }
        }
    }
    assert forall|i: int| 0 <= i < held.len() implies #[trigger] all.contains_key(held[i].sequence)
        && all[held[i].sequence] == held[i] by {
        if i != at {
            let k = old_place(replaces, at, i);
            assert(held[i] == before[k]);
            assert(by_sequence(before).contains_key(before[k].sequence));
            if i < at {
                assert(held[i].sequence < held[at].sequence);
            } else {
                assert(held[at].sequence < held[i].sequence);
            }
        }
    }
    assert forall|m: u64| #[trigger] all.contains_key(m) implies exists|i: int|
        0 <= i < held.len() && #[trigger] held[i].sequence == m by {
        if m == n {
            assert(held[at].sequence == m);
        } else {
            let k = choose|k: int| 0 <= k < before.len() && #[trigger] before[k].sequence == m;
            if replaces || k < at {
                assert(held[k].sequence == m);
            } else {
                assert(held[k + 1].sequence == m);
            }
        }
    }
    lemma_same_packets(held, all);
}

/// Where a packet stood before another was put at `at`.
spec fn old_place(replaces: bool, at: int, i: int) -> int {
    if replaces || i < at {
        i
    } else {
        i - 1
    }
}

/// The first packet has the smallest number, and without it the second has.
proof fn lemma_without_first(held: Seq<AudioPacket>)
    requires
        rising(held),
        held.len() > 0,
    ensures
        rising(held.remove(0)),
        is_least(by_sequence(held), held[0].sequence),
        by_sequence(held.remove(0)) == by_sequence(held).remove(held[0].sequence),
        held.len() > 1 ==> is_least(by_sequence(held.remove(0)), held[1].sequence),
{
    lemma_by_sequence(held);
    let all = by_sequence(held);
    let first = held[0].sequence;
    let rest = held.remove(0);
    let left = all.remove(first);
    assert(forall|i: int| 0 <= i < rest.len() ==> #[trigger] rest[i] == held[i + 1]);
    assert(all.contains_key(held[0].sequence));
    assert forall|k: u64| #[trigger] all.contains_key(k) implies first <= k by {
        let i = choose|i: int| 0 <= i < held.len() && #[trigger] held[i].sequence == k;
        if i > 0 {
            assert(held[0].sequence < held[i].sequence);
        }
    }
    assert forall|i: int| 0 <= i < rest.len() implies #[trigger] left.contains_key(rest[i].sequence)
        && left[rest[i].sequence] == rest[i] by {
        assert(all.contains_key(held[i + 1].sequence));
        assert(held[0].sequence < held[i + 1].sequence);
    }
    assert forall|n: u64| #[trigger] left.contains_key(n) implies exists|i: int|
        0 <= i < rest.len() && #[trigger] rest[i].sequence == n by {
        let i = choose|i: int| 0 <= i < held.len() && #[trigger] held[i].sequence == n;
        assert(rest[i - 1].sequence == n);
    }
    lemma_same_packets(rest, left);
    if held.len() > 1 {
        assert(left.contains_key(rest[0].sequence));
        assert forall|k: u64| #[trigger] left.contains_key(k) implies held[1].sequence <= k by {
            let i = choose|i: int| 0 <= i < rest.len() && #[trigger] rest[i].sequence == k;
            if i > 0 {
                assert(rest[0].sequence < rest[i].sequence);
            }
        }
    }
}

/// Puts a packet among others, by its number; `true` where it took the place
/// of one with that number.
fn put(packets: &mut Vec<AudioPacket>, packet: AudioPacket) -> (replaced: bool)
    requires
        rising(old(packets)@),
    ensures
        rising(final(packets)@),
        replaced == by_sequence(old(packets)@).contains_key(packet.sequence),
        by_sequence(final(packets)@) == by_sequence(old(packets)@).insert(packet.sequence, packet),
        final(packets)@.len() == old(packets)@.len() + (if replaced {
            0int
        } else {
            1
        }),
        final(packets)@[0].sequence == (if old(packets)@.len() == 0 || packet.sequence < old(
            packets,
        )@[0].sequence {
            packet.sequence
        } else {
            old(packets)@[0].sequence
        }),
{
    let sequence: u64 = packet.sequence;
    let mut at: usize = 0;
    while at < packets.len() && packets[at].sequence < sequence
        invariant
            packets@ == old(packets)@,
            at <= packets@.len(),
            forall|i: int| 0 <= i < at ==> #[trigger] packets@[i].sequence < sequence,
        decreases packets@.len() - at,
    {
        at = at + 1;
    }
    proof {
        assert forall|i: int| at <= i < packets@.len() implies sequence
            <= #[trigger] packets@[i].sequence by {
            if at < i {
                assert(packets@[at as int].sequence < packets@[i].sequence);
            }
        }
        lemma_put(packets@, at as int, packet);
    }
    if at < packets.len() && packets[at].sequence == sequence {
        packets.set(at, packet);
        true
    } else {
        packets.insert(at, packet);
        false
    }
}

impl View for JitterBuffer {
    type V = JitterState;

    closed spec fn view(&self) -> JitterState {
        JitterState {
            packets: by_sequence(self.packets@),
            next: self.next_sequence,
            target: self.target_packets as nat,
            max: self.max_packets as nat,
            started: self.started,
        }
    }
}

impl JitterBuffer {
    /// At most so many packets are held back, none of them behind its turn;
    /// and until something is played, playing is to begin with the first.
    pub closed spec fn wf(self) -> bool {
        &&& rising(self.packets@)
        &&& self.packets@.len() <= self.max_packets
        &&& 1 <= self.target_packets
        &&& 24 <= self.max_packets <= 96
        &&& self.packets@.len() > 0 ==> self.next_sequence is Some
        &&& self.started ==> self.next_sequence is Some
        &&& !self.started ==> (self.next_sequence is Some ==> self.packets@.len() > 0
            && self.next_sequence == Some(self.packets@[0].sequence))
        &&& self.packets@.len() > 0 ==> self.next_sequence->Some_0 <= self.packets@[0].sequence
    }

    /// A buffer for a delay in milliseconds.
    pub fn new(target_ms: u32) -> (buffer: Self)
        ensures
            buffer.wf(),
            buffer@ == JitterState::fresh(target_ms),
    {
        let frames: u32 = if target_ms < FRAME_MS as u32 {
            1
        } else {
            target_ms / FRAME_MS as u32
        };
        let target_packets: usize = frames as usize;
        let max_packets: usize = if frames < 8 {
            24
        } else if frames > 32 {
            96
        } else {
            target_packets * 3
        };
        JitterBuffer {
            packets: Vec::new(),
            next_sequence: None,
            target_packets,
            max_packets,
            started: false,
        }
    }

    /// Takes a packet in; `false` where it comes late or takes the place of
    /// one with its number.
    pub fn push(&mut self, packet: AudioPacket) -> (inserted: bool)
        requires
            old(self).wf(),
        ensures
            final(self).wf(),
            old(self)@.pushes(packet, inserted, final(self)@),
            old(self)@.started ==> (old(self)@.next matches Some(before) && final(self)@.next matches Some(
                after,
            ) && before <= after),
    {
        let sequence: u64 = packet.sequence;
        match self.next_sequence {
            Some(next) => {
                if self.started && sequence < next {
                    return false;
                }
                if !self.started && sequence < next {
                    self.next_sequence = Some(sequence);
                }
            },
            None => {
                self.next_sequence = Some(sequence);
            },
        }
        let replaced: bool = put(&mut self.packets, packet);
        let ghost held = self.packets@;
        proof {
            lemma_by_sequence(held);
        }
        if self.packets.len() > self.max_packets {
            proof {
                lemma_without_first(held);
            }
            assert(held[0].sequence < held[1].sequence);
            let _ = self.packets.remove(0);
            self.next_sequence = Some(self.packets[0].sequence);
        }
        !replaced
    }

    /// The next packet, where the buffered timeline is long enough: `Some` of
    /// the packet, or of nothing where it was lost.
    pub fn pop_ready(&mut self) -> (popped: Option<Option<AudioPacket>>)
        requires
            old(self).wf(),
        ensures
            final(self).wf(),
            old(self)@.pops(popped, final(self)@),
    {
        let ghost before = self.packets@;
        proof {
            lemma_by_sequence(before);
        }
        let next: u64 = match self.next_sequence {
            Some(next) => next,
            None => {
                return None;
            },
        };
        let len: usize = self.packets.len();
        if len == 0 {
            return None;
        }
        let last: u64 = self.packets[len - 1].sequence;
        proof {
            assert(self@.packets.contains_key(before[len - 1].sequence));
            assert forall|k: u64| #[trigger] self@.packets.contains_key(k) implies k <= last by {
                let i = choose|i: int| 0 <= i < before.len() && #[trigger] before[i].sequence == k;
                if i < len - 1 {
                    assert(before[i].sequence < before[len - 1].sequence);
                }
            }
            assert(is_greatest(self@.packets, last));
        }
        if (last - next) < (self.target_packets - 1) as u64 {
            return None;
        }
        self.started = true;
        self.next_sequence = Some(
            if next == u64::MAX {
                0
            } else {
                next + 1
            },
        );
        if self.packets[0].sequence == next {
            let packet = self.packets.remove(0);
            proof {
                lemma_without_first(before);
                assert(self.packets@ =~= before.remove(0));
                assert(old(self)@.packets.contains_key(before[0].sequence));
                if before.len() > 1 {
                    assert(before[0].sequence < before[1].sequence);
                }
            }
            Some(Some(packet))
        } else {
            proof {
                if old(self)@.packets.contains_key(next) {
                    let i = choose|i: int|
                        0 <= i < before.len() && #[trigger] before[i].sequence == next;
                    if i > 0 {
                        assert(before[0].sequence < before[i].sequence);
                    }
                }
                assert(old(self)@.packets.remove(next) =~= old(self)@.packets);
            }
            Some(None)
        }
    }
}

/// What every buffer keeps: it never holds more packets back than its limit,
/// each of them stands under its own number, none is behind its turn, and until
/// something is played the turn is that of the first.
pub proof fn law_buffer_is_bounded(buffer: JitterBuffer)
    requires
        buffer.wf(),
    ensures
        buffer@.is_sound(),
{
    let packets = buffer.packets@;
    lemma_by_sequence(packets);
    assert forall|n: u64| #[trigger] buffer@.packets.contains_key(n) implies
        buffer@.packets[n].sequence == n && (buffer@.next matches Some(next) && next <= n) by {
        let i = choose|i: int| 0 <= i < packets.len() && #[trigger] packets[i].sequence == n;
        assert(buffer@.packets.contains_key(packets[i].sequence));
        if i > 0 {
            assert(packets[0].sequence < packets[i].sequence);
        }
    }
    if packets.len() > 0 {
        lemma_without_first(packets);
    }
}

/// Something that happens to a buffer.
pub ghost enum JitterEvent {
    /// A packet comes, and is taken in anew or not.
    Push { packet: AudioPacket, inserted: bool },
    /// The next packet is asked for.
    Pop { popped: Option<Option<AudioPacket>> },
}

impl JitterEvent {
    /// Whether the event leads from one state to another.
    pub open spec fn leads(self, before: JitterState, after: JitterState) -> bool {
        match self {
            JitterEvent::Push { packet, inserted } => before.pushes(packet, inserted, after),
            JitterEvent::Pop { popped } => before.pops(popped, after),
        }
    }

    /// The packet that is played, if one is.
    pub open spec fn played(self) -> Option<AudioPacket> {
        match self {
            JitterEvent::Pop { popped: Some(Some(packet)) } => Some(packet),
            _ => None,
        }
    }

    /// The packet that comes, if one does.
    pub open spec fn pushed(self) -> Option<AudioPacket> {
        match self {
            JitterEvent::Push { packet, .. } => Some(packet),
            _ => None,
        }
    }
}

/// A run of a buffer from its beginning: each event leads from the state before
/// it to the one behind it.
pub open spec fn is_run(
    target_ms: u32,
    states: Seq<JitterState>,
    events: Seq<JitterEvent>,
) -> bool {
    &&& states.len() == events.len() + 1
    &&& states[0] == JitterState::fresh(target_ms)
    &&& forall|i: int|
        0 <= i < events.len() ==> (#[trigger] events[i]).leads(states[i], states[i + 1])
}

/// A packet came before an event.
pub open spec fn came_before(events: Seq<JitterEvent>, packet: AudioPacket, before: int) -> bool {
    exists|k: int| 0 <= k < before && (#[trigger] events[k]).pushed() == Some(packet)
}

proof fn lemma_event_keeps_soundness(event: JitterEvent, before: JitterState, after: JitterState)
    requires
        before.is_sound(),
        event.leads(before, after),
        event.pushed() matches Some(packet) ==> packet.sequence != u64::MAX,
        forall|n: u64| #[trigger] before.packets.contains_key(n) ==> n != u64::MAX,
    ensures
        after.is_sound(),
        forall|n: u64| #[trigger] after.packets.contains_key(n) ==> n != u64::MAX,
        before.started ==> after.started && before.next->Some_0 <= after.next->Some_0,
        event.played() matches Some(packet) ==> {
            &&& after.started
            &&& before.next == Some(packet.sequence)
            &&& packet.sequence < after.next->Some_0
            &&& before.packets.contains_key(packet.sequence)
            &&& before.packets[packet.sequence] == packet
        },
        forall|n: u64| #[trigger]
            after.packets.contains_key(n) ==> (before.packets.contains_key(n)
                && before.packets[n] == after.packets[n]) || event.pushed() == Some(
                after.packets[n],
            ),
{
    match event {
        JitterEvent::Push { packet, inserted } => {
            if !before.is_late(packet.sequence) {
                let all = before.packets.insert(packet.sequence, packet);
                assert forall|n: u64| #[trigger] all.contains_key(n) implies all[n].sequence == n
                    && (before.packets.contains_key(n) || n == packet.sequence) by {}
                if all.dom().len() > before.max {
                    let first = choose|first: u64| #[trigger]
                        is_least(all, first) && after.packets == all.remove(first) && (
                        after.next matches Some(next) && is_least(after.packets, next));
                    assert(after.packets.dom() =~= all.dom().remove(first));
                    assert(all.contains_key(after.next->Some_0));
                }
            }
        },
        JitterEvent::Pop { popped } => {
            if before.is_ready() {
                let next = before.next->Some_0;
                let last = choose|last: u64| #[trigger]
                    is_greatest(before.packets, last) && last - next + 1 >= before.target;
                assert(before.packets.contains_key(last));
                assert(after.packets.dom() =~= before.packets.dom().remove(next));
            }
        },
    }
}

proof fn lemma_run_so_far(
    target_ms: u32,
    states: Seq<JitterState>,
    events: Seq<JitterEvent>,
    upto: int,
)
    requires
        is_run(target_ms, states, events),
        forall|i: int|
            0 <= i < events.len() ==> ((#[trigger] events[i]).pushed() matches Some(packet)
                ==> packet.sequence != u64::MAX),
        0 <= upto <= events.len(),
    ensures
        states[upto].is_sound(),
        forall|n: u64| #[trigger] states[upto].packets.contains_key(n) ==> n != u64::MAX
            && came_before(events, states[upto].packets[n], upto),
        forall|i: int|
            0 <= i < upto ==> ((#[trigger] events[i]).played() matches Some(packet)
                ==> states[upto].started && packet.sequence < states[upto].next->Some_0
                && came_before(events, packet, i)),
    decreases upto,
{
    if upto == 0 {
        assert(states[0].packets.dom() =~= Set::empty());
    } else {
        let last = upto - 1;
        lemma_run_so_far(target_ms, states, events, last);
        assert(events[last].leads(states[last], states[last + 1]));
        lemma_event_keeps_soundness(events[last], states[last], states[upto]);
        assert forall|n: u64| #[trigger] states[upto].packets.contains_key(n) implies came_before(
            events,
            states[upto].packets[n],
            upto,
        ) by {
            let packet = states[upto].packets[n];
            if states[last].packets.contains_key(n) && states[last].packets[n] == packet {
                let k = choose|k: int|
                    0 <= k < last && (#[trigger] events[k]).pushed() == Some(packet);
                assert(events[k].pushed() == Some(packet));
            } else {
                assert(events[last].pushed() == Some(packet));
            }
        }
        assert forall|i: int| 0 <= i < upto implies ((#[trigger] events[i]).played() matches Some(
            packet,
        ) ==> states[upto].started && packet.sequence < states[upto].next->Some_0 && came_before(
            events,
            packet,
            i,
        )) by {
            if i == last {
                if let Some(packet) = events[i].played() {
                    assert(states[last].packets.contains_key(packet.sequence));
                }
            }
        }
    }
}

/// Packets are played in order: over any run of a buffer, whatever comes in
/// whatever order, the numbers of those that are played rise strictly, and each
/// of them came before. The last of all numbers, behind which they begin anew,
/// is left out.
pub proof fn law_packets_are_played_in_order(
    target_ms: u32,
    states: Seq<JitterState>,
    events: Seq<JitterEvent>,
)
    requires
        is_run(target_ms, states, events),
        forall|i: int|
            0 <= i < events.len() ==> ((#[trigger] events[i]).pushed() matches Some(packet)
                ==> packet.sequence != u64::MAX),
    ensures
        forall|i: int, j: int|
            0 <= i < j < events.len() && (#[trigger] events[i]).played() is Some && (
            #[trigger] events[j]).played() is Some ==> events[i].played()->Some_0.sequence
                < events[j].played()->Some_0.sequence,
        forall|i: int|
            0 <= i < events.len() && (#[trigger] events[i]).played() is Some ==> came_before(
                events,
                events[i].played()->Some_0,
                i,
            ),
{
    assert forall|i: int, j: int|
        0 <= i < j < events.len() && (#[trigger] events[i]).played() is Some && (
        #[trigger] events[j]).played() is Some implies events[i].played()->Some_0.sequence
        < events[j].played()->Some_0.sequence by {
        lemma_run_so_far(target_ms, states, events, j);
        assert(events[j].leads(states[j], states[j + 1]));
        lemma_event_keeps_soundness(events[j], states[j], states[j + 1]);
    }
    assert forall|i: int|
        0 <= i < events.len() && (#[trigger] events[i]).played() is Some implies came_before(
        events,
        events[i].played()->Some_0,
        i,
    ) by {
        lemma_run_so_far(target_ms, states, events, events.len() as int);
    }
}

/// A packet that is not late is kept where there is room, with all that was
/// held back before; it counts as new exactly where its number was not there. A
/// late one changes nothing.
pub proof fn law_packet_in_time_is_kept(
    state: JitterState,
    packet: AudioPacket,
    inserted: bool,
    after: JitterState,
    number: u64,
)
    requires
        state.packets.dom().finite(),
        state.packets.dom().len() < state.max,
        state.pushes(packet, inserted, after),
    ensures
        ({
            let late = state.started && (state.next matches Some(next) && packet.sequence < next);
            &&& late ==> !inserted && after == state
            &&& !late ==> {
                &&& inserted == !state.packets.contains_key(packet.sequence)
                &&& after.packets.contains_key(packet.sequence)
                &&& after.packets[packet.sequence] == packet
                &&& number != packet.sequence ==> after.packets.contains_key(number)
                    == state.packets.contains_key(number) && (state.packets.contains_key(number)
                    ==> after.packets[number] == state.packets[number])
                &&& after.started == state.started
                &&& state.started && state.next is Some ==> after.next == state.next
                &&& !state.started && state.next is Some ==> after.next == Some(
                    if packet.sequence < state.next->Some_0 {
                        packet.sequence
                    } else {
                        state.next->Some_0
                    },
                )
                &&& state.next is None ==> after.next == Some(packet.sequence)
            }
        }),
{
}

/// Where the buffer is full, the oldest packet makes room, and playing goes on
/// with the oldest that is left.
pub proof fn law_oldest_makes_room(
    state: JitterState,
    packet: AudioPacket,
    inserted: bool,
    after: JitterState,
    number: u64,
)
    requires
        state.packets.dom().finite(),
        state.packets.dom().len() == state.max,
        !state.packets.contains_key(packet.sequence),
        !state.is_late(packet.sequence),
        state.pushes(packet, inserted, after),
        state.packets.contains_key(number),
    ensures
        inserted,
        !after.packets.contains_key(number) ==> number < packet.sequence || !(
        after.packets.contains_key(packet.sequence)),
        !after.packets.contains_key(number) ==> forall|other: u64| #[trigger]
            state.packets.contains_key(other) ==> number <= other,
        after.next matches Some(next) && after.packets.contains_key(next) && forall|other: u64| #[trigger]
            after.packets.contains_key(other) ==> next <= other,
{
    let all = state.packets.insert(packet.sequence, packet);
    assert(all.dom() =~= state.packets.dom().insert(packet.sequence));
    let first = choose|first: u64| #[trigger]
        is_least(all, first) && after.packets == all.remove(first) && (after.next matches Some(next)
            && is_least(after.packets, next));
    assert(all.contains_key(number));
    assert(all.contains_key(packet.sequence));
    if !after.packets.contains_key(number) {
        assert(first == number);
        assert forall|other: u64| #[trigger] state.packets.contains_key(other) implies number
            <= other by {
            assert(all.contains_key(other));
        }
    }
}

/// As soon as what is held back spans the target, the next packet is played
/// where it is there, and skipped where it is missing; before that nothing is.
pub proof fn law_next_packet_is_played_in_time(
    state: JitterState,
    popped: Option<Option<AudioPacket>>,
    after: JitterState,
    last: u64,
)
    requires
        state.packets.contains_key(last),
        forall|other: u64| #[trigger] state.packets.contains_key(other) ==> other <= last,
        state.pops(popped, after),
    ensures
        ({
            let spans = state.next matches Some(next) && last - next + 1 >= state.target;
            &&& !spans ==> popped is None && after == state
            &&& spans ==> {
                let next = state.next->Some_0;
                &&& popped is Some
                &&& state.packets.contains_key(next) ==> popped == Some(Some(state.packets[next]))
                &&& !state.packets.contains_key(next) ==> popped == Some(None::<AudioPacket>)
                &&& !after.packets.contains_key(next)
                &&& next < u64::MAX ==> after.next == Some((next + 1) as u64)
                &&& after.started
            }
        }),
{
    assert(is_greatest(state.packets, last));
    if state.is_ready() {
        let other = choose|other: u64| #[trigger]
            is_greatest(state.packets, other) && other - state.next->Some_0 + 1 >= state.target;
        assert(other == last);
    }
}

/// A buffer for so many milliseconds spans that time in packets of five
/// milliseconds, and one packet at least; it holds back three times as many, and
/// between 24 and 96.
pub proof fn law_buffer_spans_its_time(target_ms: u32)
    ensures
        ({
            let fresh = JitterState::fresh(target_ms);
            &&& target_ms >= 5 ==> fresh.target * 5 <= target_ms < (fresh.target + 1) * 5
            &&& target_ms < 5 ==> fresh.target == 1
            &&& 24 <= fresh.max <= 96
            &&& 24 < fresh.max < 96 ==> fresh.max == 3 * fresh.target
            &&& fresh.max == 24 ==> 3 * fresh.target <= 24
            &&& fresh.max == 96 ==> 3 * fresh.target >= 96
            &&& !fresh.started
            &&& fresh.next is None
        }),
{
    let packets = target_ms as int / 5;
    assert(packets * 5 <= target_ms < (packets + 1) * 5);
    assert(FRAME_MS as u32 == 5);
    assert(target_ms >= 5 ==> JitterState::fresh(target_ms).target == packets);
}

} // verus!
