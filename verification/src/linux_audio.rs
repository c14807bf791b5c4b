//! Audio on Linux: which sink it goes through, and when a stream has stalled.

use crate::audio::{PacketCipher, FLAG_PROBE, SAMPLES_PER_CHANNEL};
use crate::clock::{millis, Instant};
use crate::desktop::{find_mark, length_before, lemma_length_before};
use crate::jitter::{AudioPacket, JitterBuffer, JitterState};
use crate::stats::{bump, bumped};
use crate::text::{
    char_is_white_space, chars_of, decimal, is_digit, is_white_space, lemma_decimal_reads_back,
    parse_unsigned, string_of, texts, trim, trimmed, unsigned_value,
};
use vstd::prelude::*;

verus! {

/// The sink that carries the sound to the other computer.
pub const VIRTUAL_SINK: &'static str = "edge_kvm_remote";

/// How many frames may wait for the sound server.
pub const PLAYBACK_QUEUE_FRAMES: usize = 8;

/// How long a stream may take to start, in milliseconds.
pub const MEDIA_START_MILLIS: u64 = 8_000;

/// How long a stream may be silent before it counts as stalled, in milliseconds.
pub const MEDIA_STALL_MILLIS: u64 = 2_000;

/// How often a full queue is reported, in milliseconds.
pub const QUEUE_WARNING_MILLIS: u64 = 1_000;

/// The longest wait for an answer to a probe, in milliseconds.
pub const PROBE_WAIT_MILLIS: u64 = 250;

/// How many frames are played for one that comes in.
pub const FRAMES_PER_PACKET: usize = 8;

/// What has to be undone: the sink that was in use, and the module that was loaded.
#[derive(Clone, Debug)]
pub struct RoutingJournal {
    pub previous_sink: String,
    pub module_id: u32,
}

/// Where the sound is taken from, and what has to be undone.
#[derive(Clone, Debug)]
pub struct AudioRoutingGuard {
    journal: Option<RoutingJournal>,
    capture_source: String,
}

/// Why the sound cannot be taken.
#[derive(Clone, Copy, Debug, PartialEq, Eq, Structural)]
pub enum RoutingProblem {
    NoDefaultSink,
    InvalidModuleId,
}

impl RoutingProblem {
    /// The words for it.
    pub open spec fn words(self) -> Seq<char> {
        match self {
            RoutingProblem::NoDefaultSink => "PipeWire has no default audio sink"@,
            RoutingProblem::InvalidModuleId => "pactl returned an invalid module id"@,
        }
    }

    /// The words for it.
    pub fn text(self) -> (text: &'static str)
        ensures
            text@ == self.words(),
    {
        match self {
            RoutingProblem::NoDefaultSink => "PipeWire has no default audio sink",
            RoutingProblem::InvalidModuleId => "pactl returned an invalid module id",
        }
    }
}

/// What the default sink calls for.
#[derive(Clone, Debug)]
pub enum RoutingStart {
    /// The sound is taken where it is.
    InPlace(AudioRoutingGuard),
    /// The virtual sink has to be loaded first.
    LoadSink { previous_sink: String },
}

/// The number of a module, as it was printed.
pub open spec fn module_named(printed: Seq<char>) -> Option<nat> {
    unsigned_value(trimmed(printed), u32::MAX as nat)
}

impl AudioRoutingGuard {
    /// Where the sound is taken from.
    pub closed spec fn source(self) -> Seq<char> {
        self.capture_source@
    }

    /// What has to be undone.
    pub closed spec fn undo(self) -> Option<(Seq<char>, u32)> {
        match self.journal {
            Some(journal) => Some((journal.previous_sink@, journal.module_id)),
            None => None,
        }
    }

    /// What to do, given the name of the default sink as it was printed.
    pub fn begin(printed: &str, redirect: bool) -> (start: Result<RoutingStart, RoutingProblem>)
        ensures
            ({
                let sink = trimmed(printed@);
                if sink.len() == 0 {
                    start == Err::<RoutingStart, RoutingProblem>(RoutingProblem::NoDefaultSink)
                } else if redirect {
                    start matches Ok(RoutingStart::LoadSink { previous_sink }) && previous_sink@
                        == sink
                } else {
                    start matches Ok(RoutingStart::InPlace(guard)) && guard.source() == sink
                        + ".monitor"@ && guard.undo() is None
                }
            }),
    {
        let sink = trim(printed).to_owned();
        if sink.as_str().unicode_len() == 0 {
            Err(RoutingProblem::NoDefaultSink)
        } else if redirect {
            Ok(RoutingStart::LoadSink { previous_sink: sink })
        } else {
            Ok(
                RoutingStart::InPlace(
                    AudioRoutingGuard { journal: None, capture_source: sink.concat(".monitor") },
                ),
            )
        }
    }

    /// What has to be undone, given what loading the virtual sink printed.
    pub fn journal_for(previous_sink: String, printed: &str) -> (journal: Result<
        RoutingJournal,
        RoutingProblem,
    >)
        ensures
            match module_named(printed@) {
                Some(id) => journal matches Ok(entry) && entry.module_id == id
                    && entry.previous_sink == previous_sink,
                None => journal == Err::<RoutingJournal, RoutingProblem>(
                    RoutingProblem::InvalidModuleId,
                ),
            },
    {
        match parse_unsigned(trim(printed), u32::MAX as u64) {
            Some(id) => Ok(RoutingJournal { previous_sink, module_id: id as u32 }),
            None => Err(RoutingProblem::InvalidModuleId),
        }
    }

    /// The sound goes through the virtual sink.
    pub fn redirected(journal: RoutingJournal) -> (guard: Self)
        ensures
            guard.source() == VIRTUAL_SINK@ + ".monitor"@,
            guard.undo() == Some((journal.previous_sink@, journal.module_id)),
    {
        AudioRoutingGuard {
            capture_source: VIRTUAL_SINK.to_owned().concat(".monitor"),
            journal: Some(journal),
        }
    }

    /// Where the sound is taken from.
    pub fn capture_source(&self) -> (source: &str)
        ensures
            source@ == self.source(),
    {
        self.capture_source.as_str()
    }

    /// Hands out what has to be undone, once.
    pub fn take_undo(&mut self) -> (journal: Option<RoutingJournal>)
        ensures
            old(self).undo() == (match journal {
                Some(entry) => Some((entry.previous_sink@, entry.module_id)),
                None => None,
            }),
            final(self).undo() is None,
            final(self).source() == old(self).source(),
    {
        self.journal.take()
    }
}

/// A command for the sound server.
#[derive(Clone, Debug)]
pub enum PactlCommand {
    SetDefaultSink(String),
    MoveSinkInput { input: String, sink: String },
    UnloadModule(u32),
}

/// A command for the sound server, as it is sent.
pub enum SentCommand {
    SetDefaultSink(Seq<char>),
    MoveSinkInput { input: Seq<char>, sink: Seq<char> },
    UnloadModule(u32),
}

impl View for PactlCommand {
    type V = SentCommand;

    open spec fn view(&self) -> SentCommand {
        match self {
            PactlCommand::SetDefaultSink(sink) => SentCommand::SetDefaultSink(sink@),
            PactlCommand::MoveSinkInput { input, sink } => SentCommand::MoveSinkInput {
                input: input@,
                sink: sink@,
            },
            PactlCommand::UnloadModule(id) => SentCommand::UnloadModule(*id),
        }
    }
}

/// Commands, as they are sent.
pub open spec fn sent(commands: Seq<PactlCommand>) -> Seq<SentCommand> {
    commands.map_values(|command: PactlCommand| command@)
}

/// The number of blank characters at the start.
pub open spec fn leading_blanks(s: Seq<char>) -> int
    decreases s.len(),
{
    if s.len() > 0 && is_white_space(s[0]) {
        1 + leading_blanks(s.skip(1))
    } else {
        0
    }
}

/// The number of characters at the start that are not blank.
pub open spec fn word_length(s: Seq<char>) -> int
    decreases s.len(),
{
    if s.len() > 0 && !is_white_space(s[0]) {
        1 + word_length(s.skip(1))
    } else {
        0
    }
}

/// The first word of a line; empty where it has none.
pub open spec fn first_word(line: Seq<char>) -> Seq<char> {
    let rest = line.skip(leading_blanks(line));
    rest.take(word_length(rest))
}

/// The first words of the lines of a text; lines without words are left out.
pub open spec fn first_words(text: Seq<char>) -> Seq<Seq<char>>
    decreases text.len(),
{
    proof {
        lemma_length_before(text, '\n');
    }
    let end = length_before(text, '\n');
    let word = first_word(text.take(end));
    let here = if word.len() > 0 {
        Seq::<Seq<char>>::empty().push(word)
    } else {
        Seq::empty()
    };
    if end < text.len() {
        here + first_words(text.skip(end + 1))
    } else {
        here
    }
}

fn read_first_word(line: &str) -> (word: String)
    ensures
        word@ == first_word(line@),
{
    let chars: Vec<char> = chars_of(line);
    let total: usize = chars.len();
    let mut from: usize = 0;
    assert(chars@.skip(0) == chars@);
    while from < total && char_is_white_space(chars[from])
        invariant
            total == chars@.len(),
            from <= total,
            leading_blanks(chars@) == from + leading_blanks(chars@.skip(from as int)),
        decreases total - from,
    {
        assert(chars@.skip(from as int).skip(1) == chars@.skip(from + 1));
        from = from + 1;
    }
    let ghost rest = chars@.skip(from as int);
    let mut to: usize = from;
    assert(rest.skip(0) == rest);
    while to < total && !char_is_white_space(chars[to])
        invariant
            total == chars@.len(),
            from <= to <= total,
            rest == chars@.skip(from as int),
            word_length(rest) == to - from + word_length(rest.skip(to - from)),
        decreases total - to,
    {
        assert(rest.skip(to - from).skip(1) == rest.skip(to + 1 - from));
        assert(rest.skip(to - from)[0] == chars@[to as int]);
        to = to + 1;
    }
    let word = string_of(&chars, from, to);
    proof {
        if to < total {
            assert(rest.skip(to - from)[0] == chars@[to as int]);
        }
        assert(word@ == rest.take(to - from));
    }
    word
}

/// The numbers of the streams that a listing names, one on each line.
pub fn sink_inputs(listing: &str) -> (inputs: Vec<String>)
    ensures
        texts(inputs@) == first_words(listing@),
{
    let chars: Vec<char> = chars_of(listing);
    let total: usize = chars.len();
    let mut from: usize = 0;
    let mut inputs: Vec<String> = Vec::new();
    assert(chars@.skip(0) == chars@);
    assert(texts(inputs@) + first_words(chars@) == first_words(chars@));
    loop
        invariant
            chars@ == listing@,
            total == chars@.len(),
            from <= total,
            texts(inputs@) + first_words(chars@.skip(from as int)) == first_words(listing@),
        decreases total - from,
    {
        let end: usize = find_mark(&chars, from, '\n');
        let line = string_of(&chars, from, end);
        let ghost rest = chars@.skip(from as int);
        assert(rest.take(end - from) == line@);
        let word = read_first_word(line.as_str());
        let ghost before = texts(inputs@);
        if word.as_str().unicode_len() > 0 {
            inputs.push(word);
            assert(texts(inputs@) == before.push(word@));
        }
        if end == total {
            assert(texts(inputs@) == before + first_words(rest));
            return inputs;
        }
        assert(rest.skip(end - from + 1) == chars@.skip(end + 1));
        assert(texts(inputs@) + first_words(chars@.skip(end + 1)) == before + first_words(rest));
        from = end + 1;
    }
}

/// Moving streams to a sink.
pub open spec fn moving(inputs: Seq<Seq<char>>, sink: Seq<char>) -> Seq<SentCommand> {
    inputs.map_values(|input: Seq<char>| SentCommand::MoveSinkInput { input, sink })
}

/// The commands that move every listed stream to a sink.
pub fn move_inputs(listing: &str, sink: &str) -> (commands: Vec<PactlCommand>)
    ensures
        sent(commands@) == moving(first_words(listing@), sink@),
{
    let inputs: Vec<String> = sink_inputs(listing);
    let mut commands: Vec<PactlCommand> = Vec::new();
    for i in 0..inputs.len()
        invariant
            sent(commands@) == moving(texts(inputs@).take(i as int), sink@),
    {
        let ghost before = commands@;
        let command = PactlCommand::MoveSinkInput {
            input: inputs[i].clone(),
            sink: sink.to_owned(),
        };
        commands.push(command);
        proof {
            assert(command@ == (SentCommand::MoveSinkInput {
                input: texts(inputs@)[i as int],
                sink: sink@,
            }));
            assert(sent(commands@) == sent(before).push(command@));
            assert(texts(inputs@).take(i + 1) == texts(inputs@).take(i as int).push(
                texts(inputs@)[i as int],
            ));
            assert(moving(texts(inputs@).take(i + 1), sink@) == moving(
                texts(inputs@).take(i as int),
                sink@,
            ).push(command@));
        }
    }
    assert(texts(inputs@).take(inputs@.len() as int) == texts(inputs@));
    commands
}

/// What brings the sound back: every stream goes to the sink from before, and
/// the virtual sink is taken away.
pub open spec fn restoring(
    previous_sink: Seq<char>,
    module_id: u32,
    listing: Option<Seq<char>>,
) -> Seq<SentCommand> {
    (match listing {
        Some(text) => moving(first_words(text), previous_sink),
        None => Seq::empty(),
    }).push(SentCommand::UnloadModule(module_id))
}

/// How the routing is undone once the streams were listed, where they could
/// be: the streams go back to the sink that was in use, then the virtual sink
/// goes.
pub fn restore_commands(journal: &RoutingJournal, listing: Option<&str>) -> (commands: Vec<
    PactlCommand,
>)
    ensures
        sent(commands@) == restoring(
            journal.previous_sink@,
            journal.module_id,
            match listing {
                Some(text) => Some(text@),
                None => None,
            },
        ),
{
    let mut commands = match listing {
        Some(text) => move_inputs(text, journal.previous_sink.as_str()),
        None => Vec::new(),
    };
    let ghost before = commands@;
    commands.push(PactlCommand::UnloadModule(journal.module_id));
    proof {
        if listing is None {
            assert(sent(before) == Seq::<SentCommand>::empty());
        }
        assert(sent(commands@) == sent(before).push(SentCommand::UnloadModule(journal.module_id)));
    }
    commands
}

/// What is undone is what was done: the streams that were sent to the virtual
/// sink, and that are listed again, go to the sink that was in use.
pub proof fn law_streams_go_back(listing: Seq<char>, previous_sink: Seq<char>, i: int)
    requires
        0 <= i < first_words(listing).len(),
    ensures
        moving(first_words(listing), VIRTUAL_SINK@)[i] == (SentCommand::MoveSinkInput {
            input: first_words(listing)[i],
            sink: VIRTUAL_SINK@,
        }),
        moving(first_words(listing), previous_sink)[i] == (SentCommand::MoveSinkInput {
            input: first_words(listing)[i],
            sink: previous_sink,
        }),
{
}

/// Whether a packet only tests the path.
pub open spec fn is_probe(packet: AudioPacket) -> bool {
    packet.flags % 2 == 1
}

/// Whether a packet only tests the path.
pub fn packet_is_probe(packet: &AudioPacket) -> (probe: bool)
    ensures
        probe == is_probe(*packet),
{
    let flags: u8 = packet.flags;
    assert((flags & 1 != 0) == (flags % 2 == 1)) by (bit_vector);
    flags & FLAG_PROBE != 0
}

/// A packet that only tests the path.
pub fn probe_packet(sequence: u64) -> (packet: AudioPacket)
    ensures
        packet.sequence == sequence,
        packet.sample_timestamp == 0,
        packet.flags == FLAG_PROBE,
        packet.payload@ == Seq::<u8>::empty(),
        is_probe(packet),
{
    AudioPacket { sequence, sample_timestamp: 0, flags: FLAG_PROBE, payload: Vec::new() }
}

/// Whether what came in answers a probe: it opens, it only tests the path and
/// it carries nothing.
pub fn answers_probe(opened: &Option<AudioPacket>) -> (answers: bool)
    ensures
        answers == (opened matches Some(packet) && is_probe(*packet) && packet.payload@.len() == 0),
{
    match opened {
        Some(packet) => packet_is_probe(packet) && packet.payload.len() == 0,
        None => false,
    }
}

/// Takes a datagram while a path is being opened: whether it came from the
/// address that is expected, opens, and answers the probe.
pub fn accept_probe(cipher: &PacketCipher, datagram: &[u8], from_expected: bool) -> (accepted: bool)
    ensures
        !from_expected ==> !accepted,
        accepted ==> crate::audio::header_error(cipher.secrets(), datagram@) is None
            && datagram@.len() == 52 && datagram@[5] % 2 == 1 && crate::audio::decrypts_to(
            cipher.secrets(),
            datagram@,
            Seq::empty(),
        ),
        from_expected && crate::audio::header_error(cipher.secrets(), datagram@) is None
            && datagram@.len() == 52 && datagram@[5] % 2 == 1 && crate::audio::decrypts_to(
            cipher.secrets(),
            datagram@,
            Seq::empty(),
        ) ==> accepted,
{
    if !from_expected {
        return false;
    }
    let opened = match cipher.open(datagram) {
        Ok(packet) => Some(packet),
        Err(_) => None,
    };
    let accepted = answers_probe(&opened);
    proof {
        if accepted {
            assert(opened->0.payload@ == Seq::<u8>::empty());
        }
        if datagram@.len() == 52 && opened is Some {
            assert(opened->0.payload@ == Seq::<u8>::empty());
        }
    }
    accepted
}

/// How long an answer to a probe is waited for, if there is time left.
pub open spec fn wait_for_probe(now: Instant, deadline: Instant) -> Option<u64> {
    if now.nanos >= deadline.nanos {
        None
    } else if deadline.nanos - now.nanos < millis(PROBE_WAIT_MILLIS as int) {
        Some((deadline.nanos - now.nanos) as u64)
    } else {
        Some(millis(PROBE_WAIT_MILLIS as int) as u64)
    }
}

/// How long to wait for an answer to a probe, in nanoseconds; `None` where the
/// time is up.
pub fn probe_wait(now: Instant, deadline: Instant) -> (wait: Option<u64>)
    ensures
        wait == wait_for_probe(now, deadline),
{
    if now.nanos >= deadline.nanos {
        return None;
    }
    let left: u64 = deadline.nanos - now.nanos;
    let most: u64 = PROBE_WAIT_MILLIS * crate::clock::NANOS_PER_MILLI;
    if left < most {
        Some(left)
    } else {
        Some(most)
    }
}

/// What a buffer gives out when it is asked once.
pub open spec fn popped(state: JitterState) -> (JitterState, Option<AudioPacket>) {
    let next = state.next->Some_0;
    (
        JitterState {
            packets: state.packets.remove(next),
            next: Some(
                if next == u64::MAX {
                    0
                } else {
                    (next + 1) as u64
                },
            ),
            started: true,
            ..state
        },
        if state.packets.contains_key(next) {
            Some(state.packets[next])
        } else {
            None
        },
    )
}

/// What a buffer gives out when it is asked at most so often.
pub open spec fn drained(state: JitterState, most: nat) -> (JitterState, Seq<Option<AudioPacket>>)
    decreases most,
{
    if most == 0 || !state.is_ready() {
        (state, Seq::empty())
    } else {
        let (after, packet) = popped(state);
        let (last, others) = drained(after, (most - 1) as nat);
        (last, Seq::<Option<AudioPacket>>::empty().push(packet) + others)
    }
}

/// A stream that comes in.
#[derive(Debug)]
pub struct AudioReception {
    jitter: JitterBuffer,
    started: Instant,
    last_media: Instant,
    received_media: bool,
    media_stalled: bool,
    queue_drops: u64,
    last_queue_warning: Instant,
}

/// What is known of a stream that comes in.
#[verifier::ext_equal]
pub struct ReceptionState {
    pub jitter: JitterState,
    pub started: Instant,
    pub last_media: Instant,
    pub received_media: bool,
    pub media_stalled: bool,
    pub queue_drops: u64,
    pub last_queue_warning: Instant,
}

impl View for AudioReception {
    type V = ReceptionState;

    closed spec fn view(&self) -> ReceptionState {
        ReceptionState {
            jitter: self.jitter@,
            started: self.started,
            last_media: self.last_media,
            received_media: self.received_media,
            media_stalled: self.media_stalled,
            queue_drops: self.queue_drops,
            last_queue_warning: self.last_queue_warning,
        }
    }
}

/// What a look at a stream finds.
#[derive(Clone, Copy, Debug, PartialEq, Eq, Structural)]
pub enum StreamCheck {
    Fine,
    /// The stream has paused; it is waited for.
    Stalled,
    /// The stream never came.
    NeverStarted,
}

impl ReceptionState {
    /// The state behind a look at the stream: a stall is remembered.
    pub open spec fn after_check(self, now: Instant) -> Self {
        if self.check(now) is Stalled {
            ReceptionState { media_stalled: true, ..self }
        } else {
            self
        }
    }

    /// A frame that found no room: the state behind it, and how many there were
    /// since the last report, where one is due.
    pub open spec fn after_queue_full(self, now: Instant) -> (Self, Option<u64>) {
        let drops = bumped(self.queue_drops);
        if now.since(self.last_queue_warning) >= millis(QUEUE_WARNING_MILLIS as int) {
            (ReceptionState { queue_drops: 0, last_queue_warning: now, ..self }, Some(drops))
        } else {
            (ReceptionState { queue_drops: drops, ..self }, None)
        }
    }

    /// What comes of a packet: the state behind it, what is played, and whether
    /// a stall ends. A probe is no sound.
    pub open spec fn hears(
        self,
        packet: AudioPacket,
        now: Instant,
        after: ReceptionState,
        frames: Seq<Option<AudioPacket>>,
        resumed: bool,
    ) -> bool {
        if is_probe(packet) {
            after == self && frames == Seq::<Option<AudioPacket>>::empty() && !resumed
        } else {
            &&& resumed == self.media_stalled
            &&& after == (ReceptionState {
                jitter: after.jitter,
                last_media: now,
                received_media: true,
                media_stalled: false,
                ..self
            })
            &&& if self.jitter.is_late(packet.sequence) {
                after.jitter == self.jitter && frames == Seq::<Option<AudioPacket>>::empty()
            } else if self.jitter.packets.contains_key(packet.sequence) {
                self.jitter.takes(packet, after.jitter) && frames == Seq::<
                    Option<AudioPacket>,
                >::empty()
            } else {
                exists|held: JitterState| #[trigger]
                    self.jitter.takes(packet, held) && (after.jitter, frames) == drained(
                        held,
                        FRAMES_PER_PACKET as nat,
                    )
            }
        }
    }

    /// What a look at the stream finds.
    pub open spec fn check(self, now: Instant) -> StreamCheck {
        if !self.received_media && now.since(self.started) > millis(MEDIA_START_MILLIS as int) {
            StreamCheck::NeverStarted
        } else if self.received_media && !self.media_stalled && now.since(self.last_media) > millis(
            MEDIA_STALL_MILLIS as int,
        ) {
            StreamCheck::Stalled
        } else {
            StreamCheck::Fine
        }
    }
}

impl AudioReception {
    /// The buffer is in order.
    pub closed spec fn wf(self) -> bool {
        self.jitter.wf()
    }

    /// A stream that is waited for, to be buffered for a delay in milliseconds.
    pub fn new(jitter_target_ms: u32, now: Instant) -> (reception: Self)
        ensures
            reception.wf(),
            reception@ == (ReceptionState {
                jitter: JitterState::fresh(jitter_target_ms),
                started: now,
                last_media: now,
                received_media: false,
                media_stalled: false,
                queue_drops: 0,
                last_queue_warning: now,
            }),
    {
        AudioReception {
            jitter: JitterBuffer::new(jitter_target_ms),
            started: now,
            last_media: now,
            received_media: false,
            media_stalled: false,
            queue_drops: 0,
            last_queue_warning: now,
        }
    }

    /// Whether the path still has to be tested.
    pub fn wants_probe(&self) -> (wanted: bool)
        ensures
            wanted == !self@.received_media,
    {
        !self.received_media
    }

    /// Takes a packet; gives the frames to play, and whether the stream came
    /// back after a pause. A frame that was lost is given as none.
    pub fn receive(&mut self, packet: AudioPacket, now: Instant) -> (out: (
        Vec<Option<AudioPacket>>,
        bool,
    ))
        requires
            old(self).wf(),
        ensures
            final(self).wf(),
            old(self)@.hears(packet, now, final(self)@, out.0@, out.1),
    {
        let mut frames: Vec<Option<AudioPacket>> = Vec::new();
        if packet_is_probe(&packet) {
            return (frames, false);
        }
        let recovered = self.media_stalled;
        self.received_media = true;
        self.last_media = now;
        self.media_stalled = false;
        if self.jitter.push(packet) {
            let ghost held = self.jitter@;
            assert(old(self)@.jitter.takes(packet, held));
            let mut asked: usize = 0;
            let mut ready = true;
            assert(frames@ + drained(held, 8).1 == drained(held, 8).1);
            while asked < FRAMES_PER_PACKET && ready
                invariant
                    self.jitter.wf(),
                    asked <= FRAMES_PER_PACKET,
                    !ready ==> !self.jitter@.is_ready(),
                    drained(held, FRAMES_PER_PACKET as nat).0 == drained(
                        self.jitter@,
                        (FRAMES_PER_PACKET - asked) as nat,
                    ).0,
                    frames@ + drained(self.jitter@, (FRAMES_PER_PACKET - asked) as nat).1
                        == drained(held, FRAMES_PER_PACKET as nat).1,
                    self.started == old(self).started,
                    self.last_media == now,
                    self.received_media,
                    !self.media_stalled,
                    self.queue_drops == old(self).queue_drops,
                    self.last_queue_warning == old(self).last_queue_warning,
                decreases FRAMES_PER_PACKET - asked + (if ready {
                    1int
                } else {
                    0int
                }),
            {
                let ghost state = self.jitter@;
                let ghost left = (FRAMES_PER_PACKET - asked) as nat;
                match self.jitter.pop_ready() {
                    Some(packet) => {
                        proof {
                            assert(popped(state) == (self.jitter@, packet));
                            assert(frames@.push(packet) + drained(
                                self.jitter@,
                                (left - 1) as nat,
                            ).1 == frames@ + drained(state, left).1);
                        }
                        frames.push(packet);
                        asked = asked + 1;
                    },
                    None => {
                        ready = false;
                    },
                }
            }
            assert(frames@ + Seq::<Option<AudioPacket>>::empty() == frames@);
        }
        (frames, recovered)
    }

    /// A frame did not fit the queue; gives how many did not, where that is to
    /// be reported.
    pub fn on_queue_full(&mut self, now: Instant) -> (report: Option<u64>)
        requires
            old(self).wf(),
        ensures
            final(self).wf(),
            (final(self)@, report) == old(self)@.after_queue_full(now),
    {
        let drops: u64 = bump(self.queue_drops);
        if now.is_millis_after(self.last_queue_warning, QUEUE_WARNING_MILLIS) {
            self.queue_drops = 0;
            self.last_queue_warning = now;
            Some(drops)
        } else {
            self.queue_drops = drops;
            None
        }
    }

    /// Looks at the stream.
    pub fn on_watchdog(&mut self, now: Instant) -> (check: StreamCheck)
        requires
            old(self).wf(),
        ensures
            final(self).wf(),
            check == old(self)@.check(now),
            final(self)@ == old(self)@.after_check(now),
    {
        if !self.received_media {
            if now.is_more_than_millis_after(self.started, MEDIA_START_MILLIS) {
                StreamCheck::NeverStarted
            } else {
                StreamCheck::Fine
            }
        } else if !self.media_stalled && now.is_more_than_millis_after(
            self.last_media,
            MEDIA_STALL_MILLIS,
        ) {
            self.media_stalled = true;
            StreamCheck::Stalled
        } else {
            StreamCheck::Fine
        }
    }
}

/// A pause does not end a stream that has started: it is reported once, and
/// the next packet ends it.
pub proof fn law_pause_does_not_end_a_stream(state: ReceptionState, now: Instant)
    requires
        state.received_media,
    ensures
        state.check(now) != StreamCheck::NeverStarted,
        (ReceptionState { media_stalled: true, ..state }).check(now) == StreamCheck::Fine,
{
}

/// A stream that goes out.
#[derive(Clone, Copy, Debug, PartialEq, Eq, Structural)]
pub struct AudioTransmission {
    pub sequence: u64,
    pub timestamp: u32,
    pub first_sent: bool,
}

impl AudioTransmission {
    /// The numbers of the first packet.
    pub fn new() -> (stream: Self)
        ensures
            stream == (AudioTransmission { sequence: 1, timestamp: 0, first_sent: false }),
    {
        AudioTransmission { sequence: 1, timestamp: 0, first_sent: false }
    }

    /// The numbers of the next packet.
    pub open spec fn after_packet(self) -> Self {
        AudioTransmission {
            sequence: if self.sequence == u64::MAX {
                0
            } else {
                (self.sequence + 1) as u64
            },
            timestamp: if self.timestamp + SAMPLES_PER_CHANNEL > u32::MAX {
                (self.timestamp + SAMPLES_PER_CHANNEL - 0x1_0000_0000) as u32
            } else {
                (self.timestamp + SAMPLES_PER_CHANNEL) as u32
            },
            first_sent: true,
        }
    }

    /// Notes that a packet was sent, and says whether it was the first.
    pub fn packet_sent(&mut self) -> (first: bool)
        ensures
            *final(self) == old(self).after_packet(),
            first == !old(self).first_sent,
    {
        let first = !self.first_sent;
        self.first_sent = true;
        self.sequence = if self.sequence == u64::MAX {
            0
        } else {
            self.sequence + 1
        };
        let next: u64 = self.timestamp as u64 + SAMPLES_PER_CHANNEL as u64;
        self.timestamp = if next > u32::MAX as u64 {
            (next - 0x1_0000_0000) as u32
        } else {
            next as u32
        };
        first
    }
}

/// The numbers of a stream after some packets.
pub open spec fn numbers_after(stream: AudioTransmission, packets: nat) -> AudioTransmission
    decreases packets,
{
    if packets == 0 {
        stream
    } else {
        numbers_after(stream, (packets - 1) as nat).after_packet()
    }
}

/// No two packets of a stream share a number, however long it runs below the
/// limit of the counter: so no two are sealed with the same nonce.
pub proof fn law_packets_are_numbered_apart(stream: AudioTransmission, packets: nat)
    requires
        stream.sequence + packets <= u64::MAX,
    ensures
        numbers_after(stream, packets).sequence == stream.sequence + packets,
    decreases packets,
{
    if packets > 0 {
        law_packets_are_numbered_apart(stream, (packets - 1) as nat);
    }
}

/// What came of waiting for the first packet of a stream that goes out.
#[derive(Clone, Copy, Debug, PartialEq, Eq, Structural)]
pub enum FirstPacket {
    Sent,
    CaptureEnded,
    TimedOut,
}

impl FirstPacket {
    /// What is wrong, where something is.
    pub fn problem(self) -> (problem: Option<&'static str>)
        ensures
            match self {
                FirstPacket::Sent => problem is None,
                FirstPacket::CaptureEnded => problem matches Some(text) && text@
                    == "Linux audio capture ended before sending its first packet"@,
                FirstPacket::TimedOut => problem matches Some(text) && text@
                    == "Linux audio capture produced no media for 3 seconds"@,
            },
    {
        match self {
            FirstPacket::Sent => None,
            FirstPacket::CaptureEnded => Some(
                "Linux audio capture ended before sending its first packet",
            ),
            FirstPacket::TimedOut => Some("Linux audio capture produced no media for 3 seconds"),
        }
    }
}

/// Bringing the sound back takes the virtual sink away last, whether the
/// streams could be listed or not, and moves each listed stream, in order, to
/// the sink that the sound went to before.
pub proof fn law_sound_is_brought_back(
    previous_sink: Seq<char>,
    module_id: u32,
    listing: Seq<char>,
    i: int,
)
    requires
        0 <= i < first_words(listing).len(),
    ensures
        ({
            let commands = restoring(previous_sink, module_id, Some(listing));
            &&& commands.len() == first_words(listing).len() + 1
            &&& commands.last() == SentCommand::UnloadModule(module_id)
            &&& commands[i] == (SentCommand::MoveSinkInput {
                input: first_words(listing)[i],
                sink: previous_sink,
            })
        }),
        restoring(previous_sink, module_id, None) =~= seq![SentCommand::UnloadModule(module_id)],
{
}

/// A packet of sound is noticed, late or not: the stream has begun, its last
/// sign is now, and a stall that was reported ends, and only then. A probe is
/// none.
pub proof fn law_sound_is_noticed(
    state: ReceptionState,
    packet: AudioPacket,
    now: Instant,
    after: ReceptionState,
    frames: Seq<Option<AudioPacket>>,
    resumed: bool,
)
    requires
        state.hears(packet, now, after, frames, resumed),
    ensures
        packet.flags % 2 == 1 ==> after == state && frames.len() == 0 && !resumed,
        packet.flags % 2 == 0 ==> {
            &&& after.received_media
            &&& !after.media_stalled
            &&& after.last_media == now
            &&& after.started == state.started
            &&& resumed == state.media_stalled
            &&& after.check(now) == StreamCheck::Fine
        },
{
}

/// A stream that does not begin within eight seconds never comes; one that
/// pauses for over two seconds is reported once, until it goes on.
pub proof fn law_silent_stream_is_reported(state: ReceptionState, now: Instant, later: Instant)
    requires
        state.started.nanos <= now.nanos <= later.nanos,
        state.last_media.nanos <= now.nanos,
    ensures
        state.check(now) == StreamCheck::NeverStarted <==> !state.received_media && now.nanos
            - state.started.nanos > 8_000_000_000,
        state.check(now) == StreamCheck::Stalled <==> state.received_media && !state.media_stalled
            && now.nanos - state.last_media.nanos > 2_000_000_000,
        state.check(now) == StreamCheck::Stalled ==> state.after_check(now).check(later)
            == StreamCheck::Fine,
        state.after_check(now).received_media == state.received_media,
{
}

/// Every frame that found no room is counted and reported, at most once a
/// second: a report names all since the one before, and counting starts anew.
pub proof fn law_dropped_frames_are_reported(state: ReceptionState, now: Instant)
    requires
        state.queue_drops < u64::MAX,
        state.last_queue_warning.nanos <= now.nanos,
    ensures
        ({
            let (after, report) = state.after_queue_full(now);
            let due = now.nanos - state.last_queue_warning.nanos >= 1_000_000_000;
            &&& due ==> report == Some((state.queue_drops + 1) as u64) && after.queue_drops == 0
                && after.last_queue_warning == now
            &&& !due ==> report is None && after.queue_drops == state.queue_drops + 1
                && after.last_queue_warning == state.last_queue_warning
            &&& after.jitter == state.jitter
            &&& after.received_media == state.received_media
        }),
{
}

/// What is played is the stream in its order: each place holds the packet with
/// the next number where it is there, and nothing where it is missing.
pub proof fn law_stream_is_played_in_its_order(state: JitterState, most: nat, i: int)
    requires
        0 <= i < drained(state, most).1.len(),
        state.next is Some,
        state.next->Some_0 + most <= u64::MAX,
    ensures
        drained(state, most).1.len() <= most,
        ({
            let number = (state.next->Some_0 + i) as u64;
            drained(state, most).1[i] == if state.packets.contains_key(number) {
                Some(state.packets[number])
            } else {
                None
            }
        }),
    decreases most,
{
    if most > 0 && state.is_ready() {
        let (after, packet) = popped(state);
        let (last, others) = drained(after, (most - 1) as nat);
        let played = Seq::<Option<AudioPacket>>::empty().push(packet) + others;
        if others.len() > 0 {
            if i > 0 {
                law_stream_is_played_in_its_order(after, (most - 1) as nat, i - 1);
                assert(played[i] == others[i - 1]);
            } else {
                law_stream_is_played_in_its_order(after, (most - 1) as nat, 0);
            }
        }
    }
}

/// The time of a packet moves on by the samples of each channel that the packet
/// before held, round the end of its range.
pub proof fn law_packet_times_follow_the_samples(stream: AudioTransmission)
    ensures
        stream.after_packet().timestamp == (stream.timestamp + 240) % 0x1_0000_0000,
        stream.after_packet().sequence == (stream.sequence + 1) % 0x1_0000_0000_0000_0000,
        stream.after_packet().first_sent,
{
}

/// A number of a module is read back as it is printed, alone or with a line end
/// behind it.
pub proof fn law_module_number_is_read(id: u32)
    ensures
        module_named(decimal(id as nat)) == Some(id as nat),
        module_named(decimal(id as nat).push('\n')) == Some(id as nat),
{
    let text = decimal(id as nat);
    lemma_decimal_reads_back(id as nat);
    assert(is_digit(text.first()));
    assert(is_digit(text.last()));
    assert(trimmed(text) == text);
    let line = text.push('\n');
    assert(line.first() == text.first());
    assert(is_white_space(line.last()));
    assert(line.drop_last() =~= text);
    assert(trimmed(line) == text);
}

/// An answer is waited for until the end at most, and a quarter of a second at a
/// time; not at all once the end has come.
pub proof fn law_probe_is_waited_for_until_the_end(now: Instant, deadline: Instant)
    ensures
        wait_for_probe(now, deadline) is None <==> now.nanos >= deadline.nanos,
        wait_for_probe(now, deadline) matches Some(wait) ==> 0 < wait <= 250_000_000 && now.nanos
            + wait <= deadline.nanos && (wait == 250_000_000 || now.nanos + wait == deadline.nanos),
{
}

} // verus!
