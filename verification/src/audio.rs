//! Audio packets on the wire: a header in the clear that is authenticated,
//! and a payload that is encrypted.

use crate::bytes::{
    be_bytes, be_value, copy_range, lemma_be_bytes_len, lemma_be_bytes_read_back,
    lemma_be_value_bound, lemma_be_value_written_back, lemma_pow256_values, matches_at, push_all, push_be, read_be,
};
use crate::jitter::AudioPacket;
use chacha20poly1305::aead::rand_core::RngCore;
use chacha20poly1305::aead::{Aead, OsRng, Payload};
use chacha20poly1305::{ChaCha20Poly1305, KeyInit};
use vstd::prelude::*;

verus! {

/// Samples in a second, of each channel.
pub const SAMPLE_RATE: u32 = 48_000;

/// The channels of a frame.
pub const CHANNELS: usize = 2;

/// The length of a frame, in milliseconds.
pub const FRAME_MS: u16 = 5;

/// The samples of a frame, of each channel.
pub const SAMPLES_PER_CHANNEL: usize = 240;

/// The samples of a frame.
pub const SAMPLES_PER_FRAME: usize = 480;

/// The largest datagram.
pub const MAX_DATAGRAM_BYTES: usize = 1_200;

/// The bytes of a frame, two for each sample.
pub const PCM_BYTES_PER_FRAME: usize = 960;

/// Marks a packet that only finds out an endpoint.
pub const FLAG_PROBE: u8 = 1;

const HEADER_LEN: usize = 36;

const VERSION: u8 = 1;

/// Why a packet is not accepted.
#[derive(Clone, Copy, Debug, PartialEq, Eq, Structural)]
pub enum AudioError {
    Truncated,
    InvalidPacket,
    WrongSession,
    Oversized,
    Authentication,
}

impl AudioError {
    /// The words for it.
    pub open spec fn words(self) -> Seq<char> {
        match self {
            AudioError::Truncated => "audio packet is truncated"@,
            AudioError::InvalidPacket => "invalid audio packet magic or version"@,
            AudioError::WrongSession => "audio packet belongs to another session"@,
            AudioError::Oversized => "audio datagram exceeds 1200 bytes"@,
            AudioError::Authentication => "audio authentication failed"@,
        }
    }

    /// The words for it.
    pub fn text(self) -> (text: &'static str)
        ensures
            text@ == self.words(),
    {
        match self {
            AudioError::Truncated => "audio packet is truncated",
            AudioError::InvalidPacket => "invalid audio packet magic or version",
            AudioError::WrongSession => "audio packet belongs to another session",
            AudioError::Oversized => "audio datagram exceeds 1200 bytes",
            AudioError::Authentication => "audio authentication failed",
        }
    }
}

/// What the two ends of a stream share.
#[derive(Clone, Copy, Debug, PartialEq, Eq)]
pub struct SessionSecrets {
    pub session_id: [u8; 16],
    pub session_salt: [u8; 4],
    pub session_key: [u8; 32],
}

/// `OsRng.fill_bytes` fills bytes from the operating system's random source.
/// Nothing is claimed of what they are.
#[verifier::external_body]
fn os_random<const N: usize>() -> (bytes: [u8; N]) {
    let mut bytes = [0; N];
    OsRng.fill_bytes(&mut bytes);
    bytes
}

/// `ChaCha20Poly1305::generate_key` makes a key from the operating system's
/// random source. Nothing is claimed of what it is.
#[verifier::external_body]
fn random_key() -> (key: [u8; 32]) {
    ChaCha20Poly1305::generate_key(&mut OsRng).into()
}

impl SessionSecrets {
    /// Fresh secrets. They are random: no two calls are said to agree.
    pub fn generate() -> (secrets: Self) {
        SessionSecrets {
            session_id: os_random(),
            session_salt: os_random(),
            session_key: random_key(),
        }
    }
}

/// What `Aead::encrypt` of `ChaCha20Poly1305` gives for a key, a nonce, some
/// associated data and a message: the message encrypted, and a tag.
pub uninterp spec fn sealed(
    key: Seq<u8>,
    nonce: Seq<u8>,
    associated: Seq<u8>,
    message: Seq<u8>,
) -> Seq<u8>;

/// Whether a message is short enough to be encrypted: the counter of blocks
/// of 64 bytes must not run over.
pub open spec fn encryptable(len: nat) -> bool {
    len / 64 < u32::MAX
}

/// `Aead::encrypt` of `ChaCha20Poly1305`: fails on a message that is too
/// long, else gives the message encrypted and a tag of 16 bytes, which depend
/// on the arguments alone.
#[verifier::external_body]
fn encrypt(key: &[u8; 32], nonce: &[u8; 12], associated: &[u8], message: &[u8]) -> (out: Result<
    Vec<u8>,
    AudioError,
>)
    ensures
        match out {
            Ok(bytes) => encryptable(message@.len()) && bytes@ == sealed(
                key@,
                nonce@,
                associated@,
                message@,
            ) && bytes@.len() == message@.len() + 16,
            Err(error) => !encryptable(message@.len()) && error == AudioError::Authentication,
        },
{
    ChaCha20Poly1305::new(key.into())
        .encrypt(nonce.into(), Payload { msg: message, aad: associated })
        .map_err(|_| AudioError::Authentication)
}

/// `Aead::decrypt` of `ChaCha20Poly1305`: gives back the one message that
/// `Aead::encrypt` makes these bytes of, and fails where there is none. The
/// encrypted part is the message with a stream of the key and the nonce over
/// it: no other message has the same one. That a change of the encrypted part
/// or of the associated data is found out is as good as certain, but not so for
/// every key, and is not stated.
#[verifier::external_body]
fn decrypt(key: &[u8; 32], nonce: &[u8; 12], associated: &[u8], bytes: &[u8]) -> (out: Result<
    Vec<u8>,
    AudioError,
>)
    ensures
        match out {
            Ok(message) => forall|m: Seq<u8>|
                m.len() + 16 == bytes@.len() ==> (bytes@ == #[trigger] sealed(
                    key@,
                    nonce@,
                    associated@,
                    m,
                ) <==> m == message@) && forall|m: Seq<u8>|
                m.len() + 16 == bytes@.len() && (#[trigger] sealed(
                    key@,
                    nonce@,
                    associated@,
                    m,
                )).take(m.len() as int) == bytes@.take(m.len() as int) ==> m == message@,
            Err(error) => error == AudioError::Authentication && (encryptable(bytes@.len())
                ==> forall|m: Seq<u8>|
                m.len() + 16 == bytes@.len() ==> bytes@ != #[trigger] sealed(
                    key@,
                    nonce@,
                    associated@,
                    m,
                )),
        },
        out matches Ok(message) ==> message@.len() + 16 == bytes@.len(),
{
    ChaCha20Poly1305::new(key.into())
        .decrypt(nonce.into(), Payload { msg: bytes, aad: associated })
        .map_err(|_| AudioError::Authentication)
}

/// Seals and opens the packets of a stream.
#[derive(Clone, Copy)]
pub struct PacketCipher {
    session_id: [u8; 16],
    session_salt: [u8; 4],
    session_key: [u8; 32],
}

/// The four bytes that every packet begins with: `EKA1`.
pub open spec fn magic() -> Seq<u8> {
    seq![0x45u8, 0x4bu8, 0x41u8, 0x31u8]
}

/// The header of a packet: the magic, the version, the flags, the header's
/// length, the session, the sequence number and the time stamp.
pub open spec fn header(
    session_id: Seq<u8>,
    sequence: u64,
    sample_timestamp: u32,
    flags: u8,
) -> Seq<u8> {
    magic() + seq![1u8, flags] + be_bytes(36, 2) + session_id + be_bytes(sequence as nat, 8)
        + be_bytes(sample_timestamp as nat, 4)
}

/// The nonce of a packet: the session's salt and the sequence number.
pub open spec fn nonce(session_salt: Seq<u8>, sequence: u64) -> Seq<u8> {
    session_salt + be_bytes(sequence as nat, 8)
}

/// The datagram of a packet.
pub open spec fn datagram(
    secrets: SessionSecrets,
    sequence: u64,
    sample_timestamp: u32,
    flags: u8,
    payload: Seq<u8>,
) -> Seq<u8> {
    let head = header(secrets.session_id@, sequence, sample_timestamp, flags);
    head + sealed(
        secrets.session_key@,
        nonce(secrets.session_salt@, sequence),
        head,
        payload,
    )
}

/// What is wrong with a datagram before it is decrypted, where something is.
pub open spec fn header_error(secrets: SessionSecrets, d: Seq<u8>) -> Option<AudioError> {
    if d.len() < 52 {
        Some(AudioError::Truncated)
    } else if d.len() > MAX_DATAGRAM_BYTES {
        Some(AudioError::Oversized)
    } else if d.subrange(0, 4) != magic() || d[4] != 1 || be_value(d.subrange(6, 8)) != 36 {
        Some(AudioError::InvalidPacket)
    } else if d.subrange(8, 24) != secrets.session_id@ {
        Some(AudioError::WrongSession)
    } else {
        None
    }
}

/// Whether a datagram's payload decrypts to some bytes.
pub open spec fn decrypts_to(secrets: SessionSecrets, d: Seq<u8>, payload: Seq<u8>) -> bool {
    d.skip(36) == sealed(
        secrets.session_key@,
        nonce(secrets.session_salt@, be_value(d.subrange(24, 32)) as u64),
        d.take(36),
        payload,
    )
}

/// Whether the encrypted part of a datagram is that of some bytes, whatever its
/// tag is.
pub open spec fn hides(secrets: SessionSecrets, d: Seq<u8>, payload: Seq<u8>) -> bool {
    d.skip(36).take(payload.len() as int) == sealed(
        secrets.session_key@,
        nonce(secrets.session_salt@, be_value(d.subrange(24, 32)) as u64),
        d.take(36),
        payload,
    ).take(payload.len() as int)
}

/// What opening a datagram gives: what is wrong with its header; else the
/// packet of its header's fields and the one payload that it decrypts to, or an
/// error where there is none.
pub open spec fn opens(
    secrets: SessionSecrets,
    d: Seq<u8>,
    out: Result<AudioPacket, AudioError>,
) -> bool {
    match header_error(secrets, d) {
        Some(error) => out == Err::<AudioPacket, AudioError>(error),
        None => match out {
            Ok(packet) => {
                &&& packet.sequence == be_value(d.subrange(24, 32))
                &&& packet.sample_timestamp == be_value(d.subrange(32, 36))
                &&& packet.flags == d[5]
                &&& forall|m: Seq<u8>|
                    m.len() + 52 == d.len() ==> (#[trigger] decrypts_to(secrets, d, m) <==> m
                        == packet.payload@)
                &&& forall|m: Seq<u8>|
                    m.len() + 52 == d.len() && #[trigger] hides(secrets, d, m) ==> m
                        == packet.payload@
                &&& packet.payload@.len() + 52 == d.len()
            },
            Err(error) => error == AudioError::Authentication && forall|m: Seq<u8>|
                m.len() + 52 == d.len() ==> !#[trigger] decrypts_to(secrets, d, m),
        },
    }
}

impl PacketCipher {
    /// The secrets that the cipher was made with.
    pub closed spec fn secrets(self) -> SessionSecrets {
        SessionSecrets {
            session_id: self.session_id,
            session_salt: self.session_salt,
            session_key: self.session_key,
        }
    }

    /// A cipher for a stream.
    pub fn new(secrets: &SessionSecrets) -> (cipher: Self)
        ensures
            cipher.secrets() == *secrets,
    {
        PacketCipher {
            session_id: secrets.session_id,
            session_salt: secrets.session_salt,
            session_key: secrets.session_key,
        }
    }

    fn nonce(&self, sequence: u64) -> (bytes: [u8; 12])
        ensures
            bytes@ == nonce(self.secrets().session_salt@, sequence),
    {
        let mut tail: Vec<u8> = Vec::new();
        push_be(&mut tail, sequence, 8);
        proof {
            lemma_be_bytes_len(sequence as nat, 8);
        }
        let s = &self.session_salt;
        let bytes: [u8; 12] = [
            s[0],
            s[1],
            s[2],
            s[3],
            tail[0],
            tail[1],
            tail[2],
            tail[3],
            tail[4],
            tail[5],
            tail[6],
            tail[7],
        ];
        assert(bytes@ =~= nonce(self.secrets().session_salt@, sequence));
        bytes
    }

    /// The datagram of a packet.
    pub fn seal(&self, packet: &AudioPacket) -> (out: Result<Vec<u8>, AudioError>)
        ensures
            self.seals(
                packet.sequence,
                packet.sample_timestamp,
                packet.flags,
                packet.payload@,
                out,
            ),
    {
        self.seal_payload(
            packet.sequence,
            packet.sample_timestamp,
            packet.flags,
            packet.payload.as_slice(),
        )
    }

    /// What sealing gives: the datagram, or an error where the payload cannot
    /// be encrypted or makes the datagram too large.
    pub open spec fn seals(
        self,
        sequence: u64,
        sample_timestamp: u32,
        flags: u8,
        payload: Seq<u8>,
        out: Result<Vec<u8>, AudioError>,
    ) -> bool {
        match out {
            Ok(bytes) => payload.len() + 52 <= MAX_DATAGRAM_BYTES && bytes@ == datagram(
                self.secrets(),
                sequence,
                sample_timestamp,
                flags,
                payload,
            ) && bytes@.len() == payload.len() + 52,
            Err(error) => if encryptable(payload.len()) {
                error == AudioError::Oversized && payload.len() + 52 > MAX_DATAGRAM_BYTES
            } else {
                error == AudioError::Authentication
            },
        }
    }

    /// The datagram of a payload.
    pub fn seal_payload(
        &self,
        sequence: u64,
        sample_timestamp: u32,
        flags: u8,
        payload: &[u8],
    ) -> (out: Result<Vec<u8>, AudioError>)
        ensures
            self.seals(sequence, sample_timestamp, flags, payload@, out),
    {
        let mut out: Vec<u8> = Vec::new();
        let begin: [u8; 4] = [0x45, 0x4b, 0x41, 0x31];
        push_all(&mut out, begin.as_slice());
        out.push(VERSION);
        out.push(flags);
        push_be(&mut out, HEADER_LEN as u64, 2);
        push_all(&mut out, self.session_id.as_slice());
        push_be(&mut out, sequence, 8);
        push_be(&mut out, sample_timestamp as u64, 4);
        let ghost head = header(self.secrets().session_id@, sequence, sample_timestamp, flags);
        proof {
            lemma_header_len(self.secrets().session_id@, sequence, sample_timestamp, flags);
            assert(begin@ =~= magic());
            assert(out@ =~= head);
        }
        let nonce_bytes: [u8; 12] = self.nonce(sequence);
        let encrypted: Vec<u8> = match encrypt(
            &self.session_key,
            &nonce_bytes,
            out.as_slice(),
            payload,
        ) {
            Ok(encrypted) => encrypted,
            Err(error) => {
                return Err(error);
            },
        };
        push_all(&mut out, encrypted.as_slice());
        if out.len() > MAX_DATAGRAM_BYTES {
            return Err(AudioError::Oversized);
        }
        Ok(out)
    }

    /// The packet of a datagram.
    pub fn open(&self, datagram: &[u8]) -> (out: Result<AudioPacket, AudioError>)
        ensures
            opens(self.secrets(), datagram@, out),
    {
        if datagram.len() < HEADER_LEN + 16 {
            return Err(AudioError::Truncated);
        }
        if datagram.len() > MAX_DATAGRAM_BYTES {
            return Err(AudioError::Oversized);
        }
        let begin: [u8; 4] = [0x45, 0x4b, 0x41, 0x31];
        assert(begin@ =~= magic());
        if !matches_at(datagram, 0, begin.as_slice()) || datagram[4] != VERSION {
            return Err(AudioError::InvalidPacket);
        }
        let header_len: u64 = read_be(datagram, 6, 2);
        if header_len != HEADER_LEN as u64 {
            return Err(AudioError::InvalidPacket);
        }
        if !matches_at(datagram, 8, self.session_id.as_slice()) {
            return Err(AudioError::WrongSession);
        }
        let sequence: u64 = read_be(datagram, 24, 8);
        let stamp: u64 = read_be(datagram, 32, 4);
        proof {
            lemma_pow256_values();
            lemma_be_value_bound(datagram@.subrange(32, 36));
        }
        let head: Vec<u8> = copy_range(datagram, 0, HEADER_LEN);
        let body: Vec<u8> = copy_range(datagram, HEADER_LEN, datagram.len());
        proof {
            assert(head@ =~= datagram@.take(36));
            assert(body@ =~= datagram@.skip(36));
        }
        let nonce_bytes: [u8; 12] = self.nonce(sequence);
        match decrypt(&self.session_key, &nonce_bytes, head.as_slice(), body.as_slice()) {
            Ok(payload) => Ok(
                AudioPacket {
                    sequence,
                    sample_timestamp: stamp as u32,
                    flags: datagram[5],
                    payload,
                },
            ),
            Err(error) => Err(error),
        }
    }
}

proof fn lemma_header_len(session_id: Seq<u8>, sequence: u64, sample_timestamp: u32, flags: u8)
    requires
        session_id.len() == 16,
    ensures
        header(session_id, sequence, sample_timestamp, flags).len() == 36,
{
    lemma_be_bytes_len(36, 2);
    lemma_be_bytes_len(sequence as nat, 8);
    lemma_be_bytes_len(sample_timestamp as nat, 4);
}

/// What was sealed is opened by the same secrets: the datagram of a packet
/// passes the checks of its header, its fields are the packet's, and its
/// payload decrypts to the packet's.
pub proof fn law_sealed_packet_opens(
    secrets: SessionSecrets,
    sequence: u64,
    sample_timestamp: u32,
    flags: u8,
    payload: Seq<u8>,
)
    requires
        payload.len() + 52 <= MAX_DATAGRAM_BYTES,
        datagram(secrets, sequence, sample_timestamp, flags, payload).len() == payload.len() + 52,
    ensures
        ({
            let d = datagram(secrets, sequence, sample_timestamp, flags, payload);
            &&& header_error(secrets, d) is None
            &&& be_value(d.subrange(24, 32)) == sequence
            &&& be_value(d.subrange(32, 36)) == sample_timestamp
            &&& d[5] == flags
            &&& decrypts_to(secrets, d, payload)
        }),
{
    let id = secrets.session_id@;
    let head = header(id, sequence, sample_timestamp, flags);
    let d = datagram(secrets, sequence, sample_timestamp, flags, payload);
    lemma_header_len(id, sequence, sample_timestamp, flags);
    lemma_pow256_values();
    lemma_be_bytes_read_back(36, 2);
    lemma_be_bytes_read_back(sequence as nat, 8);
    lemma_be_bytes_read_back(sample_timestamp as nat, 4);
    assert(d.subrange(0, 4) =~= magic());
    assert(d.subrange(6, 8) =~= be_bytes(36, 2));
    assert(d.subrange(8, 24) =~= id);
    assert(d.subrange(24, 32) =~= be_bytes(sequence as nat, 8));
    assert(d.subrange(32, 36) =~= be_bytes(sample_timestamp as nat, 4));
    assert(d.take(36) =~= head);
    assert(d.skip(36) =~= sealed(
        secrets.session_key@,
        nonce(secrets.session_salt@, sequence),
        head,
        payload,
    ));
}

/// Opening what was sealed with the same secrets gives the packet back.
pub proof fn law_opening_undoes_sealing(
    secrets: SessionSecrets,
    packet: AudioPacket,
    out: Result<AudioPacket, AudioError>,
)
    requires
        packet.payload@.len() + 52 <= MAX_DATAGRAM_BYTES,
        ({
            let d = datagram(
                secrets,
                packet.sequence,
                packet.sample_timestamp,
                packet.flags,
                packet.payload@,
            );
            d.len() == packet.payload@.len() + 52 && opens(secrets, d, out)
        }),
    ensures
        out matches Ok(opened) && opened.sequence == packet.sequence && opened.sample_timestamp
            == packet.sample_timestamp && opened.flags == packet.flags && opened.payload@
            == packet.payload@,
{
    law_sealed_packet_opens(
        secrets,
        packet.sequence,
        packet.sample_timestamp,
        packet.flags,
        packet.payload@,
    );
}

/// A packet of another session is rejected as such.
pub proof fn law_other_session_is_rejected(
    secrets: SessionSecrets,
    other: SessionSecrets,
    sequence: u64,
    sample_timestamp: u32,
    flags: u8,
    payload: Seq<u8>,
)
    requires
        secrets.session_id@ != other.session_id@,
        payload.len() + 52 <= MAX_DATAGRAM_BYTES,
        datagram(secrets, sequence, sample_timestamp, flags, payload).len() == payload.len() + 52,
    ensures
        header_error(other, datagram(secrets, sequence, sample_timestamp, flags, payload)) == Some(
            AudioError::WrongSession,
        ),
{
    law_sealed_packet_opens(secrets, sequence, sample_timestamp, flags, payload);
}

proof fn lemma_be_value_is_injective(one: Seq<u8>, other: Seq<u8>)
    requires
        one.len() == other.len(),
        be_value(one) == be_value(other),
    ensures
        one == other,
{
    lemma_be_value_written_back(one);
    lemma_be_value_written_back(other);
}

/// A packet whose tag was changed is refused, whichever bits of it were.
pub proof fn law_changed_tag_is_refused(
    secrets: SessionSecrets,
    sequence: u64,
    sample_timestamp: u32,
    flags: u8,
    payload: Seq<u8>,
    changed: Seq<u8>,
    out: Result<AudioPacket, AudioError>,
)
    requires
        payload.len() + 52 <= MAX_DATAGRAM_BYTES,
        ({
            let d = datagram(secrets, sequence, sample_timestamp, flags, payload);
            &&& d.len() == payload.len() + 52
            &&& changed.len() == d.len()
            &&& changed.take(d.len() - 16) == d.take(d.len() - 16)
            &&& changed != d
        }),
        opens(secrets, changed, out),
    ensures
        out == Err::<AudioPacket, AudioError>(AudioError::Authentication),
{
    let d = datagram(secrets, sequence, sample_timestamp, flags, payload);
    law_sealed_packet_opens(secrets, sequence, sample_timestamp, flags, payload);
    let same = d.len() - 16;
    assert forall|i: int| 0 <= i < same implies changed[i] == d[i] by {
        assert(changed.take(same)[i] == d.take(same)[i]);
    }
    assert(changed.subrange(0, 4) =~= d.subrange(0, 4));
    assert(changed.subrange(6, 8) =~= d.subrange(6, 8));
    assert(changed.subrange(8, 24) =~= d.subrange(8, 24));
    assert(changed.subrange(24, 32) =~= d.subrange(24, 32));
    assert(changed.take(36) =~= d.take(36));
    assert(header_error(secrets, changed) is None);
    if let Ok(packet) = out {
        assert(changed.skip(36).take(payload.len() as int) =~= d.skip(36).take(
            payload.len() as int,
        ));
        assert(hides(secrets, changed, payload));
        assert(payload == packet.payload@);
        assert(decrypts_to(secrets, changed, payload));
        assert(changed.skip(36) == d.skip(36));
        assert(changed =~= changed.take(36) + changed.skip(36));
        assert(d =~= d.take(36) + d.skip(36));
    }
}

/// A packet whose magic, version, header length or session was changed is
/// refused before it is decrypted.
pub proof fn law_changed_frame_is_refused(
    secrets: SessionSecrets,
    sequence: u64,
    sample_timestamp: u32,
    flags: u8,
    payload: Seq<u8>,
    changed: Seq<u8>,
    at: int,
    out: Result<AudioPacket, AudioError>,
)
    requires
        payload.len() + 52 <= MAX_DATAGRAM_BYTES,
        ({
            let d = datagram(secrets, sequence, sample_timestamp, flags, payload);
            &&& d.len() == payload.len() + 52
            &&& changed.len() == d.len()
            &&& 0 <= at < 24
            &&& at != 5
            &&& changed[at] != d[at]
        }),
        opens(secrets, changed, out),
    ensures
        out == Err::<AudioPacket, AudioError>(AudioError::InvalidPacket) || out == Err::<
            AudioPacket,
            AudioError,
        >(AudioError::WrongSession),
{
    let d = datagram(secrets, sequence, sample_timestamp, flags, payload);
    law_sealed_packet_opens(secrets, sequence, sample_timestamp, flags, payload);
    if header_error(secrets, changed) is None {
        if at < 4 {
            assert(changed.subrange(0, 4)[at] == d.subrange(0, 4)[at]);
        } else if 6 <= at < 8 {
            lemma_be_value_is_injective(changed.subrange(6, 8), d.subrange(6, 8));
            assert(changed.subrange(6, 8)[at - 6] == d.subrange(6, 8)[at - 6]);
        } else if at >= 8 {
            assert(changed.subrange(8, 24)[at - 8] == d.subrange(8, 24)[at - 8]);
        }
    }
}

/// A packet that was changed anywhere is never taken for the one that was
/// sealed: where it is opened at all, it says something else.
pub proof fn law_changed_packet_is_another(
    secrets: SessionSecrets,
    packet: AudioPacket,
    changed: Seq<u8>,
    out: Result<AudioPacket, AudioError>,
)
    requires
        packet.payload@.len() + 52 <= MAX_DATAGRAM_BYTES,
        ({
            let d = datagram(
                secrets,
                packet.sequence,
                packet.sample_timestamp,
                packet.flags,
                packet.payload@,
            );
            &&& d.len() == packet.payload@.len() + 52
            &&& changed != d
        }),
        opens(secrets, changed, out),
    ensures
        out matches Ok(other) ==> !(other.sequence == packet.sequence && other.sample_timestamp
            == packet.sample_timestamp && other.flags == packet.flags && other.payload@
            == packet.payload@),
{
    let d = datagram(
        secrets,
        packet.sequence,
        packet.sample_timestamp,
        packet.flags,
        packet.payload@,
    );
    law_sealed_packet_opens(
        secrets,
        packet.sequence,
        packet.sample_timestamp,
        packet.flags,
        packet.payload@,
    );
    if let Ok(other) = out {
        if other.sequence == packet.sequence && other.sample_timestamp == packet.sample_timestamp
            && other.flags == packet.flags && other.payload@ == packet.payload@ {
            lemma_be_value_is_injective(changed.subrange(6, 8), d.subrange(6, 8));
            lemma_be_value_is_injective(changed.subrange(24, 32), d.subrange(24, 32));
            lemma_be_value_is_injective(changed.subrange(32, 36), d.subrange(32, 36));
            assert forall|i: int| 0 <= i < 36 implies changed[i] == d[i] by {
                if i < 4 {
                    assert(changed.subrange(0, 4)[i] == d.subrange(0, 4)[i]);
                } else if 6 <= i < 8 {
                    assert(changed.subrange(6, 8)[i - 6] == d.subrange(6, 8)[i - 6]);
                } else if 8 <= i < 24 {
                    assert(changed.subrange(8, 24)[i - 8] == d.subrange(8, 24)[i - 8]);
                } else if 24 <= i < 32 {
                    assert(changed.subrange(24, 32)[i - 24] == d.subrange(24, 32)[i - 24]);
                } else if i >= 32 {
                    assert(changed.subrange(32, 36)[i - 32] == d.subrange(32, 36)[i - 32]);
                }
            }
            assert(changed.take(36) =~= d.take(36));
            assert(decrypts_to(secrets, changed, packet.payload@));
            assert(changed.skip(36) == d.skip(36));
            assert(changed =~= changed.take(36) + changed.skip(36));
            assert(d =~= d.take(36) + d.skip(36));
        }
    }
}

/// Where everything stands in a datagram: four letters, the version, the flags,
/// the length of all that comes before the sound, the session, and what the
/// number and the time of the packet are, each with its highest byte first.
pub proof fn law_datagram_is_laid_out(
    secrets: SessionSecrets,
    sequence: u64,
    sample_timestamp: u32,
    flags: u8,
    payload: Seq<u8>,
    i: int,
)
    requires
        0 <= i < 16,
    ensures
        ({
            let d = datagram(secrets, sequence, sample_timestamp, flags, payload);
            &&& d[0] == 0x45 && d[1] == 0x4b && d[2] == 0x41 && d[3] == 0x31
            &&& d[4] == 1
            &&& d[5] == flags
            &&& d[6] == 0 && d[7] == 36
            &&& d[8 + i] == secrets.session_id@[i]
            &&& d.subrange(24, 32) =~= be_bytes(sequence as nat, 8)
            &&& d.subrange(32, 36) =~= be_bytes(sample_timestamp as nat, 4)
        }),
{
    lemma_be_bytes_len(36, 2);
    lemma_be_bytes_len(sequence as nat, 8);
    lemma_be_bytes_len(sample_timestamp as nat, 4);
    lemma_header_len(secrets.session_id@, sequence, sample_timestamp, flags);
    reveal_with_fuel(be_bytes, 3);
    let d = datagram(secrets, sequence, sample_timestamp, flags, payload);
    let head = header(secrets.session_id@, sequence, sample_timestamp, flags);
    assert(d.subrange(24, 32) =~= head.subrange(24, 32));
    assert(d.subrange(32, 36) =~= head.subrange(32, 36));
    assert(be_bytes(36, 2)[0] == 0);
    assert(be_bytes(36, 2)[1] == 36);
}

/// A packet is sealed exactly where it fits in a datagram.
pub proof fn law_only_long_sound_is_refused(
    cipher: PacketCipher,
    sequence: u64,
    sample_timestamp: u32,
    flags: u8,
    payload: Seq<u8>,
    out: Result<Vec<u8>, AudioError>,
)
    requires
        encryptable(payload.len()),
        cipher.seals(sequence, sample_timestamp, flags, payload, out),
    ensures
        out is Ok <==> payload.len() <= 1_148,
        out is Err ==> out == Err::<Vec<u8>, AudioError>(AudioError::Oversized),
{
}

} // verus!
