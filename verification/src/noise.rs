//! Sessions that nobody can listen in on: the handshake and the packets.

use crate::identity::{
    fingerprint, fingerprint_text, CryptoError, IdentityKey, NOISE_PROTOCOL,
};
use crate::text::str_eq;
use snow::Builder;
use vstd::prelude::*;

verus! {

/// A handshake that is not over.
#[verifier::external_type_specification]
#[verifier::external_body]
pub struct ExHandshakeState(snow::HandshakeState);

/// A session whose handshake is over.
#[verifier::external_type_specification]
#[verifier::external_body]
pub struct ExTransportState(snow::TransportState);

/// The most bytes of a message of the protocol.
pub const MAX_MESSAGE_BYTES: usize = 65_535;

/// The bytes of a tag.
pub const TAG_BYTES: usize = 16;

/// The key that a session sends with, and the number of its next message.
pub uninterp spec fn noise_sending(state: snow::TransportState) -> (Seq<u8>, nat);

/// The key that a session receives with, and the number of the next message
/// that it takes.
pub uninterp spec fn noise_receiving(state: snow::TransportState) -> (Seq<u8>, nat);

/// What `TransportState::write_message` makes of a payload, with a key and the
/// number of the message.
pub uninterp spec fn noise_sealed(key: Seq<u8>, number: nat, payload: Seq<u8>) -> Seq<u8>;

/// Whether `HandshakeState::is_initiator` holds of a handshake, and how many
/// messages of it have gone.
pub uninterp spec fn noise_progress(state: snow::HandshakeState) -> (bool, nat);

/// The private key that a handshake was built with.
pub uninterp spec fn noise_local_key(state: snow::HandshakeState) -> Seq<u8>;

/// The key that the other side has shown in a handshake.
pub uninterp spec fn noise_remote_key(state: snow::HandshakeState) -> Option<Seq<u8>>;

/// The key that the other side has shown once `HandshakeState::read_message`
/// has taken a message; `None` where that fails.
pub uninterp spec fn noise_read(state: snow::HandshakeState, message: Seq<u8>) -> Option<
    Option<Seq<u8>>,
>;

/// The keys that a handshake ends with: that of the messages of the side that
/// began it, and that of the messages of the other one.
pub uninterp spec fn noise_keys(state: snow::HandshakeState) -> (Seq<u8>, Seq<u8>);

/// Whose turn it is in a handshake of three messages.
#[derive(Clone, Copy, Debug, PartialEq, Eq, Structural)]
pub enum Turn {
    Send,
    Receive,
    Over,
}

/// Whose turn it is after some messages: the side that begins sends the first
/// and the third.
pub open spec fn turn_after(initiator: bool, messages: int) -> Turn {
    if messages >= 3 {
        Turn::Over
    } else if initiator == (messages % 2 == 0) {
        Turn::Send
    } else {
        Turn::Receive
    }
}

/// How many bytes a message of a handshake has after some others: the first is
/// a key, the second a key, a sealed key and a tag, the third a sealed key and
/// a tag.
pub open spec fn handshake_message_len(messages: int) -> nat {
    if messages == 0 {
        32
    } else if messages == 1 {
        96
    } else {
        64
    }
}

/// What a side sends and receives with once a handshake has ended with some
/// keys: the key and the number of the first message.
pub open spec fn transport_ends(initiator: bool, keys: (Seq<u8>, Seq<u8>)) -> (
    (Seq<u8>, nat),
    (Seq<u8>, nat),
) {
    if initiator {
        ((keys.0, 0), (keys.1, 0))
    } else {
        ((keys.1, 0), (keys.0, 0))
    }
}

/// `Builder::build_initiator` with a private key: the side that begins, before
/// the first message.
#[verifier::external_body]
fn build_initiator(private: &[u8; 32]) -> (out: Result<snow::HandshakeState, snow::Error>)
    ensures
        out is Ok,
        out matches Ok(state) ==> noise_progress(state) == (true, 0nat) && noise_local_key(state)
            == private@ && noise_remote_key(state) is None,
{
    Builder::new(NOISE_PROTOCOL.parse()?).local_private_key(private).build_initiator()
}

/// `Builder::build_responder` with a private key: the side that does not
/// begin, before the first message.
#[verifier::external_body]
fn build_responder(private: &[u8; 32]) -> (out: Result<snow::HandshakeState, snow::Error>)
    ensures
        out is Ok,
        out matches Ok(state) ==> noise_progress(state) == (false, 0nat) && noise_local_key(state)
            == private@ && noise_remote_key(state) is None,
{
    Builder::new(NOISE_PROTOCOL.parse()?).local_private_key(private).build_responder()
}

/// `HandshakeState::write_message` with no payload: fails where it is not this
/// side's turn to send, and changes nothing there. The message holds keys that
/// are chosen at random, so nothing is said of it but its length. Sending does
/// not change what the other side has shown.
#[verifier::external_body]
fn write_handshake(state: &mut snow::HandshakeState) -> (out: Result<Vec<u8>, snow::Error>)
    ensures
        noise_local_key(*final(state)) == noise_local_key(*old(state)),
        noise_remote_key(*final(state)) == noise_remote_key(*old(state)),
        ({
            let (initiator, messages) = noise_progress(*old(state));
            match out {
                Ok(message) => {
                    &&& turn_after(initiator, messages as int) is Send
                    &&& noise_progress(*final(state)) == (initiator, messages + 1)
                    &&& message@.len() == handshake_message_len(messages as int)
                },
                Err(_) => {
                    &&& turn_after(initiator, messages as int) !is Send
                    &&& noise_progress(*final(state)) == (initiator, messages)
                },
            }
        }),
{
    let mut message = vec![0; MAX_MESSAGE_BYTES];
    let len = state.write_message(&[], &mut message)?;
    message.truncate(len);
    Ok(message)
}

/// `HandshakeState::read_message`: whether it succeeds, and what the other side
/// has shown then, depends on the handshake and the message alone. It fails
/// where it is not this side's turn to receive, and on a message that is too
/// long. The first message shows no key, each later one that is received shows
/// one of 32 bytes. What the other side has shown is left open where a message
/// of a fitting length is refused.
#[verifier::external_body]
fn read_handshake(state: &mut snow::HandshakeState, message: &[u8]) -> (out: Result<
    (),
    snow::Error,
>)
    ensures
        noise_local_key(*final(state)) == noise_local_key(*old(state)),
        ({
            let (initiator, messages) = noise_progress(*old(state));
            let shown = noise_remote_key(*final(state));
            match out {
                Ok(_) => {
                    &&& turn_after(initiator, messages as int) is Receive
                    &&& message@.len() <= MAX_MESSAGE_BYTES
                    &&& noise_progress(*final(state)) == (initiator, messages + 1)
                    &&& noise_read(*old(state), message@) == Some(shown)
                    &&& messages == 0 ==> shown == noise_remote_key(*old(state))
                    &&& messages > 0 ==> (shown matches Some(key) && key.len() == 32)
                },
                Err(_) => {
                    &&& noise_progress(*final(state)) == (initiator, messages)
                    &&& noise_read(*old(state), message@) is None
                    &&& message@.len() > MAX_MESSAGE_BYTES ==> shown == noise_remote_key(
                        *old(state),
                    )
                },
            }
        }),
{
    let mut payload = vec![0; MAX_MESSAGE_BYTES];
    state.read_message(message, &mut payload)?;
    Ok(())
}

/// `HandshakeState::get_remote_static`: the key that the other side has shown.
#[verifier::external_body]
fn remote_key(state: &snow::HandshakeState) -> (key: Option<Vec<u8>>)
    ensures
        match key {
            Some(key) => noise_remote_key(*state) == Some(key@),
            None => noise_remote_key(*state) is None,
        },
{
    state.get_remote_static().map(|key| key.to_vec())
}

/// `HandshakeState::into_transport_mode`: fails if the handshake is not over,
/// else each side sends with the key of its own messages, receives with that
/// of the other's, and the numbers of both directions start at nought.
#[verifier::external_body]
fn into_transport(state: snow::HandshakeState) -> (out: Result<snow::TransportState, snow::Error>)
    ensures
        ({
            let (initiator, messages) = noise_progress(state);
            match out {
                Ok(transport) => {
                    &&& turn_after(initiator, messages as int) is Over
                    &&& (noise_sending(transport), noise_receiving(transport)) == transport_ends(
                        initiator,
                        noise_keys(state),
                    )
                },
                Err(_) => turn_after(initiator, messages as int) !is Over,
            }
        }),
{
    state.into_transport_mode()
}

/// `TransportState::write_message`: fails on a payload that is too long with
/// its tag, or when the numbers have run out; else encrypts the payload, adds
/// the tag and goes on to the next number.
#[verifier::external_body]
fn encrypt(state: &mut snow::TransportState, payload: &[u8]) -> (out: Result<
    Vec<u8>,
    snow::Error,
>)
    ensures
        noise_receiving(*final(state)) == noise_receiving(*old(state)),
        out is Ok <==> payload@.len() + TAG_BYTES <= MAX_MESSAGE_BYTES && noise_sending(
            *old(state),
        ).1 < u64::MAX,
        match out {
            Ok(message) => {
                let (key, number) = noise_sending(*old(state));
                &&& message@ == noise_sealed(key, number, payload@)
                &&& message@.len() == payload@.len() + TAG_BYTES
                &&& noise_sending(*final(state)) == (key, number + 1)
            },
            Err(_) => noise_sending(*final(state)) == noise_sending(*old(state)),
        },
{
    let mut message = vec![0; payload.len() + TAG_BYTES];
    let len = state.write_message(payload, &mut message)?;
    message.truncate(len);
    Ok(message)
}

/// `TransportState::read_message`: gives back the one payload that
/// `write_message` makes this message of with the same key and number, and
/// goes on to the next number. Fails where there is none, on a message that
/// is too long, or when the numbers have run out; then nothing changes.
#[verifier::external_body]
fn decrypt(state: &mut snow::TransportState, message: &[u8]) -> (out: Result<
    Vec<u8>,
    snow::Error,
>)
    ensures
        noise_sending(*final(state)) == noise_sending(*old(state)),
        ({
            let (key, number) = noise_receiving(*old(state));
            match out {
                Ok(payload) => {
                    &&& message@ == noise_sealed(key, number, payload@)
                    &&& message@.len() == payload@.len() + TAG_BYTES
                    &&& noise_receiving(*final(state)) == (key, number + 1)
                    &&& forall|other: Seq<u8>|
                        message@ == #[trigger] noise_sealed(key, number, other) ==> other
                            == payload@
                },
                Err(_) => {
                    &&& noise_receiving(*final(state)) == noise_receiving(*old(state))
                    &&& message@.len() <= MAX_MESSAGE_BYTES && number < u64::MAX ==> forall|
                        other: Seq<u8>,
                    |
                        message@ != #[trigger] noise_sealed(key, number, other)
                },
            }
        }),
{
    let mut payload = vec![0; message.len()];
    let len = state.read_message(message, &mut payload)?;
    payload.truncate(len);
    Ok(payload)
}

/// A handshake.
pub struct Handshake {
    state: snow::HandshakeState,
    initiator: bool,
    messages: u8,
}

/// A session whose handshake is over.
pub struct NoiseTransport {
    state: snow::TransportState,
}

/// A fingerprint that does not satisfy what was expected; anything does where
/// nothing was.
pub open spec fn is_unexpected(expected: Option<&str>, actual: Seq<char>) -> bool {
    expected matches Some(expected) && expected@.len() > 0 && expected@ != actual
}

/// Checks the key that the other side has shown.
pub fn verify_peer_key(remote: Option<&Vec<u8>>, expected: Option<&str>) -> (out: Result<
    String,
    CryptoError,
>)
    ensures
        match remote {
            None => out == Err::<String, CryptoError>(CryptoError::InvalidKeyLength(0)),
            Some(key) => if is_unexpected(expected, fingerprint_text(key@)) {
                out matches Err(
                    CryptoError::FingerprintMismatch { expected: wanted, actual },
                ) && wanted@ == expected->Some_0@ && actual@ == fingerprint_text(key@)
            } else {
                out matches Ok(actual) && actual@ == fingerprint_text(key@)
            },
        },
{
    let actual: String = match remote {
        Some(key) => fingerprint(key.as_slice()),
        None => {
            return Err(CryptoError::InvalidKeyLength(0));
        },
    };
    if let Some(expected) = expected {
        let nothing: bool = str_eq(expected, "");
        proof {
            reveal_strlit("");
            assert(expected@.len() == 0 ==> expected@ =~= ""@);
        }
        if !nothing && !str_eq(expected, actual.as_str()) {
            return Err(CryptoError::FingerprintMismatch { expected: expected.to_owned(), actual });
        }
    }
    Ok(actual)
}

impl Handshake {
    /// Whether this side began.
    pub closed spec fn initiator(self) -> bool {
        self.initiator
    }

    /// How many messages have gone.
    pub closed spec fn messages(self) -> int {
        self.messages as int
    }

    /// The private key of this side.
    pub closed spec fn local(self) -> Seq<u8> {
        noise_local_key(self.state)
    }

    /// The key that the other side has shown.
    pub closed spec fn remote(self) -> Option<Seq<u8>> {
        noise_remote_key(self.state)
    }

    /// What the other side has shown once a message was taken in; `None` where
    /// the message is refused.
    pub closed spec fn after(self, message: Seq<u8>) -> Option<Option<Seq<u8>>> {
        noise_read(self.state, message)
    }

    /// The keys that the handshake ends with.
    pub closed spec fn keys(self) -> (Seq<u8>, Seq<u8>) {
        noise_keys(self.state)
    }

    /// The messages are counted, and the other side has shown its key once it
    /// has sent the second or the third of them.
    pub closed spec fn wf(self) -> bool {
        &&& self.messages <= 3
        &&& noise_progress(self.state) == (self.initiator, self.messages as nat)
        &&& self.messages >= (if self.initiator {
            2int
        } else {
            3int
        }) ==> (self.remote() matches Some(key) && key.len() == 32)
    }

    /// Begins a handshake.
    pub fn initiate(identity: &IdentityKey) -> (out: Result<Self, CryptoError>)
        ensures
            out matches Ok(handshake) && handshake.wf() && handshake.initiator()
                && handshake.messages() == 0 && handshake.local() == identity.private@
                && handshake.remote() is None,
    {
        match build_initiator(&identity.private) {
            Ok(state) => Ok(Handshake { state, initiator: true, messages: 0 }),
            Err(error) => Err(CryptoError::Noise(error)),
        }
    }

    /// Waits for a handshake.
    pub fn respond(identity: &IdentityKey) -> (out: Result<Self, CryptoError>)
        ensures
            out matches Ok(handshake) && handshake.wf() && !handshake.initiator()
                && handshake.messages() == 0 && handshake.local() == identity.private@
                && handshake.remote() is None,
    {
        match build_responder(&identity.private) {
            Ok(state) => Ok(Handshake { state, initiator: false, messages: 0 }),
            Err(error) => Err(CryptoError::Noise(error)),
        }
    }

    /// Whose turn it is.
    pub fn turn(&self) -> (turn: Turn)
        ensures
            turn == turn_after(self.initiator(), self.messages()),
    {
        if self.messages >= 3 {
            Turn::Over
        } else if self.initiator == (self.messages % 2 == 0) {
            Turn::Send
        } else {
            Turn::Receive
        }
    }

    /// The next message to send.
    pub fn write(&mut self) -> (out: Result<Vec<u8>, CryptoError>)
        requires
            old(self).wf(),
            turn_after(old(self).initiator(), old(self).messages()) is Send,
        ensures
            final(self).wf(),
            final(self).initiator() == old(self).initiator(),
            final(self).local() == old(self).local(),
            final(self).remote() == old(self).remote(),
            final(self).messages() == old(self).messages() + 1,
            out matches Ok(message) && message@.len() == handshake_message_len(
                old(self).messages(),
            ),
    {
        match write_handshake(&mut self.state) {
            Ok(message) => {
                self.messages = self.messages + 1;
                Ok(message)
            },
            Err(error) => Err(CryptoError::Noise(error)),
        }
    }

    /// Takes a message of the other side in.
    pub fn read(&mut self, message: &[u8]) -> (out: Result<(), CryptoError>)
        requires
            old(self).wf(),
            turn_after(old(self).initiator(), old(self).messages()) is Receive,
        ensures
            final(self).wf(),
            final(self).initiator() == old(self).initiator(),
            final(self).local() == old(self).local(),
            message@.len() > MAX_MESSAGE_BYTES ==> out is Err && final(self).remote() == old(
                self,
            ).remote(),
            match out {
                Ok(_) => final(self).messages() == old(self).messages() + 1 && old(self).after(
                    message@,
                ) == Some(final(self).remote()),
                Err(error) => final(self).messages() == old(self).messages() && old(self).after(
                    message@,
                ) is None && error is Noise,
            },
    {
        match read_handshake(&mut self.state, message) {
            Ok(_) => {
                self.messages = self.messages + 1;
                Ok(())
            },
            Err(error) => Err(CryptoError::Noise(error)),
        }
    }

    /// Ends a handshake: the session and the fingerprint of the other side,
    /// which has to be the one that is expected, if one is.
    pub fn finish(self, expected: Option<&str>) -> (out: Result<
        (NoiseTransport, String),
        CryptoError,
    >)
        requires
            self.wf(),
            turn_after(self.initiator(), self.messages()) is Over,
        ensures
            self.remote() matches Some(key) && key.len() == 32 && if is_unexpected(
                expected,
                fingerprint_text(key),
            ) {
                out matches Err(
                    CryptoError::FingerprintMismatch { expected: wanted, actual },
                ) && wanted@ == expected->Some_0@ && actual@ == fingerprint_text(key)
            } else {
                out matches Ok((transport, actual)) && actual@ == fingerprint_text(key) && (
                    transport.sending(),
                    transport.receiving(),
                ) == transport_ends(self.initiator(), self.keys())
            },
    {
        let remote: Option<Vec<u8>> = remote_key(&self.state);
        let actual: String = match verify_peer_key(remote.as_ref(), expected) {
            Ok(actual) => actual,
            Err(error) => {
                return Err(error);
            },
        };
        match into_transport(self.state) {
            Ok(state) => Ok((NoiseTransport { state }, actual)),
            Err(error) => Err(CryptoError::Noise(error)),
        }
    }
}

/// A payload fits a message with its tag, and there is a number left for it.
pub open spec fn can_seal(sending: (Seq<u8>, nat), plaintext: Seq<u8>) -> bool {
    plaintext.len() + TAG_BYTES <= MAX_MESSAGE_BYTES && sending.1 < u64::MAX
}

/// What a side with a key and a number opens a packet to: the only payload
/// that it can have been sealed of. Nothing comes of a packet that was not
/// sealed so, that is too long or that there is no number left for.
pub open spec fn opens_to(
    receiving: (Seq<u8>, nat),
    packet: Seq<u8>,
    got: Option<Seq<u8>>,
) -> bool {
    let (key, number) = receiving;
    match got {
        Some(plaintext) => {
            &&& packet == noise_sealed(key, number, plaintext)
            &&& forall|other: Seq<u8>|
                packet == #[trigger] noise_sealed(key, number, other) ==> other == plaintext
        },
        None => packet.len() <= MAX_MESSAGE_BYTES && number < u64::MAX ==> forall|other: Seq<u8>|
            packet != #[trigger] noise_sealed(key, number, other),
    }
}

impl NoiseTransport {
    /// The key that the session sends with, and the number of its next message.
    pub closed spec fn sending(self) -> (Seq<u8>, nat) {
        noise_sending(self.state)
    }

    /// The key that the session receives with, and the number of the next
    /// message that it takes.
    pub closed spec fn receiving(self) -> (Seq<u8>, nat) {
        noise_receiving(self.state)
    }

    /// Encrypts a packet.
    pub fn seal(&mut self, plaintext: &[u8]) -> (out: Result<Vec<u8>, CryptoError>)
        ensures
            final(self).receiving() == old(self).receiving(),
            out is Ok <==> can_seal(old(self).sending(), plaintext@),
            match out {
                Ok(packet) => {
                    let (key, number) = old(self).sending();
                    &&& packet@ == noise_sealed(key, number, plaintext@)
                    &&& packet@.len() == plaintext@.len() + TAG_BYTES
                    &&& final(self).sending() == (key, number + 1)
                },
                Err(error) => error is Noise && final(self).sending() == old(self).sending(),
            },
    {
        match encrypt(&mut self.state, plaintext) {
            Ok(packet) => Ok(packet),
            Err(error) => Err(CryptoError::Noise(error)),
        }
    }

    /// Decrypts a packet: what the other side sealed with the same key and
    /// number. A packet that it did not seal so changes nothing.
    pub fn open(&mut self, packet: &[u8]) -> (out: Result<Vec<u8>, CryptoError>)
        ensures
            final(self).sending() == old(self).sending(),
            match out {
                Ok(plaintext) => opens_to(old(self).receiving(), packet@, Some(plaintext@))
                    && final(self).receiving() == (
                    old(self).receiving().0,
                    old(self).receiving().1 + 1,
                ),
                Err(error) => opens_to(old(self).receiving(), packet@, None) && error is Noise
                    && final(self).receiving() == old(self).receiving(),
            },
    {
        match decrypt(&mut self.state, packet) {
            Ok(plaintext) => Ok(plaintext),
            Err(error) => Err(CryptoError::Noise(error)),
        }
    }
}

/// What one side sends arrives at the other as it was: a side whose key and
/// number agree with those that a packet was sealed with opens it to what was
/// sealed.
pub proof fn law_packet_arrives(
    ends: (Seq<u8>, nat),
    plaintext: Seq<u8>,
    packet: Seq<u8>,
    got: Option<Seq<u8>>,
)
    requires
        can_seal(ends, plaintext),
        packet == noise_sealed(ends.0, ends.1, plaintext),
        packet.len() == plaintext.len() + TAG_BYTES,
        opens_to(ends, packet, got),
    ensures
        got == Some(plaintext),
{
}

/// Two sides that have ended a handshake with the same keys understand each
/// other: each sends with what the other receives with.
pub proof fn law_ends_match(keys: (Seq<u8>, Seq<u8>))
    ensures
        transport_ends(true, keys).0 == transport_ends(false, keys).1,
        transport_ends(true, keys).1 == transport_ends(false, keys).0,
{
}

/// A handshake of two sides comes to its end: at every point before it, one
/// side has to send what the other has to receive.
pub proof fn law_turns_alternate(messages: int)
    requires
        0 <= messages < 3,
    ensures
        turn_after(true, messages) is Send <==> turn_after(false, messages) is Receive,
        turn_after(true, messages) is Receive <==> turn_after(false, messages) is Send,
        turn_after(true, messages) !is Over,
{
}

/// A key is turned away exactly where another one is expected; without an
/// expected one every key is let through.
pub proof fn law_only_another_key_is_turned_away(expected: &str, actual: Seq<char>)
    ensures
        !is_unexpected(None, actual),
        expected@.len() == 0 ==> !is_unexpected(Some(expected), actual),
        expected@.len() > 0 ==> (is_unexpected(Some(expected), actual) <==> expected@ != actual),
{
}

} // verus!
