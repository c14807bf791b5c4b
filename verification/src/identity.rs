//! Keys that tell computers apart, and what people compare of them.

use crate::bytes::{be_value, read_be};
use crate::hash::{sha256, sha256_digest};
use crate::text::{
    bytes_le, chars_of, digit_char, digit_to_char, is_digit, lemma_bytes_le_antisymmetric,
    lemma_bytes_le_total, lemma_encoding_is_injective, str_le, string_of,
};
use snow::Builder;
use vstd::prelude::*;
use vstd::utf8::encode_utf8;

verus! {

/// Why hexadecimal digits could not be read.
#[verifier::external_type_specification]
#[verifier::external_body]
pub struct ExFromHexError(hex::FromHexError);

/// What the Noise protocol failed on.
#[verifier::external_type_specification]
#[verifier::external_body]
pub struct ExNoiseError(snow::Error);

/// What can go wrong with keys and sessions.
#[derive(Debug)]
pub enum CryptoError {
    Noise(snow::Error),
    InvalidKeyLength(usize),
    Hex(hex::FromHexError),
    PacketTooLarge(u32),
    FingerprintMismatch { expected: String, actual: String },
}

/// The protocol that sessions are opened with.
pub const NOISE_PROTOCOL: &'static str = "Noise_XX_25519_ChaChaPoly_BLAKE2s";

/// The hexadecimal digit of a number below sixteen, in lower case.
pub open spec fn hex_digit(n: int) -> char {
    if n < 10 {
        (('0' as int) + n) as char
    } else {
        (('a' as int) + n - 10) as char
    }
}

/// Some bytes in hexadecimal: two digits for each, the higher one first.
pub open spec fn hex_text(bytes: Seq<u8>) -> Seq<char> {
    Seq::new(
        2 * bytes.len(),
        |i: int| hex_digit(if i % 2 == 0 {
            bytes[i / 2] as int / 16
        } else {
            bytes[i / 2] as int % 16
        }),
    )
}

/// The value of a hexadecimal digit, in lower or upper case.
pub open spec fn hex_value(c: char) -> Option<int> {
    if '0' <= c <= '9' {
        Some(c as int - '0' as int)
    } else if 'a' <= c <= 'f' {
        Some(c as int - 'a' as int + 10)
    } else if 'A' <= c <= 'F' {
        Some(c as int - 'A' as int + 10)
    } else {
        None
    }
}

/// The bytes that a text gives in hexadecimal, if it gives any: it has an
/// even number of characters, and all of them are digits.
pub open spec fn hex_bytes(text: Seq<char>) -> Option<Seq<u8>> {
    if text.len() % 2 == 0 && forall|i: int|
        0 <= i < text.len() ==> hex_value(#[trigger] text[i]) is Some {
        Some(
            Seq::new(
                text.len() / 2,
                |i: int| (16 * hex_value(text[2 * i])->Some_0 + hex_value(
                    text[2 * i + 1],
                )->Some_0) as u8,
            ),
        )
    } else {
        None
    }
}

/// `hex::encode`: two digits in lower case for each byte.
#[verifier::external_body]
fn encode_hex(bytes: &[u8]) -> (text: String)
    ensures
        text@ == hex_text(bytes@),
{
    hex::encode(bytes)
}

/// `hex::decode`: the bytes that pairs of digits, in lower or upper case,
/// stand for. Fails on anything else.
#[verifier::external_body]
fn decode_hex(text: &str) -> (out: Result<Vec<u8>, hex::FromHexError>)
    ensures
        match out {
            Ok(bytes) => hex_bytes(text@) == Some(bytes@),
            Err(_) => hex_bytes(text@) is None,
        },
{
    hex::decode(text)
}

/// The public key that belongs to a private one in `Builder::generate_keypair`.
pub uninterp spec fn noise_public_key(private: Seq<u8>) -> Seq<u8>;

/// A pair of keys for the Noise protocol, from `Builder::generate_keypair`.
/// The private one comes from the system's source of randomness, the public
/// one depends on it alone; for this protocol each has 32 bytes.
#[verifier::external_body]
fn generate_keypair() -> (out: Result<(Vec<u8>, Vec<u8>), snow::Error>)
    ensures
        out is Ok,
        out matches Ok(pair) ==> pair.0@.len() == 32 && pair.1@.len() == 32 && pair.1@
            == noise_public_key(pair.0@),
{
    let keypair = Builder::new(NOISE_PROTOCOL.parse()?).generate_keypair()?;
    Ok((keypair.private, keypair.public))
}

/// What tells one computer from another.
#[derive(Clone, Debug, PartialEq, Eq)]
pub struct IdentityKey {
    pub private: [u8; 32],
    pub public: [u8; 32],
}

/// The bytes as a key, if there are as many as a key has.
pub fn vec_to_key(bytes: &Vec<u8>) -> (out: Result<[u8; 32], CryptoError>)
    ensures
        match out {
            Ok(key) => bytes@.len() == 32 && key@ == bytes@,
            Err(error) => bytes@.len() != 32 && (error matches CryptoError::InvalidKeyLength(len)
                && len == bytes@.len()),
        },
{
    if bytes.len() != 32 {
        return Err(CryptoError::InvalidKeyLength(bytes.len()));
    }
    let mut key: [u8; 32] = [0;32];
    let mut i: usize = 0;
    while i < 32
        invariant
            i <= 32,
            bytes@.len() == 32,
            key@.len() == 32,
            forall|k: int| 0 <= k < i ==> key@[k] == bytes@[k],
        decreases 32 - i,
    {
        key[i] = bytes[i];
        i = i + 1;
    }
    assert(key@ =~= bytes@);
    Ok(key)
}

/// Why a text is no key.
pub ghost enum KeyProblem {
    NotHex,
    Length(nat),
}

/// A key in hexadecimal, or why a text is none.
pub open spec fn key_of(text: Seq<char>) -> Result<Seq<u8>, KeyProblem> {
    match hex_bytes(text) {
        None => Err(KeyProblem::NotHex),
        Some(bytes) => if bytes.len() == 32 {
            Ok(bytes)
        } else {
            Err(KeyProblem::Length(bytes.len()))
        },
    }
}

impl CryptoError {
    /// The error says why a text is no key.
    pub open spec fn says(self, problem: KeyProblem) -> bool {
        match problem {
            KeyProblem::NotHex => self is Hex,
            KeyProblem::Length(n) => self matches CryptoError::InvalidKeyLength(len) && len == n,
        }
    }
}

fn read_key(text: &str) -> (out: Result<[u8; 32], CryptoError>)
    ensures
        match out {
            Ok(key) => key_of(text@) matches Ok(bytes) && bytes == key@,
            Err(error) => key_of(text@) matches Err(problem) && error.says(problem),
        },
{
    match decode_hex(text) {
        Ok(bytes) => vec_to_key(&bytes),
        Err(error) => Err(CryptoError::Hex(error)),
    }
}

impl IdentityKey {
    /// A new pair of keys. The private one is random; the public one belongs to
    /// it.
    pub fn generate() -> (out: Result<Self, CryptoError>)
        ensures
            out matches Ok(key) && key.public@ == noise_public_key(key.private@),
    {
        match generate_keypair() {
            Ok((private, public)) => Self::from_pair(&private, &public),
            Err(error) => Err(CryptoError::Noise(error)),
        }
    }

    /// A pair of keys as bytes.
    pub fn from_pair(private: &Vec<u8>, public: &Vec<u8>) -> (out: Result<Self, CryptoError>)
        ensures
            match out {
                Ok(key) => key.private@ == private@ && key.public@ == public@,
                Err(error) => error matches CryptoError::InvalidKeyLength(len) && len == (
                if private@.len() != 32 {
                    private@.len()
                } else {
                    public@.len()
                }),
            },
            out is Ok <==> private@.len() == 32 && public@.len() == 32,
    {
        let private: [u8; 32] = match vec_to_key(private) {
            Ok(key) => key,
            Err(error) => {
                return Err(error);
            },
        };
        match vec_to_key(public) {
            Ok(public) => Ok(IdentityKey { private, public }),
            Err(error) => Err(error),
        }
    }

    /// What people compare of the public key.
    pub fn fingerprint(&self) -> (text: String)
        ensures
            text@ == fingerprint_text(self.public@),
    {
        fingerprint(self.public.as_slice())
    }

    /// The private and the public key in hexadecimal.
    pub fn to_hex(&self) -> (texts: (String, String))
        ensures
            texts.0@ == hex_text(self.private@),
            texts.1@ == hex_text(self.public@),
    {
        (encode_hex(self.private.as_slice()), encode_hex(self.public.as_slice()))
    }

    /// The keys that two texts give in hexadecimal, the private one first.
    pub fn from_hex(private: &str, public: &str) -> (out: Result<Self, CryptoError>)
        ensures
            match (key_of(private@), key_of(public@)) {
                (Err(problem), _) => out matches Err(error) && error.says(problem),
                (_, Err(problem)) => out matches Err(error) && error.says(problem),
                (Ok(secret), Ok(known)) => out matches Ok(key) && key.private@ == secret
                    && key.public@ == known,
            },
    {
        let private: [u8; 32] = match read_key(private) {
            Ok(key) => key,
            Err(error) => {
                return Err(error);
            },
        };
        match read_key(public) {
            Ok(public) => Ok(IdentityKey { private, public }),
            Err(error) => Err(error),
        }
    }
}

/// What is written in hexadecimal is read back.
pub proof fn law_hex_reads_back(bytes: Seq<u8>)
    ensures
        hex_bytes(hex_text(bytes)) == Some(bytes),
{
    let text = hex_text(bytes);
    assert forall|i: int| 0 <= i < text.len() implies hex_value(#[trigger] text[i]) == Some(
        if i % 2 == 0 {
            bytes[i / 2] as int / 16
        } else {
            bytes[i / 2] as int % 16
        },
    ) by {
        let n = if i % 2 == 0 {
            bytes[i / 2] as int / 16
        } else {
            bytes[i / 2] as int % 16
        };
        assert(0 <= n < 16);
        assert(text[i] == hex_digit(n));
    }
    assert(hex_bytes(text)->Some_0 =~= bytes) by {
        assert forall|i: int| 0 <= i < bytes.len() implies hex_bytes(text)->Some_0[i]
            == bytes[i] by {
            assert(hex_value(text[2 * i]) is Some);
            assert(hex_value(text[2 * i + 1]) is Some);
            assert((2 * i) / 2 == i && (2 * i + 1) / 2 == i);
        }
    }
}

/// A key that was written down is the key that is read back.
pub proof fn law_identity_persists(key: IdentityKey)
    ensures
        key_of(hex_text(key.private@)) == Ok::<Seq<u8>, KeyProblem>(key.private@),
        key_of(hex_text(key.public@)) == Ok::<Seq<u8>, KeyProblem>(key.public@),
{
    law_hex_reads_back(key.private@);
    law_hex_reads_back(key.public@);
}

/// What people compare of a public key: the first 32 hexadecimal digits of
/// its digest, in groups of eight.
pub open spec fn fingerprint_text(public_key: Seq<u8>) -> Seq<char> {
    let digits = hex_text(sha256_digest(public_key));
    digits.subrange(0, 8) + ":"@ + digits.subrange(8, 16) + ":"@ + digits.subrange(16, 24) + ":"@
        + digits.subrange(24, 32)
}

/// What people compare of a public key.
pub fn fingerprint(public_key: &[u8]) -> (text: String)
    ensures
        text@ == fingerprint_text(public_key@),
{
    let digest: [u8; 32] = sha256(public_key);
    let digits: Vec<char> = chars_of(encode_hex(digest.as_slice()).as_str());
    let mut text: String = string_of(&digits, 0, 8);
    text.append(":");
    text.append(string_of(&digits, 8, 16).as_str());
    text.append(":");
    text.append(string_of(&digits, 16, 24).as_str());
    text.append(":");
    text.append(string_of(&digits, 24, 32).as_str());
    text
}

/// A number below a million in six digits.
pub open spec fn six_digits(n: int) -> Seq<char> {
    seq![
        digit_char(n / 100_000 % 10),
        digit_char(n / 10_000 % 10),
        digit_char(n / 1_000 % 10),
        digit_char(n / 100 % 10),
        digit_char(n / 10 % 10),
        digit_char(n % 10),
    ]
}

/// The code that two computers show while they are paired: six digits from
/// the digest of their fingerprints, the one that comes first in order first.
pub open spec fn pairing_digits(first: Seq<char>, second: Seq<char>) -> Seq<char> {
    let (a, b) = if bytes_le(encode_utf8(first), encode_utf8(second)) {
        (first, second)
    } else {
        (second, first)
    };
    let digest = sha256_digest(encode_utf8("edge-kvm-pairing-v1\0"@ + a + "\0"@ + b));
    six_digits(be_value(digest.subrange(0, 4)) as int % 1_000_000)
}

/// The code that two computers show while they are paired.
pub fn pairing_code(first_fingerprint: &str, second_fingerprint: &str) -> (code: String)
    ensures
        code@ == pairing_digits(first_fingerprint@, second_fingerprint@),
{
    let mut text: String = "edge-kvm-pairing-v1\0".to_owned();
    if str_le(first_fingerprint, second_fingerprint) {
        text.append(first_fingerprint);
        text.append("\0");
        text.append(second_fingerprint);
    } else {
        text.append(second_fingerprint);
        text.append("\0");
        text.append(first_fingerprint);
    }
    let digest: [u8; 32] = sha256(text.as_str().as_bytes());
    let n: u64 = read_be(digest.as_slice(), 0, 4) % 1_000_000;
    let mut code: String = String::new();
    code.push(digit_to_char((n / 100_000 % 10) as u8));
    code.push(digit_to_char((n / 10_000 % 10) as u8));
    code.push(digit_to_char((n / 1_000 % 10) as u8));
    code.push(digit_to_char((n / 100 % 10) as u8));
    code.push(digit_to_char((n / 10 % 10) as u8));
    code.push(digit_to_char((n % 10) as u8));
    code
}

/// Both computers show the same code, whichever of them comes first.
pub proof fn law_pairing_code_is_symmetric(first: Seq<char>, second: Seq<char>)
    ensures
        pairing_digits(first, second) == pairing_digits(second, first),
{
    let a = encode_utf8(first);
    let b = encode_utf8(second);
    lemma_bytes_le_total(a, b);
    if bytes_le(a, b) && bytes_le(b, a) {
        lemma_bytes_le_antisymmetric(a, b);
        lemma_encoding_is_injective(first, second);
    }
}

/// The code always has six characters, and all of them are digits.
pub proof fn law_pairing_code_is_six_digits(first: Seq<char>, second: Seq<char>)
    ensures
        pairing_digits(first, second).len() == 6,
        forall|i: int| 0 <= i < 6 ==> is_digit(#[trigger] pairing_digits(first, second)[i]),
{
}

/// Each byte is written as two digits, the higher half first, in lower case.
pub proof fn law_hex_digits_are_the_bytes(bytes: Seq<u8>, i: int)
    requires
        0 <= i < bytes.len(),
    ensures
        hex_text(bytes).len() == 2 * bytes.len(),
        hex_value(hex_text(bytes)[2 * i]) == Some(bytes[i] as int / 16),
        hex_value(hex_text(bytes)[2 * i + 1]) == Some(bytes[i] as int % 16),
        !('A' <= hex_text(bytes)[2 * i] <= 'F'),
        !('A' <= hex_text(bytes)[2 * i + 1] <= 'F'),
{
}

/// A fingerprint shows the first sixteen bytes of the digest of its key, in four
/// groups of eight digits with colons between them.
pub proof fn law_fingerprint_shows_the_digest(public_key: Seq<u8>, i: int)
    requires
        sha256_digest(public_key).len() == 32,
        0 <= i < 32,
    ensures
        fingerprint_text(public_key).len() == 35,
        fingerprint_text(public_key)[8] == ':',
        fingerprint_text(public_key)[17] == ':',
        fingerprint_text(public_key)[26] == ':',
        fingerprint_text(public_key)[i + i / 8] == hex_text(sha256_digest(public_key))[i],
{
    reveal_strlit(":");
}

} // verus!
