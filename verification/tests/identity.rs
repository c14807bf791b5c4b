use edge_kvm::identity::{fingerprint, pairing_code, CryptoError, IdentityKey};
use edge_kvm::noise::{Handshake, NoiseTransport, Turn};
use edge_kvm::pins::{PinStatus, PinStore};
use sha2::{Digest, Sha256};

#[test]
fn pairing_code_is_symmetric_and_six_digits() {
    let code = pairing_code("aa:bb", "cc:dd");
    assert_eq!(code, pairing_code("cc:dd", "aa:bb"));
    assert_eq!(code.len(), 6);
    assert!(code.bytes().all(|byte| byte.is_ascii_digit()));
    assert_ne!(code, pairing_code("aa:bb", "ee:ff"));
}

#[test]
fn pin_status_does_not_mutate_until_confirmed() {
    let mut store = PinStore::default();
    assert_eq!(store.status("controller", "new"), PinStatus::Unknown);
    store.pin("controller", "old");
    assert_eq!(
        store.status("controller", "new"),
        PinStatus::Changed {
            expected: "old".to_string()
        }
    );
    assert_eq!(store.status("controller", "old"), PinStatus::Trusted);
}

#[test]
fn identity_persists() {
    let first = IdentityKey::generate().unwrap();
    let (private, public) = first.to_hex();
    let second = IdentityKey::from_hex(&private, &public).unwrap();
    assert_eq!(first, second);
    assert_eq!(first.fingerprint(), second.fingerprint());
}

fn connect(
    initiator: &IdentityKey,
    responder: &IdentityKey,
    expected: Option<&str>,
) -> ((NoiseTransport, String), (NoiseTransport, String)) {
    let mut client = Handshake::initiate(initiator).unwrap();
    let mut server = Handshake::respond(responder).unwrap();
    while client.turn() != Turn::Over {
        if client.turn() == Turn::Send {
            let message = client.write().unwrap();
            server.read(&message).unwrap();
        } else {
            let message = server.write().unwrap();
            client.read(&message).unwrap();
        }
    }
    (
        client.finish(expected).ok().unwrap(),
        server.finish(None).ok().unwrap(),
    )
}

#[test]
fn noise_session_encrypts_packets() {
    let initiator_identity = IdentityKey::generate().unwrap();
    let responder_identity = IdentityKey::generate().unwrap();
    let expected_responder = responder_identity.fingerprint();
    let expected_initiator = initiator_identity.fingerprint();

    let ((mut client, initiator_peer), (mut server, responder_peer)) = connect(
        &initiator_identity,
        &responder_identity,
        Some(&expected_responder),
    );
    let packet = client.seal(b"hello").unwrap();
    assert_ne!(packet, b"hello");
    let message = server.open(&packet).unwrap();
    let packet = server.seal(b"world").unwrap();
    let reply = client.open(&packet).unwrap();

    assert_eq!(initiator_peer, expected_responder);
    assert_eq!(responder_peer, expected_initiator);
    assert_eq!(message, b"hello");
    assert_eq!(reply, b"world");
}

#[test]
fn fingerprint_is_of_the_digest() {
    let digest = Sha256::digest([7u8; 32]);
    let text: String = digest.iter().map(|byte| format!("{byte:02x}")).collect();
    assert_eq!(
        fingerprint(&[7u8; 32]),
        format!(
            "{}:{}:{}:{}",
            &text[..8],
            &text[8..16],
            &text[16..24],
            &text[24..32]
        )
    );
}

#[test]
fn keys_are_read_from_hexadecimal() {
    let text = "0123456789abcdefABCDEF0123456789".repeat(2);
    let key = IdentityKey::from_hex(&text, &text).unwrap();
    let (private, public) = key.to_hex();
    assert_eq!(private, text.to_lowercase());
    assert_eq!(public, text.to_lowercase());
    assert!(matches!(
        IdentityKey::from_hex("zz", &text),
        Err(CryptoError::Hex(_))
    ));
    assert!(matches!(
        IdentityKey::from_hex("ab", &text),
        Err(CryptoError::InvalidKeyLength(1))
    ));
}

#[test]
fn another_key_than_the_pinned_one_is_refused() {
    let initiator = IdentityKey::generate().unwrap();
    let responder = IdentityKey::generate().unwrap();
    let mut client = Handshake::initiate(&initiator).unwrap();
    let mut server = Handshake::respond(&responder).unwrap();
    while client.turn() != Turn::Over {
        if client.turn() == Turn::Send {
            let message = client.write().unwrap();
            server.read(&message).unwrap();
        } else {
            let message = server.write().unwrap();
            client.read(&message).unwrap();
        }
    }
    assert!(client.finish(Some("aa:bb")).is_err());
}

#[test]
fn handshake_takes_three_messages() {
    let mut client = Handshake::initiate(&IdentityKey::generate().unwrap()).unwrap();
    let mut server = Handshake::respond(&IdentityKey::generate().unwrap()).unwrap();
    assert_eq!((client.turn(), server.turn()), (Turn::Send, Turn::Receive));
    assert!(server.read(&[0; 65_536]).is_err());
    assert!(server.read(&[0; 31]).is_err());
    assert_eq!(server.turn(), Turn::Receive);
    let first = client.write().unwrap();
    assert_eq!(first.len(), 32);
    server.read(&first).unwrap();
    let second = server.write().unwrap();
    assert_eq!(second.len(), 96);
    let mut changed = second.clone();
    changed[95] ^= 1;
    assert!(matches!(client.read(&changed), Err(CryptoError::Noise(_))));
    assert_eq!(client.turn(), Turn::Receive);
    client.read(&second).unwrap();
    let third = client.write().unwrap();
    assert_eq!(third.len(), 64);
    server.read(&third).unwrap();
    assert_eq!((client.turn(), server.turn()), (Turn::Over, Turn::Over));
}

#[test]
fn packets_are_opened_in_order_and_unchanged() {
    let initiator = IdentityKey::generate().unwrap();
    let responder = IdentityKey::generate().unwrap();
    let ((mut client, _), (mut server, _)) = connect(&initiator, &responder, None);
    let first = client.seal(b"one").unwrap();
    let second = client.seal(b"two").unwrap();
    assert_ne!(first, second);
    assert_eq!(server.open(&first).unwrap(), b"one");
    let mut changed = second.clone();
    changed[0] ^= 1;
    assert!(server.open(&changed).is_err());
    assert_eq!(server.open(&second).unwrap(), b"two");
}

#[test]
fn pairing_code_has_its_value() {
    let digest = Sha256::digest(b"edge-kvm-pairing-v1\0aa:bb\0cc:dd");
    let number = u32::from_be_bytes([digest[0], digest[1], digest[2], digest[3]]) % 1_000_000;
    assert_eq!(pairing_code("cc:dd", "aa:bb"), format!("{number:06}"));
}

#[test]
fn pinned_keys_can_be_read_out() {
    let mut store = PinStore::default();
    store.pin("desk", "aa");
    store.pin("lap", "bb");
    store.pin("desk", "cc");
    let entries: Vec<(&str, &str)> = (0..store.len())
        .map(|at| store.entry(at))
        .map(|(name, peer)| (name.as_str(), peer.fingerprint.as_str()))
        .collect();
    assert_eq!(entries, [("desk", "cc"), ("lap", "bb")]);
}
