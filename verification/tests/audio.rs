use edge_kvm::audio::{AudioError, PacketCipher, SessionSecrets, SAMPLES_PER_CHANNEL};
use edge_kvm::jitter::{AudioPacket, JitterBuffer};

fn packet(sequence: u64) -> AudioPacket {
    AudioPacket {
        sequence,
        sample_timestamp: sequence as u32 * SAMPLES_PER_CHANNEL as u32,
        flags: 0,
        payload: vec![1, 2, 3],
    }
}

#[test]
fn encrypted_packet_round_trip_and_tamper_rejection() {
    let secrets = SessionSecrets::generate();
    let cipher = PacketCipher::new(&secrets);
    let original = packet(42);
    let encrypted = cipher.seal(&original).unwrap();
    assert_eq!(cipher.open(&encrypted).unwrap(), original);
    let mut tampered = encrypted;
    *tampered.last_mut().unwrap() ^= 1;
    assert!(matches!(
        cipher.open(&tampered),
        Err(AudioError::Authentication)
    ));
}

#[test]
fn wrong_session_is_rejected() {
    let a = PacketCipher::new(&SessionSecrets::generate());
    let b = PacketCipher::new(&SessionSecrets::generate());
    assert!(matches!(
        b.open(&a.seal(&packet(1)).unwrap()),
        Err(AudioError::WrongSession)
    ));
}

#[test]
fn jitter_buffer_reorders_and_marks_loss() {
    let mut jitter = JitterBuffer::new(10);
    assert!(jitter.push(packet(10)));
    assert!(jitter.push(packet(12)));
    assert_eq!(jitter.pop_ready().unwrap().unwrap().sequence, 10);
    assert!(jitter.pop_ready().unwrap().is_none());
    assert!(jitter.pop_ready().is_none());
    assert!(jitter.push(packet(13)));
    assert_eq!(jitter.pop_ready().unwrap().unwrap().sequence, 12);
}

#[test]
fn jitter_buffer_accepts_initial_out_of_order_packets() {
    let mut jitter = JitterBuffer::new(10);
    assert!(jitter.push(packet(11)));
    assert!(jitter.push(packet(10)));
    assert_eq!(jitter.pop_ready().unwrap().unwrap().sequence, 10);
    assert!(jitter.pop_ready().is_none());
    assert!(jitter.push(packet(12)));
    assert_eq!(jitter.pop_ready().unwrap().unwrap().sequence, 11);
}

#[test]
fn problems_of_a_packet_have_words() {
    assert_eq!(AudioError::Truncated.text(), "audio packet is truncated");
    assert_eq!(
        AudioError::InvalidPacket.text(),
        "invalid audio packet magic or version"
    );
    assert_eq!(
        AudioError::WrongSession.text(),
        "audio packet belongs to another session"
    );
    assert_eq!(
        AudioError::Oversized.text(),
        "audio datagram exceeds 1200 bytes"
    );
    assert_eq!(
        AudioError::Authentication.text(),
        "audio authentication failed"
    );
}

#[test]
fn changed_datagrams_are_refused() {
    let cipher = PacketCipher::new(&SessionSecrets::generate());
    let sealed = cipher.seal(&packet(42)).unwrap();
    for at in 0..sealed.len() {
        let mut changed = sealed.clone();
        changed[at] ^= 0x10;
        let refused = cipher.open(&changed).unwrap_err();
        if at < 5 || (6..8).contains(&at) {
            assert_eq!(refused, AudioError::InvalidPacket);
        } else if (8..24).contains(&at) {
            assert_eq!(refused, AudioError::WrongSession);
        } else {
            assert_eq!(refused, AudioError::Authentication);
        }
    }
}

#[test]
fn packets_are_played_in_order() {
    let mut jitter = JitterBuffer::new(10);
    let mut played = Vec::new();
    for sequence in [9, 4, 7, 4, 5, 12, 3, 11, 10, 8, 30, 13, 14] {
        jitter.push(packet(sequence));
        while let Some(popped) = jitter.pop_ready() {
            played.extend(popped.map(|packet| packet.sequence));
        }
    }
    assert_eq!(played, [4, 9, 12]);
}
