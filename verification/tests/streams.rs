use edge_kvm::audio::{
    AudioError, PacketCipher, SessionSecrets, FLAG_PROBE, PCM_BYTES_PER_FRAME, SAMPLES_PER_FRAME,
};
use edge_kvm::clock::Instant;
use edge_kvm::framing::{read_frame, read_packet_len, write_frame, write_packet};
use edge_kvm::jitter::AudioPacket;
use edge_kvm::linux_audio::{
    accept_probe, move_inputs, probe_packet, probe_wait, restore_commands, sink_inputs,
    AudioReception, AudioRoutingGuard, AudioTransmission, FirstPacket, PactlCommand,
    RoutingJournal, RoutingProblem, RoutingStart, StreamCheck,
};
use edge_kvm::pcm::PcmCodec;
use edge_kvm::protocol::F32Bits;

const NOW: Instant = Instant { nanos: 2_000_000 };

fn to_sample(value: f32) -> i16 {
    (value.clamp(-1.0, 1.0) * i16::MAX as f32).round() as i16
}

#[test]
fn pcm_stereo_round_trip() {
    let pcm: Vec<f32> = (0..SAMPLES_PER_FRAME)
        .map(|sample| ((sample as f32 / 24.0).sin()) * 0.25)
        .collect();
    let samples: Vec<i16> = pcm.iter().map(|value| to_sample(*value)).collect();
    let encoded = PcmCodec::encode(&samples).unwrap();
    assert_eq!(encoded.len(), PCM_BYTES_PER_FRAME);
    let decoded = PcmCodec::decode(Some(&encoded)).unwrap();
    assert_eq!(decoded.len(), SAMPLES_PER_FRAME);
    for (expected, actual) in pcm.iter().zip(decoded) {
        assert!((expected - actual as f32 / i16::MAX as f32).abs() < 0.000_1);
    }
}

#[test]
fn raw_f32le_encoder_matches_sample_encoder() {
    let pcm = (0..SAMPLES_PER_FRAME)
        .map(|index| (index as f32 / SAMPLES_PER_FRAME as f32) * 2.0 - 1.0)
        .collect::<Vec<_>>();
    let raw = pcm
        .iter()
        .flat_map(|sample| sample.to_le_bytes())
        .collect::<Vec<_>>();
    let samples: Vec<i16> = pcm.iter().map(|value| to_sample(*value)).collect();
    let expected = PcmCodec::encode(&samples).unwrap();
    let words = PcmCodec::split_f32le(&raw).unwrap();
    let read: Vec<i16> = words
        .iter()
        .map(|word: &F32Bits| to_sample(f32::from_bits(word.0)))
        .collect();
    let actual = PcmCodec::encode(&read).unwrap();
    assert_eq!(actual, expected);
}

#[test]
fn frames_have_one_length() {
    assert!(matches!(
        PcmCodec::encode(&[0; 3]),
        Err(AudioError::InvalidPacket)
    ));
    assert!(matches!(
        PcmCodec::decode(Some(&[0; 3])),
        Err(AudioError::InvalidPacket)
    ));
    assert!(matches!(
        PcmCodec::split_f32le(&[0; 3]),
        Err(AudioError::InvalidPacket)
    ));
    assert_eq!(
        PcmCodec::decode(None).unwrap(),
        vec![0i16; SAMPLES_PER_FRAME]
    );
    let mut samples = vec![0i16; SAMPLES_PER_FRAME];
    samples[0] = -2;
    samples[1] = 0x0102;
    let bytes = PcmCodec::encode(&samples).unwrap();
    assert_eq!(&bytes[..4], &[0xfe, 0xff, 0x02, 0x01]);
}

#[test]
fn only_an_authentic_empty_probe_is_accepted() {
    let secrets = SessionSecrets::generate();
    let cipher = PacketCipher::new(&secrets);
    let probe = cipher.seal(&probe_packet(u64::MAX)).unwrap();
    assert!(accept_probe(&cipher, &probe, true));
    assert!(!accept_probe(&cipher, &probe, false));
    let other = PacketCipher::new(&SessionSecrets::generate());
    assert!(!accept_probe(&other, &probe, true));
    let media = cipher
        .seal(&AudioPacket {
            sequence: 1,
            sample_timestamp: 0,
            flags: 0,
            payload: Vec::new(),
        })
        .unwrap();
    assert!(!accept_probe(&cipher, &media, true));
    let loaded = cipher
        .seal(&AudioPacket {
            sequence: 1,
            sample_timestamp: 0,
            flags: FLAG_PROBE,
            payload: vec![1],
        })
        .unwrap();
    assert!(!accept_probe(&cipher, &loaded, true));
}

#[test]
fn probes_wait_a_quarter_of_a_second_at_most() {
    let deadline = NOW.plus_millis(300);
    assert_eq!(probe_wait(NOW, deadline), Some(250_000_000));
    assert_eq!(
        probe_wait(NOW.plus_millis(200), deadline),
        Some(100_000_000)
    );
    assert_eq!(probe_wait(deadline, deadline), None);
}

fn media(sequence: u64) -> AudioPacket {
    AudioPacket {
        sequence,
        sample_timestamp: 0,
        flags: 0,
        payload: vec![sequence as u8],
    }
}

#[test]
fn stream_is_played_in_order_and_survives_a_pause() {
    let mut stream = AudioReception::new(10, NOW);
    assert!(stream.wants_probe());
    let (frames, _) = stream.receive(probe_packet(0), NOW);
    assert!(frames.is_empty() && stream.wants_probe());
    let (frames, recovered) = stream.receive(media(5), NOW);
    assert!(frames.is_empty() && !recovered && !stream.wants_probe());
    let (frames, _) = stream.receive(media(7), NOW);
    assert_eq!(frames.len(), 2);
    assert_eq!(frames[0].as_ref().unwrap().sequence, 5);
    assert!(frames[1].is_none());
    let (frames, _) = stream.receive(media(6), NOW);
    assert!(frames.is_empty());
    assert_eq!(stream.on_watchdog(NOW.plus_millis(2_000)), StreamCheck::Fine);
    assert_eq!(
        stream.on_watchdog(NOW.plus_millis(2_001)),
        StreamCheck::Stalled
    );
    assert_eq!(stream.on_watchdog(NOW.plus_millis(9_000)), StreamCheck::Fine);
    let (_, recovered) = stream.receive(media(8), NOW.plus_millis(9_000));
    assert!(recovered);
}

#[test]
fn stream_that_never_comes_is_given_up() {
    let mut stream = AudioReception::new(10, NOW);
    assert_eq!(stream.on_watchdog(NOW.plus_millis(8_000)), StreamCheck::Fine);
    assert_eq!(
        stream.on_watchdog(NOW.plus_millis(8_001)),
        StreamCheck::NeverStarted
    );
    assert_eq!(stream.on_queue_full(NOW.plus_millis(999)), None);
    assert_eq!(stream.on_queue_full(NOW.plus_millis(1_000)), Some(2));
    assert_eq!(stream.on_queue_full(NOW.plus_millis(1_001)), None);
}

#[test]
fn packets_are_numbered_from_one() {
    let mut stream = AudioTransmission::new();
    assert_eq!((stream.sequence, stream.timestamp), (1, 0));
    assert!(stream.packet_sent());
    assert!(!stream.packet_sent());
    assert_eq!((stream.sequence, stream.timestamp), (3, 480));
    stream.sequence = u64::MAX;
    stream.timestamp = u32::MAX - 39;
    stream.packet_sent();
    assert_eq!((stream.sequence, stream.timestamp), (0, 200));
    assert_eq!(FirstPacket::Sent.problem(), None);
    assert_eq!(
        FirstPacket::TimedOut.problem(),
        Some("Linux audio capture produced no media for 3 seconds")
    );
    assert_eq!(
        FirstPacket::CaptureEnded.problem(),
        Some("Linux audio capture ended before sending its first packet")
    );
}

#[test]
fn listed_streams_are_moved() {
    let listing = "12\t3\t-\tPipeWire\n\n  45 x\r\n";
    assert_eq!(sink_inputs(listing), vec!["12", "45"]);
    assert!(sink_inputs("").is_empty());
    let commands = move_inputs(listing, "speakers");
    assert_eq!(commands.len(), 2);
    match &commands[1] {
        PactlCommand::MoveSinkInput { input, sink } => {
            assert_eq!((input.as_str(), sink.as_str()), ("45", "speakers"));
        }
        command => panic!("{command:?}"),
    }
    let journal = RoutingJournal {
        previous_sink: "speakers".to_string(),
        module_id: 9,
    };
    let commands = restore_commands(&journal, Some(listing));
    assert_eq!(commands.len(), 3);
    assert!(matches!(commands[2], PactlCommand::UnloadModule(9)));
    assert_eq!(restore_commands(&journal, None).len(), 1);
}

#[test]
fn sound_is_taken_from_a_monitor() {
    match AudioRoutingGuard::begin("speakers\n", false).unwrap() {
        RoutingStart::InPlace(mut guard) => {
            assert_eq!(guard.capture_source(), "speakers.monitor");
            assert!(guard.take_undo().is_none());
        }
        start => panic!("{start:?}"),
    }
    assert_eq!(
        AudioRoutingGuard::begin(" \n", true).unwrap_err(),
        RoutingProblem::NoDefaultSink
    );
    let previous = match AudioRoutingGuard::begin("speakers\n", true).unwrap() {
        RoutingStart::LoadSink { previous_sink } => previous_sink,
        start => panic!("{start:?}"),
    };
    assert_eq!(
        AudioRoutingGuard::journal_for(previous.clone(), "x7").unwrap_err(),
        RoutingProblem::InvalidModuleId
    );
    let journal = AudioRoutingGuard::journal_for(previous, "77\n").unwrap();
    let mut guard = AudioRoutingGuard::redirected(journal);
    assert_eq!(guard.capture_source(), "edge_kvm_remote.monitor");
    let journal = guard.take_undo().unwrap();
    assert_eq!(
        (journal.previous_sink.as_str(), journal.module_id),
        ("speakers", 77)
    );
    assert!(guard.take_undo().is_none());
}

#[test]
fn packets_carry_their_length() {
    let packet = write_packet(b"abc", 16).unwrap();
    assert_eq!(packet, vec![0, 0, 0, 3, b'a', b'b', b'c']);
    assert_eq!(read_packet_len(&[0, 0, 0, 3], 16).unwrap(), 3);
    assert!(write_packet(b"abc", 2).is_err());
    assert!(read_packet_len(&[0, 0, 1, 0], 255).is_err());
    let frame = write_frame(b"frame").unwrap();
    let mut header = [0u8; 4];
    header.copy_from_slice(&frame[..4]);
    assert_eq!(read_frame(&header).unwrap(), 5);
    assert!(read_frame(&[255, 255, 255, 255]).is_err());
}

#[test]
fn stream_is_buffered_for_its_delay() {
    let mut quick = AudioReception::new(10, NOW);
    let mut slow = AudioReception::new(60, NOW);
    assert!(quick.receive(media(1), NOW).0.is_empty());
    assert!(slow.receive(media(1), NOW).0.is_empty());
    assert_eq!(quick.receive(media(3), NOW).0.len(), 2);
    assert!(slow.receive(media(3), NOW).0.is_empty());
    assert!(!slow.receive(media(40), NOW).0.is_empty());
}
