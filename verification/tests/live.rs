use edge_kvm::clipboard::{CanonicalImage, ClipboardContentId, ClipboardItem};
use edge_kvm::clipboard_sync::{ClipboardSync, Received, Settled};
use edge_kvm::clock::Instant;
use edge_kvm::config::AppConfig;
use edge_kvm::live_clipboard::{ClipboardRead, LiveClipboardState, RemoteStep};
use edge_kvm::live_input::{captured_input_to_frame, CapturedInput, LiveInputPump, PumpStep};
use edge_kvm::protocol::{
    ClipboardCancelReason, ClipboardEvent, ControlEvent, F64Bits, Frame, InputEvent,
    INITIAL_ROLE_EPOCH,
};
use edge_kvm::windows_session::WindowsSession;
use sha2::{Digest, Sha256};

const NOW: Instant = Instant { nanos: 4_000_000 };

fn test_clipboard_state(images: bool) -> LiveClipboardState {
    LiveClipboardState::new(true, None, 0, images, 1024)
}

fn image(first: u8) -> CanonicalImage {
    CanonicalImage::from_rgba(1, 1, vec![first, first + 1, first + 2, 255], 1024).unwrap()
}

fn key(evdev_code: u16, down: bool) -> Frame {
    Frame::input(INITIAL_ROLE_EPOCH, InputEvent::Key { evdev_code, down })
}

#[test]
fn image_transfer_is_capability_gated() {
    let image = CanonicalImage::from_rgba(1, 1, vec![1, 2, 3, 255], 1024).unwrap();
    let mut state = test_clipboard_state(false);
    let (frames, _) = state
        .sync
        .offer_item(Some(ClipboardItem::Image(image)), true);
    assert!(frames.is_empty());
    assert!(!state.sync.is_sending());
}

#[test]
fn paste_barrier_releases_after_end_and_timeout() {
    let image = CanonicalImage::from_rgba(1, 1, vec![1, 2, 3, 255], 1024).unwrap();
    let image_id = ClipboardContentId::Image(image.content_sha256);
    let mut state = test_clipboard_state(true);
    state
        .sync
        .offer_item(Some(ClipboardItem::Image(image)), true);
    assert!(state.sync.is_outgoing(image_id));
    state.paste_barrier_deadline = Some(NOW.plus_millis(1_000));
    state.held_input.push(key(47, true));
    while let Some((_, completed)) = state.sync.next_image_frame() {
        if completed {
            break;
        }
    }
    assert!(state.sync.is_last_sent(image_id));
    assert_eq!(state.take_held_input().len(), 1);

    state.paste_barrier_deadline = Some(NOW);
    state.sync.offer_item(
        Some(ClipboardItem::Image(
            CanonicalImage::from_rgba(1, 1, vec![4, 5, 6, 255], 1024).unwrap(),
        )),
        true,
    );
    assert!(state.paste_barrier_expired(NOW.plus_millis(1)));
    assert!(matches!(
        state.cancel_expired_paste_barrier(),
        Some(Frame::Clipboard(ClipboardEvent::ImageCancel {
            reason: ClipboardCancelReason::TimedOut,
            ..
        }))
    ));
}

#[test]
fn paste_of_an_image_waits_for_it() {
    let mut state = test_clipboard_state(true);
    state.prepare_input(key(29, true), ClipboardRead::Item(None), NOW);
    state.after_input_sent(&key(29, true));
    assert!(state.asks_for_clipboard(&key(47, true)));
    let item = Some(ClipboardItem::Image(image(1)));
    let frames = state.prepare_input(key(47, true), ClipboardRead::Item(item), NOW);
    assert!(!frames.contains(&key(47, true)));
    assert!(state.needs_send_tick());
    let motion = Frame::input(
        INITIAL_ROLE_EPOCH,
        InputEvent::PointerMotion {
            dx: F64Bits(1),
            dy: F64Bits(1),
        },
    );
    assert_eq!(
        state.prepare_input(motion.clone(), ClipboardRead::Failed, NOW),
        vec![motion]
    );
    assert!(state
        .prepare_input(key(47, false), ClipboardRead::Failed, NOW)
        .is_empty());
    assert_eq!(
        state.take_held_input(),
        vec![key(47, true), key(47, false)]
    );
}

#[test]
fn what_was_taken_over_is_not_offered_back() {
    let mut sync = ClipboardSync::new(None, true, 1024);
    let offer = ClipboardEvent::TextOffer {
        sequence: 1,
        text: "hello".to_string(),
    };
    let offered = match sync.receive(offer, NOW) {
        Received::Compare(item) => item,
        other => panic!("{other:?}"),
    };
    let id = offered.id();
    let digest: [u8; 32] = Sha256::digest(b"hello").into();
    assert_eq!(id, ClipboardContentId::Text(digest));
    match sync.settle(offered, None) {
        Settled::Write(item) => assert_eq!(item.id(), id),
        other => panic!("{other:?}"),
    }
    sync.written(id);
    let (frames, _) = sync.offer_item(Some(ClipboardItem::Text("hello".to_string())), false);
    assert!(frames.is_empty());
    let (frames, _) = sync.offer_item(Some(ClipboardItem::Text("other".to_string())), false);
    assert_eq!(frames.len(), 1);
}

#[test]
fn second_image_gives_the_first_up() {
    let mut sync = ClipboardSync::new(None, true, 1024);
    sync.offer_item(Some(ClipboardItem::Image(image(1))), true);
    let (frames, _) = sync.offer_item(Some(ClipboardItem::Image(image(7))), true);
    assert!(frames.iter().any(|frame| matches!(
        frame,
        Frame::Clipboard(ClipboardEvent::ImageCancel {
            reason: ClipboardCancelReason::Replaced,
            ..
        })
    )));
}

#[test]
fn moves_are_gathered_for_eight_milliseconds() {
    let motion = CapturedInput::Input(InputEvent::PointerMotion {
        dx: F64Bits(0),
        dy: F64Bits(1),
    });
    let press = CapturedInput::Input(InputEvent::Key {
        evdev_code: 3,
        down: true,
    });
    let mut pump = LiveInputPump::new(NOW);
    assert_eq!(
        pump.on_captured(&motion, NOW.plus_millis(7)),
        PumpStep::Gather
    );
    assert_eq!(
        pump.on_captured(&motion, NOW.plus_millis(8)),
        PumpStep::GatherAndFlush
    );
    assert_eq!(
        pump.on_captured(&press, NOW.plus_millis(9)),
        PumpStep::FlushAndSend
    );
    assert_eq!(pump.on_quiet(NOW.plus_millis(20)), PumpStep::Flush);
    assert_eq!(pump.on_stopped(), PumpStep::FlushAndStop);
    assert_eq!(captured_input_to_frame(press), key(3, true));
    let off = ControlEvent::SetInputForwarding { enabled: false };
    assert_eq!(
        captured_input_to_frame(CapturedInput::Control(off)),
        Frame::control(INITIAL_ROLE_EPOCH, off)
    );
}

#[test]
fn saved_settings_take_effect() {
    let mut config = AppConfig::controller_default();
    config.audio.enabled = false;
    config.clipboard.images_enabled = true;
    config.clipboard.max_image_bytes = 10;
    let (mut session, _) = WindowsSession::start(true, true, true, true);
    let mut state = test_clipboard_state(false);
    assert!(!state.sync.exchanges_images());
    assert!(!session.on_reload(&mut state, &config, true).is_empty());
    assert!(state.sync.exchanges_images() && !session.audio_enabled);
    let start = ClipboardEvent::ImageStart {
        transfer_id: 5,
        sequence: 1,
        width: 1,
        height: 1,
        total_bytes: 11,
        content_sha256: [0; 32],
    };
    assert!(matches!(
        state.handle_remote_event(start, NOW),
        RemoteStep::Send(Frame::Clipboard(ClipboardEvent::ImageCancel {
            transfer_id: 5,
            reason: ClipboardCancelReason::Rejected
        }))
    ));
    assert!(session.on_reload(&mut state, &config, false).is_empty());
    assert!(!state.sync.exchanges_images());
    config.clipboard.enabled = false;
    session.on_reload(&mut state, &config, true);
    assert!(!state.enabled);
}

#[test]
fn image_that_was_given_up_is_offered_again() {
    let mut state = test_clipboard_state(true);
    let item = || Some(ClipboardItem::Image(image(10)));
    state.after_input_sent(&key(29, true));
    state.prepare_input(key(47, true), ClipboardRead::Item(item()), NOW);
    assert!(state.sync.is_sending());
    let cancelled = ClipboardEvent::ImageCancel {
        transfer_id: 1,
        reason: ClipboardCancelReason::Rejected,
    };
    assert!(matches!(
        state.handle_remote_event(cancelled, NOW),
        RemoteStep::SendHeld(held) if held.len() == 1
    ));
    assert!(!state.sync.is_sending());
    state.prepare_input(key(47, true), ClipboardRead::Item(item()), NOW);
    assert!(state.sync.is_sending());
}
