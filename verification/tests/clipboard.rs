use edge_kvm::clipboard::{
    CanonicalImage, ClipboardChangeTracker, ClipboardError, ClipboardItem, ImageTransferSchedule,
    IMAGE_TRANSFER_TIMEOUT_MILLIS, MAX_HIGH_PRIORITY_FRAMES_BEFORE_IMAGE_CHUNK,
};
use edge_kvm::clock::Instant;
use edge_kvm::image_transfer::{IncomingImageTransfer, OutgoingImageTransfer};
use edge_kvm::protocol::{ClipboardCancelReason, ClipboardEvent};
use image::{DynamicImage, ImageFormat, RgbaImage};
use std::io::Cursor;

const NOW: Instant = Instant { nanos: 1_000_000 };

fn sample_image() -> CanonicalImage {
    CanonicalImage::from_rgba(
        2,
        2,
        vec![
            255, 0, 0, 255, 0, 255, 0, 128, 0, 0, 255, 64, 255, 255, 255, 0,
        ],
        1024,
    )
    .unwrap()
}

#[test]
fn canonical_png_preserves_rgba_and_identity() {
    let image = sample_image();
    let decoded = CanonicalImage::from_encoded(&image.png, "image/png", 1024).unwrap();
    assert_eq!(decoded.width, image.width);
    assert_eq!(decoded.height, image.height);
    assert_eq!(decoded.rgba, image.rgba);
    assert_eq!(decoded.content_sha256, image.content_sha256);
}

#[test]
fn transfer_round_trip_and_offset_validation() {
    let image = sample_image();
    let mut outgoing = OutgoingImageTransfer::new(7, 3, image.clone());
    let mut incoming = IncomingImageTransfer::default();
    let mut completed = None;
    while let Some(event) = outgoing.next_event() {
        completed = incoming.handle(event, 1024, NOW).unwrap().or(completed);
    }
    assert_eq!(completed.unwrap(), image);

    let mut incoming = IncomingImageTransfer::default();
    incoming
        .handle(
            ClipboardEvent::ImageStart {
                transfer_id: 1,
                sequence: 1,
                width: 1,
                height: 1,
                total_bytes: 4,
                content_sha256: [0; 32],
            },
            1024,
            NOW,
        )
        .unwrap();
    assert!(matches!(
        incoming.handle(
            ClipboardEvent::ImageChunk {
                transfer_id: 1,
                offset: 2,
                bytes: vec![1],
            },
            1024,
            NOW,
        ),
        Err(ClipboardError::OffsetMismatch { .. })
    ));
}

#[test]
fn tracker_suppresses_remote_echo() {
    let id = ClipboardItem::Image(sample_image()).id();
    let mut tracker = ClipboardChangeTracker::new(None);
    assert_eq!(tracker.offer_if_changed(Some(id)), Some(1));
    tracker.mark_observed(Some(id));
    assert_eq!(tracker.offer_if_changed(Some(id)), None);
}

#[test]
fn jpeg_and_bmp_normalize_to_png() {
    for (format, mime) in [
        (ImageFormat::Jpeg, "image/jpeg"),
        (ImageFormat::Bmp, "image/bmp"),
    ] {
        let source =
            DynamicImage::ImageRgba8(RgbaImage::from_raw(1, 1, vec![20, 40, 60, 255]).unwrap());
        let mut encoded = Cursor::new(Vec::new());
        source.write_to(&mut encoded, format).unwrap();
        let canonical = CanonicalImage::from_encoded(&encoded.into_inner(), mime, 1024).unwrap();
        assert_eq!((canonical.width, canonical.height), (1, 1));
        assert!(canonical.png.starts_with(b"\x89PNG"));
    }
}

#[test]
fn rejects_pixel_and_encoded_size_limits() {
    assert!(matches!(
        CanonicalImage::from_rgba(5000, 5000, Vec::new(), usize::MAX),
        Err(ClipboardError::TooManyPixels { .. })
    ));
    assert!(matches!(
        CanonicalImage::from_encoded(&[0; 5], "image/png", 4),
        Err(ClipboardError::EncodedTooLarge { .. })
    ));
}

#[test]
fn cancellation_and_timeout_clear_incoming_transfer() {
    let image = sample_image();
    let mut incoming = IncomingImageTransfer::default();
    incoming
        .handle(
            ClipboardEvent::ImageStart {
                transfer_id: 1,
                sequence: 1,
                width: image.width,
                height: image.height,
                total_bytes: image.png.len() as u32,
                content_sha256: image.content_sha256,
            },
            1024,
            NOW,
        )
        .unwrap();
    incoming
        .handle(
            ClipboardEvent::ImageCancel {
                transfer_id: 1,
                reason: ClipboardCancelReason::Replaced,
            },
            1024,
            NOW,
        )
        .unwrap();
    assert!(!incoming.is_active());

    incoming
        .handle(
            ClipboardEvent::ImageStart {
                transfer_id: 2,
                sequence: 2,
                width: image.width,
                height: image.height,
                total_bytes: image.png.len() as u32,
                content_sha256: image.content_sha256,
            },
            1024,
            NOW,
        )
        .unwrap();
    let late = NOW.plus_millis(IMAGE_TRANSFER_TIMEOUT_MILLIS + 1);
    assert!(matches!(
        incoming.expire(late),
        Err(ClipboardError::TransferExpired)
    ));
    assert!(!incoming.is_active());
}

#[test]
fn image_transfer_schedule_prevents_permanent_starvation() {
    let mut schedule = ImageTransferSchedule::default();
    for _ in 0..MAX_HIGH_PRIORITY_FRAMES_BEFORE_IMAGE_CHUNK - 1 {
        schedule.record_high_priority_frame();
        assert!(!schedule.image_chunk_is_due());
    }
    schedule.record_high_priority_frame();
    assert!(schedule.image_chunk_is_due());

    schedule.record_image_chunk();
    assert!(!schedule.image_chunk_is_due());
}

struct Jpeg<'a> {
    frame: u8,
    size: (u8, u8),
    factors: &'a [u8],
    scans: &'a [&'a [u8]],
    ends: (u8, u8),
    colors: Option<u8>,
    seed: u32,
}

fn jpeg(made: &Jpeg) -> Vec<u8> {
    let mut bytes = vec![0xFF, 0xD8];
    bytes.extend([0xFF, 0xE0, 0, 7]);
    bytes.extend(b"AVI1\0");
    bytes.extend([0xFF, 0xDB, 0, 67, 0]);
    bytes.extend([1; 64]);
    let count = made.factors.len() as u8;
    bytes.extend([0xFF, made.frame, 0, 8 + 3 * count, 8]);
    bytes.extend([0, made.size.1, 0, made.size.0, count]);
    for (index, factor) in made.factors.iter().enumerate() {
        bytes.extend([index as u8 + 1, *factor, 0]);
    }
    if let Some(colors) = made.colors {
        bytes.extend([0xFF, 0xEE, 0, 14]);
        bytes.extend(b"Adobe");
        bytes.extend([0, 100, 0, 0, 0, 0, colors]);
    }
    let mut random = made.seed;
    for scan in made.scans {
        bytes.extend([0xFF, 0xDA, 0, 6 + 2 * scan.len() as u8, scan.len() as u8]);
        for id in scan.iter() {
            bytes.extend([*id, 0]);
        }
        bytes.extend([made.ends.0, made.ends.1, 0]);
        for _ in 0..80 {
            random = random.wrapping_mul(1_664_525).wrapping_add(1_013_904_223);
            bytes.push((random >> 24) as u8 & 0x7F);
        }
    }
    bytes.extend([0xFF, 0xD9]);
    bytes
}

fn is_unsupported(made: &Jpeg) -> bool {
    matches!(
        CanonicalImage::from_encoded(&jpeg(made), "image/jpeg", 1 << 20),
        Err(ClipboardError::UnsupportedJpeg)
    )
}

#[test]
fn jpeg_that_the_decoder_does_not_cope_with_is_refused() {
    let skewed = Jpeg {
        frame: 0xC2,
        size: (8, 8),
        factors: &[0x11, 0x22, 0x11],
        scans: &[&[1]],
        ends: (0, 63),
        colors: None,
        seed: 1,
    };
    assert!(is_unsupported(&skewed));
    assert!(!is_unsupported(&Jpeg {
        factors: &[0x22, 0x11, 0x11],
        ..skewed
    }));
    assert!(!is_unsupported(&Jpeg {
        factors: &[0x11, 0x21, 0x11],
        ..skewed
    }));
    let sequential = Jpeg {
        frame: 0xC0,
        ..skewed
    };
    assert!(is_unsupported(&sequential));
    assert!(!is_unsupported(&Jpeg {
        scans: &[&[1, 2, 3]],
        ..sequential
    }));
    let ycck = Jpeg {
        factors: &[0x11, 0x11],
        colors: Some(2),
        ..skewed
    };
    assert!(is_unsupported(&ycck));
    assert!(!is_unsupported(&Jpeg {
        colors: Some(1),
        ..ycck
    }));
    let missing = Jpeg {
        factors: &[0x22, 0x11, 0x11, 0x22],
        colors: Some(1),
        ..skewed
    };
    assert!(is_unsupported(&missing));
    assert!(!is_unsupported(&Jpeg {
        colors: Some(2),
        ..missing
    }));
}

#[test]
fn jpeg_whose_blocks_are_miscounted_is_refused() {
    let mut bytes = jpeg(&Jpeg {
        frame: 0xC0,
        size: (8, 8),
        factors: &[0x12],
        scans: &[&[1]],
        ends: (0, 63),
        colors: None,
        seed: 1,
    });
    let at = bytes.windows(2).position(|two| two == [0xFF, 0xC0]).unwrap();
    bytes[at + 5] = 255;
    bytes[at + 6] = 250;
    assert!(matches!(
        CanonicalImage::from_encoded(&bytes, "image/jpeg", 1 << 20),
        Err(ClipboardError::UnsupportedJpeg)
    ));
}

fn tries(frame: u8, scans: &[&[u8]], ends: (u8, u8)) {
    let factors: Vec<u8> = [0x10, 0x20, 0x40]
        .iter()
        .flat_map(|h| (1..=4).map(move |v| h + v))
        .collect();
    let mut seed = 7;
    for first in &factors {
        for second in &factors {
            for third in &factors {
                for size in [(8, 8), (9, 40), (33, 70)] {
                    seed += 1;
                    let made = Jpeg {
                        frame,
                        size,
                        factors: &[*first, *second, *third],
                        scans,
                        ends,
                        colors: None,
                        seed,
                    };
                    let _ = CanonicalImage::from_encoded(&jpeg(&made), "image/jpeg", 1 << 20);
                }
            }
        }
    }
}

#[test]
fn odd_sequential_jpeg_gives_an_image_or_an_error() {
    tries(0xC0, &[&[1, 2, 3]], (0, 63));
}

#[test]
fn odd_sequential_jpeg_in_scans_gives_an_image_or_an_error() {
    tries(0xC0, &[&[1], &[2], &[3]], (0, 63));
}

#[test]
fn odd_progressive_jpeg_gives_an_image_or_an_error() {
    tries(0xC2, &[&[1, 2, 3]], (0, 0));
}

#[test]
fn odd_progressive_jpeg_in_scans_gives_an_image_or_an_error() {
    tries(0xC2, &[&[1], &[2], &[3]], (1, 63));
}

#[test]
fn damaged_progressive_jpeg_gives_an_image_or_an_error() {
    tries(0xC2, &[&[1]], (0, 63));
}

#[test]
fn jpeg_of_any_number_of_components_gives_an_image_or_an_error() {
    let ids: [u8; 4] = [1, 2, 3, 4];
    let mut seed = 90;
    for frame in [0xC0, 0xC1, 0xC2] {
        for colors in [None, Some(0), Some(1), Some(2)] {
            for count in 1..=4 {
                for shape in [[0x11; 4], [0x22, 0x11, 0x11, 0x22], [0x12, 0x11, 0x11, 0x11]] {
                    for ends in [(0, 0), (0, 63), (1, 63)] {
                        for whole in [true, false] {
                            let single = [&ids[..1], &ids[count - 1..count]];
                            let all = [&ids[..count]];
                            seed += 1;
                            let made = Jpeg {
                                frame,
                                size: (20, 37),
                                factors: &shape[..count],
                                scans: if whole { &all[..] } else { &single[..] },
                                ends,
                                colors,
                                seed,
                            };
                            let bytes = jpeg(&made);
                            let _ = CanonicalImage::from_encoded(&bytes, "image/jpeg", 1 << 20);
                        }
                    }
                }
            }
        }
    }
}

#[test]
fn every_event_of_an_image_is_taken() {
    let image = sample_image();
    let mut outgoing = OutgoingImageTransfer::new(7, 3, image.clone());
    let mut incoming = IncomingImageTransfer::default();
    let mut outcomes = Vec::new();
    while let Some(event) = outgoing.next_event() {
        outcomes.push(incoming.handle(event, 1024, NOW).unwrap());
    }
    let last = outcomes.pop().unwrap();
    assert!(outcomes.len() >= 2 && outcomes.iter().all(Option::is_none));
    assert_eq!(last, Some(image));
}

fn bits_of(bits: &[(u32, u32)]) -> Vec<u8> {
    let mut bytes = Vec::new();
    let (mut byte, mut count) = (0u8, 0);
    let mut add = |bit: u32, bytes: &mut Vec<u8>| {
        byte = byte << 1 | bit as u8;
        count += 1;
        if count == 8 {
            bytes.push(byte);
            if byte == 0xFF {
                bytes.push(0);
            }
            (byte, count) = (0, 0);
        }
    };
    for (value, length) in bits {
        for at in (0..*length).rev() {
            add(value >> at & 1, &mut bytes);
        }
    }
    for _ in 0..7 {
        add(1, &mut bytes);
    }
    bytes
}

fn runaway(size: (u8, u8), quantizer: u16, category: u8, differences: &[u32]) -> Vec<u8> {
    let mut bytes = vec![0xFF, 0xD8, 0xFF, 0xDB, 0, 131, 0x10];
    bytes.extend(quantizer.to_be_bytes());
    bytes.extend([0, 1].repeat(63));
    bytes.extend([0xFF, 0xC0, 0, 11, 8, 0, size.1, 0, size.0, 1, 1, 0x11, 0]);
    bytes.extend([0xFF, 0xC4, 0, 20, 0x00, 1]);
    bytes.extend([0; 15]);
    bytes.push(category);
    bytes.extend([0xFF, 0xC4, 0, 20, 0x10, 1]);
    bytes.extend([0; 15]);
    bytes.push(0);
    bytes.extend([0xFF, 0xDA, 0, 8, 1, 1, 0, 0, 63, 0]);
    let mut bits = Vec::new();
    for difference in differences {
        bits.extend([(0, 1), (*difference, u32::from(category)), (0, 1)]);
    }
    bytes.extend(bits_of(&bits));
    bytes.extend([0xFF, 0xD9]);
    bytes
}

fn decoded(bytes: &[u8]) -> Result<CanonicalImage, ClipboardError> {
    CanonicalImage::from_encoded(bytes, "image/jpeg", 1 << 26)
}

#[test]
fn jpeg_whose_coefficients_run_away_is_refused() {
    assert!(matches!(
        decoded(&runaway((16, 8), 65_535, 15, &[32_767, 32_767])),
        Err(ClipboardError::UnsupportedJpeg)
    ));
    assert!(decoded(&runaway((16, 8), 65_535, 15, &[32_767, 0])).is_ok());
    assert!(decoded(&runaway((16, 8), 1, 15, &[32_767, 32_767])).is_ok());
    let steep: Vec<u32> = vec![32_767; 32 * 16];
    assert!(matches!(
        decoded(&runaway((255, 128), 255, 15, &steep)),
        Err(ClipboardError::UnsupportedJpeg)
    ));
    let mut level = steep.clone();
    for (at, difference) in level.iter_mut().enumerate() {
        *difference = if at % 2 == 0 { 32_767 } else { 0 };
    }
    assert!(decoded(&runaway((255, 128), 255, 15, &level)).is_ok());
    let mut damaged = runaway((255, 128), 255, 15, &level);
    damaged.truncate(damaged.len() - 200);
    assert!(matches!(
        decoded(&damaged),
        Err(ClipboardError::UnsupportedJpeg)
    ));
}

fn photo(side: u32, quality: u8) -> Vec<u8> {
    let mut seed = 5u32;
    let pixels: Vec<u8> = (0..side * side * 3)
        .map(|_| {
            seed = seed.wrapping_mul(1_664_525).wrapping_add(1_013_904_223);
            (seed >> 24) as u8
        })
        .collect();
    let mut bytes = Vec::new();
    image::codecs::jpeg::JpegEncoder::new_with_quality(&mut bytes, quality)
        .encode(&pixels, side, side, image::ExtendedColorType::Rgb8)
        .unwrap();
    bytes
}

#[test]
fn large_coarse_jpeg_is_followed_and_decoded() {
    let mut bytes = photo(900, 5);
    assert_eq!(decoded(&bytes).unwrap().width, 900);
    bytes.truncate(bytes.len() / 2);
    assert!(matches!(
        decoded(&bytes),
        Err(ClipboardError::UnsupportedJpeg)
    ));
}

#[test]
fn damaged_small_jpeg_is_left_to_the_decoder() {
    let mut bytes = photo(64, 50);
    bytes.truncate(bytes.len() / 2);
    assert!(!matches!(
        decoded(&bytes),
        Err(ClipboardError::UnsupportedJpeg)
    ));
}

#[test]
fn jpeg_with_an_odd_thumbnail_is_decoded() {
    let odd = jpeg(&Jpeg {
        frame: 0xC2,
        size: (8, 8),
        factors: &[0x11, 0x22, 0x11],
        scans: &[&[1]],
        ends: (0, 63),
        colors: None,
        seed: 1,
    });
    let mut bytes = photo(16, 75);
    let mut segment = vec![0xFF, 0xE1];
    segment.extend((odd.len() as u16 + 2).to_be_bytes());
    segment.extend(odd);
    let tail = bytes.split_off(2);
    bytes.extend(segment);
    bytes.extend(tail);
    assert_eq!(decoded(&bytes).unwrap().width, 16);
}

struct Steep<'a> {
    size: (u8, u8),
    factors: &'a [u8],
    interval: u8,
    quantizer: u16,
    limit: i64,
    seed: u32,
}

fn steep(made: &Steep) -> Vec<u8> {
    let count = made.factors.len() as u8;
    let mut bytes = vec![0xFF, 0xD8, 0xFF, 0xDB, 0, 131, 0x10];
    bytes.extend(made.quantizer.to_be_bytes());
    bytes.extend([0, 1].repeat(63));
    bytes.extend([0xFF, 0xC0, 0, 8 + 3 * count, 8]);
    bytes.extend([0, made.size.1, 0, made.size.0, count]);
    for (index, factor) in made.factors.iter().enumerate() {
        bytes.extend([index as u8 + 1, *factor, 0]);
    }
    bytes.extend([0xFF, 0xDD, 0, 4, 0, made.interval]);
    bytes.extend([0xFF, 0xC4, 0, 20, 0x00, 1]);
    bytes.extend([0; 15]);
    bytes.push(15);
    bytes.extend([0xFF, 0xC4, 0, 21, 0x10, 1, 1]);
    bytes.extend([0; 14]);
    bytes.extend([0, 0x23]);
    bytes.extend([0xFF, 0xDA, 0, 6 + 2 * count, count]);
    for index in 0..count {
        bytes.extend([index + 1, 0]);
    }
    bytes.extend([0, 63, 0]);
    let across = made.factors.iter().map(|factor| factor >> 4).max().unwrap() as usize;
    let down = made.factors.iter().map(|factor| factor & 15).max().unwrap() as usize;
    let (across, down) = if count == 1 { (1, 1) } else { (across, down) };
    let units = (made.size.0 as usize).div_ceil(8 * across) * (made.size.1 as usize).div_ceil(8 * down);
    let mut random = made.seed;
    let mut sums = vec![0i64; made.factors.len()];
    let mut bits = Vec::new();
    for unit in 0..units {
        if made.interval > 0 && unit > 0 && unit % made.interval as usize == 0 {
            bytes.extend(bits_of(&bits));
            bytes.extend([0xFF, 0xD0 + (unit / made.interval as usize % 8) as u8]);
            bits.clear();
            sums.fill(0);
        }
        for (index, factor) in made.factors.iter().enumerate() {
            let blocks = if count == 1 { 1 } else { (factor >> 4) * (factor & 15) };
            for _ in 0..blocks {
                random = random.wrapping_mul(1_664_525).wrapping_add(1_013_904_223);
                let up = 16_384 + i64::from(random >> 18);
                let rises = sums[index] + up <= made.limit && random & 0x100 != 0
                    || sums[index] - up < -made.limit;
                sums[index] += if rises { up } else { -up };
                let number = if rises { up } else { 32_767 - up };
                bits.extend([(0, 1), (number as u32, 15)]);
                if random & 0x200 != 0 {
                    bits.extend([(2, 2), (random >> 4 & 7, 3)]);
                }
                bits.push((0, 1));
            }
        }
    }
    bytes.extend(bits_of(&bits));
    bytes.extend([0xFF, 0xD9]);
    bytes
}

#[test]
fn undamaged_steep_jpeg_is_decoded() {
    let mut seed = 3;
    for factors in [
        &[0x11u8][..],
        &[0x22],
        &[0x11, 0x11, 0x11],
        &[0x22, 0x11, 0x11],
        &[0x21, 0x11, 0x11],
        &[0x12, 0x11, 0x11],
        &[0x41, 0x11, 0x11],
        &[0x11, 0x11, 0x11, 0x11],
        &[0x22, 0x11, 0x11, 0x22],
    ] {
        for interval in [0, 1, 2, 3, 7, 40] {
            for size in [(17, 9), (64, 48), (203, 70)] {
                for (quantizer, limit) in [(65_535, 32_767), (20_000, 107_374), (1_000, 2_147_482)] {
                    seed += 1;
                    let image = decoded(&steep(&Steep {
                        size,
                        factors,
                        interval,
                        quantizer,
                        limit,
                        seed,
                    }))
                    .unwrap();
                    assert_eq!((image.width, image.height), (size.0.into(), size.1.into()));
                }
            }
        }
    }
}
