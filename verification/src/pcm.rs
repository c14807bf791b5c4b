//! Frames of audio samples as bytes.

use crate::audio::{AudioError, PCM_BYTES_PER_FRAME, SAMPLES_PER_FRAME};
use crate::protocol::F32Bits;
use vstd::prelude::*;

verus! {

/// The bits of a sample, as a number.
pub open spec fn bits_of(sample: i16) -> int {
    if sample < 0 {
        sample + 0x1_0000
    } else {
        sample as int
    }
}

/// The sample of some bits.
pub open spec fn sample_of(low: u8, high: u8) -> int {
    let bits = low + 256 * high;
    if bits >= 0x8000 {
        bits - 0x1_0000
    } else {
        bits
    }
}

/// The bytes of samples, the low one of each first.
pub open spec fn pcm_bytes(samples: Seq<i16>) -> Seq<u8>
    decreases samples.len(),
{
    if samples.len() == 0 {
        Seq::empty()
    } else {
        pcm_bytes(samples.drop_last()).push((bits_of(samples.last()) % 256) as u8).push(
            (bits_of(samples.last()) / 256) as u8,
        )
    }
}

/// The samples of some bytes.
pub open spec fn pcm_samples(bytes: Seq<u8>) -> Seq<i16> {
    Seq::new(
        (bytes.len() / 2) as nat,
        |i: int| sample_of(bytes[2 * i], bytes[2 * i + 1]) as i16,
    )
}

proof fn lemma_pcm_bytes(samples: Seq<i16>)
    ensures
        pcm_bytes(samples).len() == 2 * samples.len(),
        forall|i: int|
            0 <= i < samples.len() ==> pcm_bytes(samples)[2 * i] == #[trigger] bits_of(samples[i])
                % 256 && pcm_bytes(samples)[2 * i + 1] == bits_of(samples[i]) / 256,
    decreases samples.len(),
{
    if samples.len() > 0 {
        let before = samples.drop_last();
        lemma_pcm_bytes(before);
        assert forall|i: int| 0 <= i < samples.len() implies pcm_bytes(samples)[2 * i]
            == #[trigger] bits_of(samples[i]) % 256 && pcm_bytes(samples)[2 * i + 1] == bits_of(
            samples[i],
        ) / 256 by {
            if i < before.len() {
                assert(bits_of(before[i]) == bits_of(samples[i]));
            }
        }
    }
}

/// Samples go through their bytes unchanged.
pub proof fn law_samples_survive_their_bytes(samples: Seq<i16>)
    ensures
        pcm_samples(pcm_bytes(samples)) == samples,
{
    lemma_pcm_bytes(samples);
    assert forall|i: int| 0 <= i < samples.len() implies pcm_samples(pcm_bytes(samples))[i]
        == samples[i] by {
        let bits = bits_of(samples[i]);
        assert(pcm_bytes(samples)[2 * i] == bits % 256);
        assert(pcm_bytes(samples)[2 * i + 1] == bits / 256);
    }
    assert(pcm_samples(pcm_bytes(samples)) == samples);
}

/// The bits of the numbers that some bytes hold, four for each, the low one first.
pub open spec fn words_of(bytes: Seq<u8>) -> Seq<F32Bits> {
    Seq::new(
        (bytes.len() / 4) as nat,
        |i: int|
            F32Bits(
                (bytes[4 * i] + 0x100 * bytes[4 * i + 1] + 0x1_0000 * bytes[4 * i + 2]
                    + 0x100_0000 * bytes[4 * i + 3]) as u32,
            ),
    )
}

/// Uncompressed audio.
#[derive(Clone, Copy, Debug, PartialEq, Eq, Structural)]
pub struct PcmCodec;

impl PcmCodec {
    /// The bytes of a frame; refused where it is not a frame long.
    pub fn encode(pcm: &[i16]) -> (out: Result<Vec<u8>, AudioError>)
        ensures
            pcm@.len() != SAMPLES_PER_FRAME ==> out == Err::<Vec<u8>, AudioError>(
                AudioError::InvalidPacket,
            ),
            pcm@.len() == SAMPLES_PER_FRAME ==> (out matches Ok(bytes) && bytes@ == pcm_bytes(
                pcm@,
            ) && bytes@.len() == PCM_BYTES_PER_FRAME),
    {
        if pcm.len() != SAMPLES_PER_FRAME {
            return Err(AudioError::InvalidPacket);
        }
        let mut out: Vec<u8> = Vec::new();
        for i in 0..pcm.len()
            invariant
                out@ == pcm_bytes(pcm@.take(i as int)),
        {
            let sample: i16 = pcm[i];
            let bits: u32 = if sample < 0 {
                (sample as i32 + 0x1_0000) as u32
            } else {
                sample as u32
            };
            out.push((bits % 256) as u8);
            out.push((bits / 256) as u8);
            assert(pcm@.take(i + 1).drop_last() == pcm@.take(i as int));
            assert(pcm@.take(i + 1).last() == sample);
        }
        proof {
            assert(pcm@.take(pcm@.len() as int) == pcm@);
            lemma_pcm_bytes(pcm@);
        }
        Ok(out)
    }

    /// The samples of a frame: silence where it was lost, refused where it is not a frame long.
    pub fn decode(packet: Option<&[u8]>) -> (out: Result<Vec<i16>, AudioError>)
        ensures
            match packet {
                None => out matches Ok(samples) && samples@ == Seq::new(
                    SAMPLES_PER_FRAME as nat,
                    |i: int| 0i16,
                ),
                Some(bytes) => if bytes@.len() != PCM_BYTES_PER_FRAME {
                    out == Err::<Vec<i16>, AudioError>(AudioError::InvalidPacket)
                } else {
                    out matches Ok(samples) && samples@ == pcm_samples(bytes@)
                },
            },
    {
        match packet {
            None => {
                let mut samples: Vec<i16> = Vec::new();
                for i in 0..SAMPLES_PER_FRAME
                    invariant
                        samples@ == Seq::new(i as nat, |i: int| 0i16),
                {
                    samples.push(0);
                    assert(samples@ == Seq::new((i + 1) as nat, |i: int| 0i16));
                }
                Ok(samples)
            },
            Some(bytes) => decode_frame(bytes),
        }
    }

    /// The bits of the numbers of a frame as a sound server gives it; refused
    /// where it is not a frame long.
    pub fn split_f32le(input: &[u8]) -> (out: Result<Vec<F32Bits>, AudioError>)
        ensures
            input@.len() != 4 * SAMPLES_PER_FRAME ==> out == Err::<Vec<F32Bits>, AudioError>(
                AudioError::InvalidPacket,
            ),
            input@.len() == 4 * SAMPLES_PER_FRAME ==> (out matches Ok(words) && words@ == words_of(
                input@,
            )),
    {
        if input.len() != 4 * SAMPLES_PER_FRAME {
            return Err(AudioError::InvalidPacket);
        }
        let mut words: Vec<F32Bits> = Vec::new();
        for i in 0..SAMPLES_PER_FRAME
            invariant
                input@.len() == 4 * SAMPLES_PER_FRAME,
                words@ == words_of(input@).take(i as int),
        {
            let word: u32 = input[4 * i] as u32 + 0x100 * input[4 * i + 1] as u32 + 0x1_0000
                * input[4 * i + 2] as u32 + 0x100_0000 * input[4 * i + 3] as u32;
            words.push(F32Bits(word));
            assert(words@ == words_of(input@).take(i + 1));
        }
        assert(words@ == words_of(input@));
        Ok(words)
    }
}

fn decode_frame(bytes: &[u8]) -> (out: Result<Vec<i16>, AudioError>)
    ensures
        bytes@.len() != PCM_BYTES_PER_FRAME ==> out == Err::<Vec<i16>, AudioError>(
            AudioError::InvalidPacket,
        ),
        bytes@.len() == PCM_BYTES_PER_FRAME ==> (out matches Ok(samples) && samples@
            == pcm_samples(bytes@)),
{
    if bytes.len() != PCM_BYTES_PER_FRAME {
        return Err(AudioError::InvalidPacket);
    }
    let mut samples: Vec<i16> = Vec::new();
    for i in 0..SAMPLES_PER_FRAME
        invariant
            bytes@.len() == PCM_BYTES_PER_FRAME,
            samples@ == pcm_samples(bytes@).take(i as int),
    {
        let bits: i32 = bytes[2 * i] as i32 + 256 * bytes[2 * i + 1] as i32;
        let sample: i16 = if bits >= 0x8000 {
            (bits - 0x1_0000) as i16
        } else {
            bits as i16
        };
        samples.push(sample);
        assert(samples@ == pcm_samples(bytes@).take(i + 1));
    }
    assert(samples@ == pcm_samples(bytes@));
    Ok(samples)
}

/// Samples stand one behind the other, each with its low byte first and a
/// negative one as what is missing to the full range.
pub proof fn law_samples_stand_low_byte_first(samples: Seq<i16>, i: int)
    requires
        0 <= i < samples.len(),
    ensures
        pcm_bytes(samples).len() == 2 * samples.len(),
        samples[i] >= 0 ==> pcm_bytes(samples)[2 * i] + 256 * pcm_bytes(samples)[2 * i + 1]
            == samples[i],
        samples[i] < 0 ==> pcm_bytes(samples)[2 * i] + 256 * pcm_bytes(samples)[2 * i + 1]
            == samples[i] + 0x1_0000,
{
    lemma_pcm_bytes(samples);
    let bits = bits_of(samples[i]);
    assert(pcm_bytes(samples)[2 * i] == bits % 256);
    assert(pcm_bytes(samples)[2 * i + 1] == bits / 256);
}

} // verus!
