//! Transcription backends: the parts of their work that decide and compute.
//! The network, model and audio calls stay with the application.

pub mod llm;
pub mod local;
pub mod remote;

use vstd::prelude::*;
use crate::error::AppError;

verus! {

/// A finished transcription.
#[derive(Clone, Debug)]
pub struct Transcription {
    pub text: String,
    pub duration_ms: u64,
    pub backend_id: String,
}

/// Little-endian bytes of a 16-bit value.
pub open spec fn le16(v: int) -> Seq<u8> {
    seq![(v % 256) as u8, ((v / 256) % 256) as u8]
}

/// Little-endian bytes of a 32-bit value.
pub open spec fn le32(v: int) -> Seq<u8> {
    seq![
        (v % 256) as u8,
        ((v / 256) % 256) as u8,
        ((v / 65536) % 256) as u8,
        ((v / 16777216) % 256) as u8,
    ]
}

/// The samples as 16-bit little-endian two's-complement bytes.
pub open spec fn pcm16_bytes(samples: Seq<i16>) -> Seq<u8>
    decreases samples.len(),
{
    if samples.len() == 0 {
        Seq::empty()
    } else {
        let s = samples.last() as int;
        pcm16_bytes(samples.drop_last()) + le16(if s < 0 {
            s + 65536
        } else {
            s
        })
    }
}

/// A RIFF/WAVE file of 16-bit integer PCM with `channels` interleaved
/// channels at `sample_rate` Hz: the RIFF header, a 16-byte `fmt ` chunk
/// (format 1, the channel count, the sample rate, `sample_rate * 2 *
/// channels` bytes per second, `2 * channels`-byte frames, 16 bits), and the
/// `data` chunk with the samples in order.
pub open spec fn wav_pcm16(samples: Seq<i16>, channels: int, sample_rate: int) -> Seq<u8> {
    let n = (samples.len() * 2) as int;
    seq![0x52u8, 0x49u8, 0x46u8, 0x46u8] + le32(36 + n) + seq![0x57u8, 0x41u8, 0x56u8, 0x45u8]
        + seq![0x66u8, 0x6du8, 0x74u8, 0x20u8] + le32(16) + le16(1) + le16(channels) + le32(
        sample_rate,
    ) + le32(sample_rate * 2 * channels) + le16(2 * channels) + le16(16) + seq![
        0x64u8,
        0x61u8,
        0x74u8,
        0x61u8,
    ] + le32(n) + pcm16_bytes(samples)
}

/// The WAV file of 16 kHz mono audio the transcription backends upload.
pub open spec fn wav_16k_mono(samples: Seq<i16>) -> Seq<u8> {
    wav_pcm16(samples, 1, 16000)
}

/// Largest number of samples a WAV file's 32-bit size fields can describe.
pub open spec fn wav_fits(samples: Seq<i16>) -> bool {
    samples.len() * 2 + 36 <= u32::MAX
}

/// Writes the samples with `hound::WavWriter` into memory, as integer PCM of
/// the given channel count, sample rate and bit depth. For one or two
/// channels at 16 bits, hound writes the 16-byte PCMWAVEFORMAT `fmt ` chunk
/// (bytes per second `sample_rate * 2 * channels`, block align `2 *
/// channels`), each sample as a little-endian `i16` in order, and on
/// `finalize` the RIFF and `data` sizes. Writing into a `Vec` through a
/// `Cursor` does not fail, and a whole number of frames leaves no unfinished
/// sample, so the result is `Ok`. The size fields and the byte rate are
/// `u32` and the block align is computed by dividing by the sample rate,
/// hence the bounds. Other bit depths are left out: at 8 bits an `i16` may
/// not fit, and above 16 bits, or above two channels, hound writes the
/// 40-byte WAVEFORMATEXTENSIBLE chunk, which this contract does not describe.
#[verifier::external_body]
fn hound_write_wav(samples: &[i16], channels: u16, sample_rate: u32, bits_per_sample: u16) -> (r:
    Result<Vec<u8>, String>)
    requires
        1 <= channels <= 2,
        bits_per_sample == 16,
        sample_rate > 0,
        sample_rate * 2 * channels <= u32::MAX,
        samples@.len() % (channels as nat) == 0,
        wav_fits(samples@),
    ensures
        match r {
            Ok(b) => b@ == wav_pcm16(samples@, channels as int, sample_rate as int),
            Err(_) => false,
        },
{
    let spec = hound::WavSpec { channels, sample_rate, bits_per_sample, sample_format: hound::SampleFormat::Int };
    let mut buf: Vec<u8> = Vec::new();
    {
        let mut w = hound::WavWriter::new(std::io::Cursor::new(&mut buf), spec).map_err(|e| e.to_string())?;
        for s in samples {
            w.write_sample(*s).map_err(|e| e.to_string())?;
        }
        w.finalize().map_err(|e| e.to_string())?;
    }
    Ok(buf)
}

/// Channel count of the audio the pipeline records.
pub const CHANNELS: u16 = 1;

/// Bit depth of the samples in the uploaded WAV file.
pub const BITS_PER_SAMPLE: u16 = 16;

/// Packs 16-bit samples of 16 kHz mono audio into a WAV file.
pub fn pcm16_to_wav_16k_mono(samples: &[i16]) -> (r: Result<Vec<u8>, AppError>)
    requires
        wav_fits(samples@),
    ensures
        r matches Ok(b) && b@ == wav_16k_mono(samples@),
{
    match hound_write_wav(samples, CHANNELS, crate::audio::ringbuffer::TARGET_SAMPLE_RATE, BITS_PER_SAMPLE) {
        Ok(b) => Ok(b),
        Err(e) => Err(AppError::Transcription(e)),
    }
}

} // verus!
