//! The pure parts of the audio pipeline: packing signed 16-bit samples
//! into the little-endian byte stream the encoder expects, and reading
//! the audio-enable setting.
//!
//! The loopback stream itself, and the conversion of its floating-point
//! samples to 16-bit values, run on a dedicated thread outside the
//! library: the stream handle cannot leave the thread that created it,
//! and floating-point arithmetic stays out of verified code.

use vstd::prelude::*;

use crate::text::{lower_of, str_eq, to_lower};

verus! {

/// Sample rate the encoder expects, in hertz.
pub const AUDIO_SAMPLE_RATE: u32 = 48000;

/// Channel count the encoder expects.
pub const AUDIO_CHANNELS: u32 = 2;

/// Bits per sample the encoder expects.
pub const AUDIO_BITS_PER_SAMPLE: u32 = 16;

/// The two's-complement value of a signed 16-bit sample.
pub open spec fn spec_sample_bits(v: int) -> int {
    if v < 0 {
        v + 0x10000
    } else {
        v
    }
}

/// Packs signed 16-bit samples into little-endian bytes, two per sample,
/// in order.
pub fn pcm16_bytes(samples: &Vec<i16>) -> (r: Vec<u8>)
    ensures
        r@.len() == 2 * samples@.len(),
        forall|i: int|
            0 <= i < samples@.len() ==> r@[2 * i] == spec_sample_bits(#[trigger] samples@[i] as int)
                % 256 && r@[2 * i + 1] == spec_sample_bits(samples@[i] as int) / 256,
{
    let mut out: Vec<u8> = Vec::new();
    let mut i: usize = 0;
    while i < samples.len()
        invariant
            i <= samples@.len(),
            out@.len() == 2 * i,
            forall|j: int|
                0 <= j < i ==> out@[2 * j] == spec_sample_bits(#[trigger] samples@[j] as int) % 256
                    && out@[2 * j + 1] == spec_sample_bits(samples@[j] as int) / 256,
        decreases samples@.len() - i,
    {
        let s = samples[i];
        let bits: u16 = if s < 0 {
            (s as i32 + 0x10000) as u16
        } else {
            s as u16
        };
        out.push((bits % 256) as u8);
        out.push((bits / 256) as u8);
        i = i + 1;
    }
    out
}

/// Whether the configured audio setting enables audio capture: absent
/// means enabled, and only the explicit words for "off" disable it.
pub open spec fn spec_audio_enabled(setting: Option<Seq<char>>) -> bool {
    match setting {
        None => true,
        Some(s) => {
            let lower = lower_of(s);
            !(lower == "false"@ || lower == "0"@ || lower == "none"@ || lower == "disabled"@)
        },
    }
}

/// Reads the audio-enable setting: audio stays on unless the value says
/// otherwise.
pub fn audio_enabled_from_setting(setting: Option<&str>) -> (r: bool)
    ensures
        r == spec_audio_enabled(
            match setting {
                Some(s) => Some(s@),
                None => None,
            },
        ),
{
    match setting {
        None => true,
        Some(s) => {
            let lower = to_lower(s);
            !(str_eq(lower.as_str(), "false") || str_eq(lower.as_str(), "0") || str_eq(
                lower.as_str(),
                "none",
            ) || str_eq(lower.as_str(), "disabled"))
        },
    }
}

} // verus!
