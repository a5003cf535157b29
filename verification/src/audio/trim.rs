//! Trimming a decoded clip to a range of milliseconds, and measuring how
//! long a clip plays.

use vstd::prelude::*;
use crate::audio::error::AudioError;

verus! {

/// The sample offset that `ms` milliseconds correspond to in interleaved
/// audio: `ms × sample_rate × channels / 1000`, rounded down.
pub open spec fn spec_sample_offset(ms: u64, sample_rate: u32, channels: u16) -> nat {
    ((ms * sample_rate * channels) / 1000) as nat
}

/// An offset clamped to the clip's length.
pub open spec fn spec_clamped_offset(ms: u64, sample_rate: u32, channels: u16, total: nat) -> nat {
    if spec_sample_offset(ms, sample_rate, channels) < total {
        spec_sample_offset(ms, sample_rate, channels)
    } else {
        total
    }
}

/// Whether the range `[start_ms, end_ms)` selects no sample of a clip of
/// `total` samples.
pub open spec fn spec_trim_is_empty(
    start_ms: u64,
    end_ms: u64,
    sample_rate: u32,
    channels: u16,
    total: nat,
) -> bool {
    spec_clamped_offset(start_ms, sample_rate, channels, total) >= spec_clamped_offset(
        end_ms,
        sample_rate,
        channels,
        total,
    )
}

/// The playing time of `total_samples` interleaved samples in whole
/// milliseconds: frames × 1000 / sample_rate, and zero for a format without
/// channels or rate.
pub open spec fn spec_duration_ms(total_samples: u64, sample_rate: u32, channels: u16) -> nat {
    if sample_rate == 0 || channels == 0 {
        0
    } else {
        (((total_samples / (channels as u64)) * 1000) / (sample_rate as int)) as nat
    }
}

/// A non-empty range of sample positions, `start` included, `end` excluded.
#[derive(Clone, Copy, Debug, PartialEq, Eq, Structural)]
pub struct TrimRange {
    pub start: usize,
    pub end: usize,
}

pub fn sample_offset(ms: u64, sample_rate: u32, channels: u16) -> (offset: u128)
    ensures
        offset == spec_sample_offset(ms, sample_rate, channels),
{
    assert(0 <= ms * sample_rate <= 0xffff_ffff_ffff_ffff * 0xffff_ffff) by (nonlinear_arith)
        requires
            0 <= ms <= 0xffff_ffff_ffff_ffff,
            0 <= sample_rate <= 0xffff_ffff,
    ;
    assert(0 <= ms * sample_rate * channels <= 0xffff_ffff_ffff_ffff * 0xffff_ffff * 0xffff)
        by (nonlinear_arith)
        requires
            0 <= ms * sample_rate <= 0xffff_ffff_ffff_ffff * 0xffff_ffff,
            0 <= channels <= 0xffff,
    ;
    let product: u128 = (ms as u128) * (sample_rate as u128) * (channels as u128);
    product / 1000
}

fn clamp_offset(ms: u64, sample_rate: u32, channels: u16, total: usize) -> (offset: usize)
    ensures
        offset == spec_clamped_offset(ms, sample_rate, channels, total as nat),
{
    let offset = sample_offset(ms, sample_rate, channels);
    if offset < total as u128 {
        offset as usize
    } else {
        total
    }
}

/// The samples of a clip of `total` samples that lie in `[start_ms,
/// end_ms)`. The range is cut off at the clip's end. A range that selects
/// nothing is refused with `EmptyTrim`.
pub fn trim_range(start_ms: u64, end_ms: u64, sample_rate: u32, channels: u16, total: usize) -> (r:
    Result<TrimRange, AudioError>)
    ensures
        match r {
            Ok(range) => {
                &&& !spec_trim_is_empty(start_ms, end_ms, sample_rate, channels, total as nat)
                &&& range.start == spec_clamped_offset(
                    start_ms,
                    sample_rate,
                    channels,
                    total as nat,
                )
                &&& range.end == spec_clamped_offset(end_ms, sample_rate, channels, total as nat)
                &&& range.start < range.end <= total
            },
            Err(e) => e == AudioError::EmptyTrim && spec_trim_is_empty(
                start_ms,
                end_ms,
                sample_rate,
                channels,
                total as nat,
            ),
        },
{
    let start = clamp_offset(start_ms, sample_rate, channels, total);
    let end = clamp_offset(end_ms, sample_rate, channels, total);
    if start < end {
        Ok(TrimRange { start, end })
    } else {
        Err(AudioError::EmptyTrim)
    }
}

/// Cuts the samples in `[start_ms, end_ms)` out of a decoded clip.
pub fn trim_samples(
    samples: &[i16],
    start_ms: u64,
    end_ms: u64,
    sample_rate: u32,
    channels: u16,
) -> (r: Result<Vec<i16>, AudioError>)
    ensures
        match r {
            Ok(cut) => {
                &&& !spec_trim_is_empty(
                    start_ms,
                    end_ms,
                    sample_rate,
                    channels,
                    samples@.len(),
                )
                &&& cut@ == samples@.subrange(
                    spec_clamped_offset(start_ms, sample_rate, channels, samples@.len()) as int,
                    spec_clamped_offset(end_ms, sample_rate, channels, samples@.len()) as int,
                )
                &&& cut@.len() > 0
            },
            Err(e) => e == AudioError::EmptyTrim && spec_trim_is_empty(
                start_ms,
                end_ms,
                sample_rate,
                channels,
                samples@.len(),
            ),
        },
{
    match trim_range(start_ms, end_ms, sample_rate, channels, samples.len()) {
        Err(e) => Err(e),
        Ok(range) => {
            let mut cut: Vec<i16> = Vec::new();
            let mut i: usize = range.start;
            while i < range.end
                invariant
                    range.start <= i <= range.end <= samples@.len(),
                    cut@ == samples@.subrange(range.start as int, i as int),
                decreases range.end - i,
            {
                cut.push(samples[i]);
                assert(cut@ =~= samples@.subrange(range.start as int, i + 1));
                i = i + 1;
            }
            Ok(cut)
        },
    }
}

/// The playing time of a clip in whole milliseconds, unless it exceeds what
/// 64 bits hold.
pub fn get_audio_duration(total_samples: u64, sample_rate: u32, channels: u16) -> (r: Option<u64>)
    ensures
        r matches Some(ms) ==> ms == spec_duration_ms(total_samples, sample_rate, channels),
        r is None <==> spec_duration_ms(total_samples, sample_rate, channels) > u64::MAX,
{
    if sample_rate == 0 || channels == 0 {
        return Some(0);
    }
    let frames: u64 = total_samples / (channels as u64);
    let scaled: u128 = (frames as u128) * 1000;
    let ms: u128 = scaled / (sample_rate as u128);
    if ms > u64::MAX as u128 {
        None
    } else {
        Some(ms as u64)
    }
}

/// The length assumed for a clip whose duration cannot be told, in
/// milliseconds.
pub const FALLBACK_DURATION_MS: u64 = 60000;

/// The range to play for a clip heard as a whole, outside the pipeline:
/// from its start to its duration, or to the fallback where the duration is
/// not known.
pub fn whole_clip(duration_ms: Option<u64>) -> (range: (u64, u64))
    ensures
        range.0 == 0,
        range.1 == match duration_ms {
            Some(ms) => ms,
            None => FALLBACK_DURATION_MS,
        },
{
    match duration_ms {
        Some(ms) => (0, ms),
        None => (0, FALLBACK_DURATION_MS),
    }
}

/// A range that starts where it ends selects nothing, and neither does one
/// that starts at or after the clip's end.
pub proof fn lemma_empty_trims(
    start_ms: u64,
    end_ms: u64,
    sample_rate: u32,
    channels: u16,
    total: nat,
)
    ensures
        start_ms == end_ms ==> spec_trim_is_empty(start_ms, end_ms, sample_rate, channels, total),
        spec_sample_offset(start_ms, sample_rate, channels) >= total ==> spec_trim_is_empty(
            start_ms,
            end_ms,
            sample_rate,
            channels,
            total,
        ),
{
}

/// Sample offsets grow with the time they stand for, so a range that ends
/// before it starts selects nothing.
pub proof fn lemma_reversed_trim_is_empty(
    start_ms: u64,
    end_ms: u64,
    sample_rate: u32,
    channels: u16,
    total: nat,
)
    requires
        end_ms <= start_ms,
    ensures
        spec_trim_is_empty(start_ms, end_ms, sample_rate, channels, total),
{
    let scale = sample_rate * channels;
    assert(end_ms * sample_rate * channels <= start_ms * sample_rate * channels)
        by (nonlinear_arith)
        requires
            0 <= end_ms <= start_ms,
            0 <= sample_rate,
            0 <= channels,
    ;
    assert(0 <= end_ms * sample_rate * channels) by (nonlinear_arith)
        requires
            0 <= end_ms,
            0 <= sample_rate,
            0 <= channels,
    ;
    vstd::arithmetic::div_mod::lemma_div_is_ordered(
        end_ms * sample_rate * channels,
        start_ms * sample_rate * channels,
        1000,
    );
}

} // verus!
