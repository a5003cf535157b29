//! Bringing a decoded clip into the pipeline's format: which channel
//! conversion applies, how long the result is, and which source samples each
//! resampled output sample is interpolated from.
//!
//! Everything here is exact integer arithmetic on positions and lengths. The
//! sample values themselves are only moved, never computed with.

use vstd::prelude::*;
use crate::audio::error::AudioError;

verus! {

/// How a clip's channels map onto the pipeline's.
#[derive(Clone, Copy, Debug, PartialEq, Eq, Structural)]
pub enum ChannelOp {
    /// Stereo to mono: each frame becomes the average of its two samples.
    Downmix,
    /// Mono to stereo: each sample is written to both channels.
    Upmix,
    /// Any other pair of channel counts: samples pass unchanged.
    PassThrough,
}

pub open spec fn spec_channel_op(src_channels: u16, dst_channels: u16) -> ChannelOp {
    if src_channels == 2 && dst_channels == 1 {
        ChannelOp::Downmix
    } else if src_channels == 1 && dst_channels == 2 {
        ChannelOp::Upmix
    } else {
        ChannelOp::PassThrough
    }
}

/// The number of samples after channel conversion. A stereo clip with an
/// odd sample count ends in a frame of one sample, which still yields an
/// output sample.
pub open spec fn spec_channel_len(op: ChannelOp, len: nat) -> nat {
    match op {
        ChannelOp::Downmix => (len + 1) / 2,
        ChannelOp::Upmix => 2 * len,
        ChannelOp::PassThrough => len,
    }
}

/// A mono clip spread over two channels: sample `j` of the result is sample
/// `j / 2` of the clip.
pub open spec fn spec_duplicate(samples: Seq<u32>) -> Seq<u32> {
    Seq::new(2 * samples.len(), |j: int| samples[j / 2])
}

/// The number of samples after resampling `len` samples from `src_rate` to
/// `dst_rate`: `len` divided by the ratio `src_rate / dst_rate`, rounded
/// down.
pub open spec fn spec_resampled_len(src_rate: u32, dst_rate: u32, len: nat) -> nat
    recommends
        src_rate > 0,
{
    ((len * dst_rate) / (src_rate as int)) as nat
}

/// The source position of output sample `i`, as a whole index and the
/// numerator of a fraction over `dst_rate`.
pub open spec fn spec_source_index(src_rate: u32, dst_rate: u32, i: nat) -> nat
    recommends
        dst_rate > 0,
{
    ((i * src_rate) / (dst_rate as int)) as nat
}

pub open spec fn spec_source_fraction(src_rate: u32, dst_rate: u32, i: nat) -> nat
    recommends
        dst_rate > 0,
{
    ((i * src_rate) % (dst_rate as int)) as nat
}

/// The source samples of one downmixed frame.
#[derive(Clone, Copy, Debug, PartialEq, Eq, Structural)]
pub struct FramePair {
    pub left: usize,
    /// Absent for the last frame of a clip with an odd sample count; the
    /// missing sample counts as silence.
    pub right: Option<usize>,
}

/// The two source samples an output sample is interpolated between, and how
/// far between them it lies: `numerator / denominator` of the way from
/// `first` to `second`.
#[derive(Clone, Copy, Debug, PartialEq, Eq, Structural)]
pub struct Tap {
    pub first: usize,
    pub second: usize,
    pub numerator: u32,
    pub denominator: u32,
}

pub fn channel_op(src_channels: u16, dst_channels: u16) -> (op: ChannelOp)
    ensures
        op == spec_channel_op(src_channels, dst_channels),
{
    if src_channels == 2 && dst_channels == 1 {
        ChannelOp::Downmix
    } else if src_channels == 1 && dst_channels == 2 {
        ChannelOp::Upmix
    } else {
        ChannelOp::PassThrough
    }
}

/// The length after channel conversion, unless it is too large to index.
pub fn channel_converted_len(op: ChannelOp, len: usize) -> (r: Option<usize>)
    ensures
        r matches Some(n) ==> n == spec_channel_len(op, len as nat),
        r is None <==> spec_channel_len(op, len as nat) > usize::MAX,
{
    match op {
        ChannelOp::Downmix => Some(len / 2 + len % 2),
        ChannelOp::Upmix => {
            if len > usize::MAX / 2 {
                None
            } else {
                Some(2 * len)
            }
        },
        ChannelOp::PassThrough => Some(len),
    }
}

pub open spec fn spec_downmix_sources(len: nat, frame: nat) -> FramePair {
    FramePair {
        left: (2 * frame) as usize,
        right: if 2 * frame + 1 < len {
            Some((2 * frame + 1) as usize)
        } else {
            None
        },
    }
}

/// The source samples of downmixed frame `frame` of a clip of `len`
/// samples.
pub fn downmix_sources(len: usize, frame: usize) -> (pair: FramePair)
    requires
        frame < spec_channel_len(ChannelOp::Downmix, len as nat),
    ensures
        pair == spec_downmix_sources(len as nat, frame as nat),
        pair.left == 2 * frame,
        pair.left < len,
{
    let left = 2 * frame;
    let right = if left + 1 < len {
        Some(left + 1)
    } else {
        None
    };
    FramePair { left, right }
}

/// Spreads a mono clip over two channels.
pub fn duplicate_channels(samples: &[u32]) -> (out: Vec<u32>)
    ensures
        out@ == spec_duplicate(samples@),
{
    let mut out: Vec<u32> = Vec::new();
    let mut i: usize = 0;
    while i < samples.len()
        invariant
            0 <= i <= samples.len(),
            out@.len() == 2 * i,
            forall|j: int| 0 <= j < 2 * i ==> out@[j] == samples@[j / 2],
        decreases samples.len() - i,
    {
        let sample = samples[i];
        out.push(sample);
        out.push(sample);
        i = i + 1;
    }
    assert(out@ =~= spec_duplicate(samples@));
    out
}

/// A linear-interpolation resampler between two fixed rates.
#[derive(Clone, Copy, Debug)]
pub struct Resampler {
    src_rate: u32,
    dst_rate: u32,
}

impl Resampler {
    #[verifier::type_invariant]
    closed spec fn inv(&self) -> bool {
        self.src_rate > 0
    }

    pub closed spec fn spec_src_rate(&self) -> u32 {
        self.src_rate
    }

    pub closed spec fn spec_dst_rate(&self) -> u32 {
        self.dst_rate
    }

    /// A resampler from `src_rate` to `dst_rate`. A source rate of zero has
    /// no ratio and is refused.
    pub fn new(src_rate: u32, dst_rate: u32) -> (r: Option<Resampler>)
        ensures
            r is Some <==> src_rate > 0,
            r matches Some(rs) ==> rs.spec_src_rate() == src_rate && rs.spec_dst_rate() == dst_rate,
    {
        if src_rate == 0 {
            None
        } else {
            Some(Resampler { src_rate, dst_rate })
        }
    }

    pub fn src_rate(&self) -> (r: u32)
        ensures
            r == self.spec_src_rate(),
            r > 0,
    {
        proof {
            use_type_invariant(self);
        }
        self.src_rate
    }

    pub fn dst_rate(&self) -> (r: u32)
        ensures
            r == self.spec_dst_rate(),
    {
        self.dst_rate
    }

    /// Whether both rates agree, in which case resampling changes nothing
    /// and is skipped.
    pub fn is_identity(&self) -> (r: bool)
        ensures
            r == (self.spec_src_rate() == self.spec_dst_rate()),
    {
        self.src_rate == self.dst_rate
    }

    /// The number of output samples for `len` input samples, unless it is
    /// too large to index.
    pub fn output_len(&self, len: usize) -> (r: Option<usize>)
        ensures
            r matches Some(n) ==> n == spec_resampled_len(
                self.spec_src_rate(),
                self.spec_dst_rate(),
                len as nat,
            ),
            r is None <==> spec_resampled_len(
                self.spec_src_rate(),
                self.spec_dst_rate(),
                len as nat,
            ) > usize::MAX,
    {
        proof {
            use_type_invariant(self);
            assert(0 <= len * self.dst_rate <= usize::MAX * 0xffff_ffff) by (nonlinear_arith)
                requires
                    0 <= len <= usize::MAX,
                    0 <= self.dst_rate <= 0xffff_ffff,
            ;
        }
        let total: u128 = (len as u128) * (self.dst_rate as u128);
        let n: u128 = total / (self.src_rate as u128);
        if n > usize::MAX as u128 {
            None
        } else {
            Some(n as usize)
        }
    }

    /// Where output sample `i` comes from in a clip of `len` samples. The
    /// first source sample always exists; where the clip ends right after
    /// it, it also serves as the second.
    pub fn tap(&self, len: usize, i: usize) -> (tap: Tap)
        requires
            i < spec_resampled_len(self.spec_src_rate(), self.spec_dst_rate(), len as nat),
        ensures
            tap.first == spec_source_index(self.spec_src_rate(), self.spec_dst_rate(), i as nat),
            tap.first < len,
            tap.second == if tap.first + 1 < len {
                (tap.first + 1) as usize
            } else {
                tap.first
            },
            tap.numerator == spec_source_fraction(
                self.spec_src_rate(),
                self.spec_dst_rate(),
                i as nat,
            ),
            tap.denominator == self.spec_dst_rate(),
            tap.numerator < tap.denominator,
    {
        proof {
            use_type_invariant(self);
            lemma_tap_in_range(self.src_rate, self.dst_rate, len as nat, i as nat);
            assert(0 <= i * self.src_rate <= usize::MAX * 0xffff_ffff) by (nonlinear_arith)
                requires
                    0 <= i <= usize::MAX,
                    0 <= self.src_rate <= 0xffff_ffff,
            ;
        }
        let position: u128 = (i as u128) * (self.src_rate as u128);
        let first: u128 = position / (self.dst_rate as u128);
        let numerator: u128 = position % (self.dst_rate as u128);
        let first: usize = first as usize;
        let second: usize = if first + 1 < len {
            first + 1
        } else {
            first
        };
        Tap { first, second, numerator: numerator as u32, denominator: self.dst_rate }
    }
}

/// Every output sample's source position lies inside the clip.
pub proof fn lemma_tap_in_range(src_rate: u32, dst_rate: u32, len: nat, i: nat)
    requires
        src_rate > 0,
        i < spec_resampled_len(src_rate, dst_rate, len),
    ensures
        dst_rate > 0,
        spec_source_index(src_rate, dst_rate, i) < len,
        spec_source_fraction(src_rate, dst_rate, i) < dst_rate,
{
    let s = src_rate as int;
    let d = dst_rate as int;
    let total = len * d;
    let q = total / s;
    if d == 0 {
        assert(len * d == 0) by (nonlinear_arith)
            requires
                d == 0,
        ;
        assert(0int / s == 0) by (nonlinear_arith)
            requires
                s > 0,
        ;
        assert(false);
    }
    assert(0 <= total) by (nonlinear_arith)
        requires
            total == len * d,
            d >= 0,
    ;
    assert(q * s <= total) by (nonlinear_arith)
        requires
            q == total / s,
            s > 0,
            total >= 0,
    ;
    assert((i + 1) * s <= q * s) by (nonlinear_arith)
        requires
            i + 1 <= q,
            s > 0,
    ;
    assert(i * s < len * d) by (nonlinear_arith)
        requires
            (i + 1) * s <= total,
            total == len * d,
            s > 0,
    ;
    assert((i * s) / d < len) by (nonlinear_arith)
        requires
            i * s < len * d,
            0 <= i * s,
            d > 0,
    ;
    assert(0 <= i * s) by (nonlinear_arith)
        requires
            s > 0,
    ;
    assert(0 <= (i * s) / d) by (nonlinear_arith)
        requires
            0 <= i * s,
            d > 0,
    ;
    assert(0 <= (i * s) % d < d) by (nonlinear_arith)
        requires
            d > 0,
    ;
}

/// Source positions never run backwards: a later output sample is taken
/// from the same place in the clip as an earlier one, or from further on.
pub proof fn lemma_taps_advance(src_rate: u32, dst_rate: u32, earlier: nat, later: nat)
    requires
        dst_rate > 0,
        earlier <= later,
    ensures
        spec_source_index(src_rate, dst_rate, earlier) <= spec_source_index(
            src_rate,
            dst_rate,
            later,
        ),
{
    let s = src_rate as int;
    let d = dst_rate as int;
    assert(0 <= earlier * s <= later * s) by (nonlinear_arith)
        requires
            0 <= earlier <= later,
            0 <= s,
    ;
    vstd::arithmetic::div_mod::lemma_div_is_ordered(earlier * s, later * s, d);
    assert(0 <= (earlier * s) / d) by (nonlinear_arith)
        requires
            0 <= earlier * s,
            d > 0,
    ;
}

/// A mono clip duplicated into stereo and then downmixed pairs every sample
/// with itself: frame `frame` of the downmix reads the two copies of sample
/// `frame`, and the clip has its old length again.
pub proof fn lemma_duplicate_then_downmix(samples: Seq<u32>, frame: nat)
    requires
        frame < samples.len(),
    ensures
        spec_duplicate(samples).len() == spec_channel_len(ChannelOp::Upmix, samples.len()),
        spec_channel_len(ChannelOp::Downmix, spec_duplicate(samples).len()) == samples.len(),
        spec_downmix_sources(spec_duplicate(samples).len(), frame) == (FramePair {
            left: (2 * frame) as usize,
            right: Some((2 * frame + 1) as usize),
        }),
        spec_duplicate(samples)[2 * (frame as int)] == samples[frame as int],
        spec_duplicate(samples)[2 * (frame as int) + 1] == samples[frame as int],
{
}

/// Between equal rates the resampler changes nothing: the length stays, and
/// output sample `i` sits exactly on source sample `i`.
pub proof fn lemma_equal_rates_resample_nothing(rate: u32, len: nat, i: nat)
    requires
        rate > 0,
    ensures
        spec_resampled_len(rate, rate, len) == len,
        spec_source_index(rate, rate, i) == i,
        spec_source_fraction(rate, rate, i) == 0,
{
    let r = rate as int;
    assert((len * r) / r == len) by (nonlinear_arith)
        requires
            r > 0,
    ;
    assert((i * r) / r == i) by (nonlinear_arith)
        requires
            r > 0,
    ;
    assert((i * r) % r == 0) by (nonlinear_arith)
        requires
            r > 0,
    ;
}

/// The length of a clip after conversion to the pipeline's format: channel
/// conversion first, then resampling where the rates differ.
pub open spec fn spec_converted_len(
    src_channels: u16,
    src_rate: u32,
    dst_channels: u16,
    dst_rate: u32,
    raw_len: nat,
) -> nat {
    let channel_len = spec_channel_len(spec_channel_op(src_channels, dst_channels), raw_len);
    if src_rate == dst_rate {
        channel_len
    } else {
        spec_resampled_len(src_rate, dst_rate, channel_len)
    }
}

/// The steps that bring one decoded clip into the pipeline's format.
#[derive(Clone, Copy, Debug)]
pub struct ConversionPlan {
    pub channel_op: ChannelOp,
    /// Samples after channel conversion.
    pub channel_len: usize,
    /// Absent where the rates agree and resampling is skipped.
    pub resampler: Option<Resampler>,
    /// Samples after the whole conversion.
    pub output_len: usize,
}

impl ConversionPlan {
    /// Whether this is the plan for a clip of `raw_len` samples in the
    /// source format, bound for the destination format.
    pub open spec fn is_plan_for(
        self,
        src_channels: u16,
        src_rate: u32,
        dst_channels: u16,
        dst_rate: u32,
        raw_len: nat,
    ) -> bool {
        &&& self.channel_op == spec_channel_op(src_channels, dst_channels)
        &&& self.channel_len == spec_channel_len(self.channel_op, raw_len)
        &&& self.resampler is None <==> src_rate == dst_rate
        &&& self.resampler matches Some(rs) ==> rs.spec_src_rate() == src_rate
            && rs.spec_dst_rate() == dst_rate
        &&& self.output_len == spec_converted_len(
            src_channels,
            src_rate,
            dst_channels,
            dst_rate,
            raw_len,
        )
    }
}

/// Whether a clip in this source format can be resampled at all: a source
/// rate of zero that differs from the destination rate has no ratio.
pub open spec fn spec_rates_usable(src_rate: u32, dst_rate: u32) -> bool {
    src_rate == dst_rate || src_rate > 0
}

/// Whether every length of the conversion can be indexed on this machine.
pub open spec fn spec_lengths_fit(
    src_channels: u16,
    src_rate: u32,
    dst_channels: u16,
    dst_rate: u32,
    raw_len: nat,
) -> bool {
    &&& spec_channel_len(spec_channel_op(src_channels, dst_channels), raw_len) <= usize::MAX
    &&& spec_converted_len(src_channels, src_rate, dst_channels, dst_rate, raw_len)
        <= usize::MAX
}

/// Plans the conversion of a decoded clip of `raw_len` samples. Fails with
/// `UnsupportedFormat` exactly when the rates differ and the source rate is
/// zero, and otherwise with `BufferAllocation` exactly when a length is too
/// large to index.
pub fn plan_conversion(
    src_channels: u16,
    src_rate: u32,
    dst_channels: u16,
    dst_rate: u32,
    raw_len: usize,
) -> (r: Result<ConversionPlan, AudioError>)
    ensures
        match r {
            Ok(plan) => {
                &&& spec_rates_usable(src_rate, dst_rate)
                &&& spec_lengths_fit(
                    src_channels,
                    src_rate,
                    dst_channels,
                    dst_rate,
                    raw_len as nat,
                )
                &&& plan.is_plan_for(
                    src_channels,
                    src_rate,
                    dst_channels,
                    dst_rate,
                    raw_len as nat,
                )
            },
            Err(e) => if !spec_rates_usable(src_rate, dst_rate) {
                e == AudioError::UnsupportedFormat
            } else {
                e == AudioError::BufferAllocation && !spec_lengths_fit(
                    src_channels,
                    src_rate,
                    dst_channels,
                    dst_rate,
                    raw_len as nat,
                )
            },
        },
{
    let op = channel_op(src_channels, dst_channels);
    if src_rate == dst_rate {
        match channel_converted_len(op, raw_len) {
            Some(channel_len) => Ok(
                ConversionPlan { channel_op: op, channel_len, resampler: None, output_len: channel_len },
            ),
            None => Err(AudioError::BufferAllocation),
        }
    } else {
        match Resampler::new(src_rate, dst_rate) {
            None => Err(AudioError::UnsupportedFormat),
            Some(rs) => match channel_converted_len(op, raw_len) {
                None => Err(AudioError::BufferAllocation),
                Some(channel_len) => match rs.output_len(channel_len) {
                    None => Err(AudioError::BufferAllocation),
                    Some(output_len) => Ok(
                        ConversionPlan {
                            channel_op: op,
                            channel_len,
                            resampler: Some(rs),
                            output_len,
                        },
                    ),
                },
            },
        }
    }
}

} // verus!
