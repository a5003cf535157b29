use deck8_hub::audio::convert::{
    channel_converted_len, channel_op, downmix_sources, duplicate_channels, plan_conversion,
    ChannelOp, ConversionPlan, FramePair, Resampler, Tap,
};
use deck8_hub::audio::error::AudioError;
use deck8_hub::audio::pipeline::AudioPipeline;

/// Evaluates a plan on decoded samples the way the application does: the
/// library says where every output sample comes from, the arithmetic on
/// sample values is done here.
fn convert(plan: &ConversionPlan, raw: &[f32]) -> Vec<f32> {
    let channel_converted: Vec<f32> = match plan.channel_op {
        ChannelOp::Downmix => (0..plan.channel_len)
            .map(|frame| {
                let pair = downmix_sources(raw.len(), frame);
                let right = pair.right.map(|i| raw[i]).unwrap_or(0.0);
                (raw[pair.left] + right) / 2.0
            })
            .collect(),
        ChannelOp::Upmix => {
            let bits: Vec<u32> = raw.iter().map(|s| s.to_bits()).collect();
            duplicate_channels(&bits).into_iter().map(f32::from_bits).collect()
        }
        ChannelOp::PassThrough => raw.to_vec(),
    };
    match &plan.resampler {
        None => channel_converted,
        Some(resampler) => (0..plan.output_len)
            .map(|i| {
                let tap = resampler.tap(channel_converted.len(), i);
                let s0 = channel_converted[tap.first];
                let s1 = channel_converted[tap.second];
                let frac = tap.numerator as f32 / tap.denominator as f32;
                s0 + (s1 - s0) * frac
            })
            .collect(),
    }
}

#[test]
fn channel_op_covers_only_mono_and_stereo() {
    assert_eq!(channel_op(2, 1), ChannelOp::Downmix);
    assert_eq!(channel_op(1, 2), ChannelOp::Upmix);
    assert_eq!(channel_op(1, 1), ChannelOp::PassThrough);
    assert_eq!(channel_op(2, 2), ChannelOp::PassThrough);
    assert_eq!(channel_op(3, 1), ChannelOp::PassThrough);
    assert_eq!(channel_op(6, 2), ChannelOp::PassThrough);
    assert_eq!(channel_op(0, 0), ChannelOp::PassThrough);
}

#[test]
fn channel_converted_len_by_operation() {
    assert_eq!(channel_converted_len(ChannelOp::Downmix, 10), Some(5));
    assert_eq!(channel_converted_len(ChannelOp::Downmix, 11), Some(6));
    assert_eq!(channel_converted_len(ChannelOp::Downmix, 0), Some(0));
    assert_eq!(channel_converted_len(ChannelOp::Downmix, usize::MAX), Some(usize::MAX / 2 + 1));
    assert_eq!(channel_converted_len(ChannelOp::Upmix, 10), Some(20));
    assert_eq!(channel_converted_len(ChannelOp::Upmix, usize::MAX / 2), Some(usize::MAX - 1));
    assert_eq!(channel_converted_len(ChannelOp::Upmix, usize::MAX / 2 + 1), None);
    assert_eq!(channel_converted_len(ChannelOp::PassThrough, 7), Some(7));
}

#[test]
fn downmix_sources_pair_up_frames() {
    assert_eq!(downmix_sources(4, 0), FramePair { left: 0, right: Some(1) });
    assert_eq!(downmix_sources(4, 1), FramePair { left: 2, right: Some(3) });
    assert_eq!(downmix_sources(5, 2), FramePair { left: 4, right: None });
}

#[test]
fn duplicate_channels_doubles_every_sample() {
    assert_eq!(duplicate_channels(&[]), Vec::<u32>::new());
    assert_eq!(duplicate_channels(&[1, 2, 3]), vec![1, 1, 2, 2, 3, 3]);
}

#[test]
fn mono_to_stereo_and_back_reproduces_the_clip() {
    let mono: Vec<f32> = vec![0.0, 0.25, -0.5, 1.0, -1.0, 0.1, 0.333];
    let up = plan_conversion(1, 48000, 2, 48000, mono.len()).unwrap();
    let stereo = convert(&up, &mono);
    assert_eq!(stereo.len(), 2 * mono.len());
    let down = plan_conversion(2, 48000, 1, 48000, stereo.len()).unwrap();
    assert_eq!(convert(&down, &stereo), mono);
}

#[test]
fn stereo_to_mono_averages_each_frame() {
    let plan = plan_conversion(2, 44100, 1, 44100, 5).unwrap();
    assert_eq!(plan.channel_op, ChannelOp::Downmix);
    assert_eq!(convert(&plan, &[1.0, 0.0, 0.5, 0.25, 0.5]), vec![0.5, 0.375, 0.25]);
}

#[test]
fn equal_rates_leave_the_clip_untouched() {
    let raw: Vec<f32> = vec![0.1, -0.2, 0.3, 0.9];
    let plan = plan_conversion(2, 44100, 2, 44100, raw.len()).unwrap();
    assert!(plan.resampler.is_none());
    assert_eq!(plan.channel_len, 4);
    assert_eq!(plan.output_len, 4);
    assert_eq!(convert(&plan, &raw), raw);
    let plan = plan_conversion(1, 0, 1, 0, 3).unwrap();
    assert!(plan.resampler.is_none());
    assert_eq!(plan.output_len, 3);
}

#[test]
fn resampler_between_equal_rates_is_the_identity() {
    let r = Resampler::new(48000, 48000).unwrap();
    assert!(r.is_identity());
    assert_eq!(r.output_len(1234), Some(1234));
    for i in 0..10 {
        assert_eq!(
            r.tap(10, i),
            Tap { first: i, second: if i + 1 < 10 { i + 1 } else { i }, numerator: 0, denominator: 48000 }
        );
    }
}

#[test]
fn resampled_length_is_the_length_over_the_ratio() {
    let r = Resampler::new(44100, 48000).unwrap();
    assert!(!r.is_identity());
    assert_eq!(r.src_rate(), 44100);
    assert_eq!(r.dst_rate(), 48000);
    assert_eq!(r.output_len(44100), Some(48000));
    assert_eq!(r.output_len(1000), Some(1088));
    assert_eq!(r.output_len(0), Some(0));
    let down = Resampler::new(48000, 16000).unwrap();
    assert_eq!(down.output_len(10), Some(3));
    assert_eq!(down.output_len(2), Some(0));
    let up = Resampler::new(1, u32::MAX).unwrap();
    assert_eq!(up.output_len(usize::MAX), None);
    let to_nothing = Resampler::new(48000, 0).unwrap();
    assert_eq!(to_nothing.output_len(100000), Some(0));
}

#[test]
fn resampler_refuses_a_zero_source_rate() {
    assert!(Resampler::new(0, 48000).is_none());
    assert_eq!(plan_conversion(1, 0, 1, 48000, 10).err(), Some(AudioError::UnsupportedFormat));
}

#[test]
fn plan_refuses_lengths_that_cannot_be_indexed() {
    assert_eq!(
        plan_conversion(1, 48000, 2, 48000, usize::MAX).err(),
        Some(AudioError::BufferAllocation)
    );
    assert_eq!(
        plan_conversion(1, 8000, 1, 48000, usize::MAX).err(),
        Some(AudioError::BufferAllocation)
    );
}

#[test]
fn taps_interpolate_between_neighbours() {
    let r = Resampler::new(2, 3).unwrap();
    assert_eq!(r.output_len(4), Some(6));
    assert_eq!(r.tap(4, 0), Tap { first: 0, second: 1, numerator: 0, denominator: 3 });
    assert_eq!(r.tap(4, 1), Tap { first: 0, second: 1, numerator: 2, denominator: 3 });
    assert_eq!(r.tap(4, 2), Tap { first: 1, second: 2, numerator: 1, denominator: 3 });
    assert_eq!(r.tap(4, 5), Tap { first: 3, second: 3, numerator: 1, denominator: 3 });
    let halve = plan_conversion(1, 4, 1, 2, 4).unwrap();
    assert_eq!(convert(&halve, &[0.0, 1.0, 2.0, 3.0]), vec![0.0, 2.0]);
    let double = plan_conversion(1, 2, 1, 4, 3).unwrap();
    assert_eq!(convert(&double, &[0.0, 1.0, 2.0]), vec![0.0, 0.5, 1.0, 1.5, 2.0, 2.0]);
}

#[test]
fn mono_8khz_clip_fills_a_stereo_48khz_pipeline() {
    let clip: Vec<f32> = (0..4000).map(|i| (i as f32 / 4000.0) - 0.5).collect();
    let mut pipeline = AudioPipeline::start(2, 48000, 1.0f32.to_bits(), 1.0f32.to_bits()).unwrap();
    let plan = pipeline.conversion_plan(1, 8000, clip.len()).unwrap();
    assert_eq!(plan.channel_op, ChannelOp::Upmix);
    assert_eq!(plan.channel_len, 8000);
    assert_eq!(plan.output_len, 48000);
    let converted = convert(&plan, &clip);
    assert_eq!(converted.len(), 48000);
    let bits: Vec<u32> = converted.iter().map(|s| s.to_bits()).collect();
    assert_eq!(pipeline.inject(&bits), 48000);
    assert_eq!(pipeline.next().unwrap().sound, clip[0].to_bits());
}
