//! The live pipeline: a capture queue and an injection queue feeding one
//! mixer, with volumes that can change while it runs.

use vstd::prelude::*;
use crate::audio::convert::{plan_conversion, ConversionPlan, spec_lengths_fit, spec_rates_usable};
use crate::audio::error::AudioError;
use crate::audio::ring::{SampleRing, SILENCE};

verus! {

/// Seconds of injected audio the injection queue can hold.
pub const INJECTION_SECONDS: u64 = 30;

/// The four values one output sample is made of. The output is
/// `mic × mic_volume + sound × sound_volume`, each taken as the
/// single-precision value with that bit pattern.
#[derive(Clone, Copy, Debug, PartialEq, Eq, Structural)]
pub struct MixTerms {
    pub mic: u32,
    pub mic_volume: u32,
    pub sound: u32,
    pub sound_volume: u32,
}

/// What a pipeline is, to its callers.
pub struct PipelineState {
    pub channels: u16,
    pub sample_rate: u32,
    pub mic_volume: u32,
    pub sound_volume: u32,
    /// Captured samples not yet mixed, eldest first.
    pub captured: Seq<u32>,
    /// Injected samples not yet mixed, eldest first.
    pub injected: Seq<u32>,
}

impl PipelineState {
    /// Samples per second of audio in the pipeline's format.
    pub open spec fn samples_per_second(self) -> nat {
        (self.sample_rate * self.channels) as nat
    }

    /// Room in the capture queue: about one second.
    pub open spec fn capture_capacity(self) -> nat {
        self.samples_per_second()
    }

    /// Room in the injection queue: about thirty seconds.
    pub open spec fn injection_capacity(self) -> nat {
        self.samples_per_second() * (INJECTION_SECONDS as nat)
    }

    pub open spec fn wf(self) -> bool {
        &&& self.channels > 0
        &&& self.sample_rate > 0
        &&& self.captured.len() <= self.capture_capacity()
        &&& self.injected.len() <= self.injection_capacity()
    }

    /// The state right after a start in the given format.
    pub open spec fn fresh(channels: u16, sample_rate: u32, mic_volume: u32, sound_volume: u32) -> Self {
        PipelineState {
            channels,
            sample_rate,
            mic_volume,
            sound_volume,
            captured: Seq::empty(),
            injected: Seq::empty(),
        }
    }

    /// The state after the capture callback delivered `data`.
    pub open spec fn after_capture(self, data: Seq<u32>) -> Self {
        PipelineState {
            captured: SampleRing::after_push_all(self.captured, self.capture_capacity(), data),
            ..self
        }
    }

    /// The state after `samples` were offered for injection.
    pub open spec fn after_inject(self, samples: Seq<u32>) -> Self {
        PipelineState {
            injected: SampleRing::after_push_all(self.injected, self.injection_capacity(), samples),
            ..self
        }
    }

    /// The terms of the next output sample.
    pub open spec fn mix(self) -> MixTerms {
        MixTerms {
            mic: SampleRing::front_or_silence(self.captured),
            mic_volume: self.mic_volume,
            sound: SampleRing::front_or_silence(self.injected),
            sound_volume: self.sound_volume,
        }
    }

    /// The state after one output sample was pulled.
    pub open spec fn after_pull(self) -> Self {
        PipelineState {
            captured: SampleRing::after_pop(self.captured),
            injected: SampleRing::after_pop(self.injected),
            ..self
        }
    }
}

/// A running pipeline in a fixed format.
pub struct AudioPipeline {
    capture: SampleRing,
    injection: SampleRing,
    mic_volume: u32,
    sound_volume: u32,
    channels: u16,
    sample_rate: u32,
}

impl View for AudioPipeline {
    type V = PipelineState;

    closed spec fn view(&self) -> PipelineState {
        PipelineState {
            channels: self.channels,
            sample_rate: self.sample_rate,
            mic_volume: self.mic_volume,
            sound_volume: self.sound_volume,
            captured: self.capture@,
            injected: self.injection@,
        }
    }
}

/// The capacity of a queue holding `seconds` of audio, where it fits the
/// machine's address width.
pub fn queue_capacity(channels: u16, sample_rate: u32, seconds: u64) -> (r: Option<usize>)
    ensures
        r matches Some(n) ==> n == sample_rate * channels * seconds,
        r is None <==> sample_rate * channels * seconds > usize::MAX,
{
    assert(0 <= sample_rate * channels <= 0xffff_ffff * 0xffff) by (nonlinear_arith)
        requires
            0 <= sample_rate <= 0xffff_ffff,
            0 <= channels <= 0xffff,
    ;
    assert(0 <= sample_rate * channels * seconds <= 0xffff_ffff * 0xffff * 0xffff_ffff_ffff_ffff)
        by (nonlinear_arith)
        requires
            0 <= sample_rate * channels <= 0xffff_ffff * 0xffff,
            0 <= seconds <= 0xffff_ffff_ffff_ffff,
    ;
    let total: u128 = (sample_rate as u128) * (channels as u128) * (seconds as u128);
    if total > usize::MAX as u128 {
        None
    } else {
        Some(total as usize)
    }
}

impl AudioPipeline {
    /// The queues have the capacities the format calls for, and hold no
    /// more than that.
    pub closed spec fn wf(&self) -> bool {
        &&& self@.wf()
        &&& self.capture.spec_capacity() == self@.capture_capacity()
        &&& self.injection.spec_capacity() == self@.injection_capacity()
    }

    /// A well-formed pipeline has a well-formed state.
    pub proof fn lemma_wf_state(&self)
        requires
            self.wf(),
        ensures
            self@.wf(),
    {
    }

    /// Whether `ring` can serve as a fresh queue of the given capacity: it
    /// is empty and has exactly that capacity.
    pub open spec fn spec_is_fresh_queue(ring: Option<SampleRing>, capacity: nat) -> bool {
        ring matches Some(queue) && queue@.len() == 0 && queue.spec_capacity() == capacity
    }

    /// Builds a pipeline from two queues that were allocated for it. Fails
    /// with `UnsupportedFormat` exactly for a format without channels or
    /// with a zero rate, and otherwise with `BufferAllocation` exactly when
    /// a queue is missing, is not empty, or has not the capacity the format
    /// calls for.
    pub fn assemble(
        channels: u16,
        sample_rate: u32,
        mic_volume: u32,
        sound_volume: u32,
        capture: Option<SampleRing>,
        injection: Option<SampleRing>,
    ) -> (r: Result<AudioPipeline, AudioError>)
        ensures
            match r {
                Ok(p) => {
                    &&& channels > 0 && sample_rate > 0
                    &&& Self::spec_is_fresh_queue(
                        capture,
                        PipelineState::fresh(
                            channels,
                            sample_rate,
                            mic_volume,
                            sound_volume,
                        ).capture_capacity(),
                    )
                    &&& Self::spec_is_fresh_queue(
                        injection,
                        PipelineState::fresh(
                            channels,
                            sample_rate,
                            mic_volume,
                            sound_volume,
                        ).injection_capacity(),
                    )
                    &&& p.wf()
                    &&& p@ == PipelineState::fresh(channels, sample_rate, mic_volume, sound_volume)
                },
                Err(e) => if channels == 0 || sample_rate == 0 {
                    e == AudioError::UnsupportedFormat
                } else {
                    &&& e == AudioError::BufferAllocation
                    &&& !(Self::spec_is_fresh_queue(
                        capture,
                        PipelineState::fresh(
                            channels,
                            sample_rate,
                            mic_volume,
                            sound_volume,
                        ).capture_capacity(),
                    ) && Self::spec_is_fresh_queue(
                        injection,
                        PipelineState::fresh(
                            channels,
                            sample_rate,
                            mic_volume,
                            sound_volume,
                        ).injection_capacity(),
                    ))
                },
            },
    {
        if channels == 0 || sample_rate == 0 {
            return Err(AudioError::UnsupportedFormat);
        }
        let capture_len = queue_capacity(channels, sample_rate, 1);
        let injection_len = queue_capacity(channels, sample_rate, INJECTION_SECONDS);
        proof {
            let fresh = PipelineState::fresh(channels, sample_rate, mic_volume, sound_volume);
            assert(0 <= sample_rate * channels) by (nonlinear_arith)
                requires
                    0 <= sample_rate,
                    0 <= channels,
            ;
            assert(fresh.capture_capacity() == sample_rate * channels * 1);
            assert(fresh.injection_capacity() == sample_rate * channels * INJECTION_SECONDS);
        }
        match (capture, injection) {
            (Some(capture), Some(injection)) => {
                let capture_room = capture.capacity();
                let injection_room = injection.capacity();
                let capture_fits = match capture_len {
                    Some(capacity) => capture_room == capacity,
                    None => false,
                };
                let injection_fits = match injection_len {
                    Some(capacity) => injection_room == capacity,
                    None => false,
                };
                if capture_fits && injection_fits && capture.len() == 0 && injection.len() == 0 {
                    assert(capture@ =~= Seq::<u32>::empty());
                    assert(injection@ =~= Seq::<u32>::empty());
                    Ok(
                        AudioPipeline {
                            capture,
                            injection,
                            mic_volume,
                            sound_volume,
                            channels,
                            sample_rate,
                        },
                    )
                } else {
                    Err(AudioError::BufferAllocation)
                }
            },
            _ => Err(AudioError::BufferAllocation),
        }
    }

    /// Sets up a pipeline in the capture device's native format, with both
    /// queues empty: about one second of room for captured audio and about
    /// thirty for injected clips. A format without channels or with a zero
    /// rate is refused with `UnsupportedFormat`; where a queue cannot be
    /// allocated, the start fails with `BufferAllocation`.
    pub fn start(channels: u16, sample_rate: u32, mic_volume: u32, sound_volume: u32) -> (r: Result<
        AudioPipeline,
        AudioError,
    >)
        ensures
            (channels == 0 || sample_rate == 0) ==> r == Err::<AudioPipeline, AudioError>(
                AudioError::UnsupportedFormat,
            ),
            r matches Ok(p) ==> p@ == PipelineState::fresh(
                channels,
                sample_rate,
                mic_volume,
                sound_volume,
            ) && p.wf(),
            (channels > 0 && sample_rate > 0 && r is Err) ==> r == Err::<AudioPipeline, AudioError>(
                AudioError::BufferAllocation,
            ),
    {
        if channels == 0 || sample_rate == 0 {
            return Err(AudioError::UnsupportedFormat);
        }
        let capture = match queue_capacity(channels, sample_rate, 1) {
            Some(capacity) => SampleRing::new(capacity),
            None => None,
        };
        let injection = match queue_capacity(channels, sample_rate, INJECTION_SECONDS) {
            Some(capacity) => SampleRing::new(capacity),
            None => None,
        };
        Self::assemble(channels, sample_rate, mic_volume, sound_volume, capture, injection)
    }

    /// The capture path: queues what the input callback delivered, in order,
    /// and silently drops what does not fit. Returns how many samples were
    /// queued.
    pub fn capture(&mut self, data: &[u32]) -> (queued: usize)
        requires
            old(self).wf(),
        ensures
            final(self).wf(),
            final(self)@ == old(self)@.after_capture(data@),
            queued == final(self)@.captured.len() - old(self)@.captured.len(),
    {
        self.capture.push_all(data)
    }

    /// Queues converted clip samples for injection, in order, and silently
    /// drops what does not fit. Returns how many samples were queued.
    pub fn inject(&mut self, samples: &[u32]) -> (queued: usize)
        requires
            old(self).wf(),
        ensures
            final(self).wf(),
            final(self)@ == old(self)@.after_inject(samples@),
            queued == final(self)@.injected.len() - old(self)@.injected.len(),
    {
        self.injection.push_all(samples)
    }

    /// The mixer's pull: takes at most one sample from each queue, silence
    /// from an empty one, and pairs each with its current volume. Always
    /// yields exactly one set of terms.
    pub fn next(&mut self) -> (r: Option<MixTerms>)
        requires
            old(self).wf(),
        ensures
            final(self).wf(),
            r == Some(old(self)@.mix()),
            final(self)@ == old(self)@.after_pull(),
    {
        let mic = self.capture.pop_or_silence();
        let sound = self.injection.pop_or_silence();
        Some(MixTerms { mic, mic_volume: self.mic_volume, sound, sound_volume: self.sound_volume })
    }

    /// The channel count of the stream the mixer produces.
    pub fn channels(&self) -> (n: u16)
        ensures
            n == self@.channels,
    {
        self.channels
    }

    /// The sample rate of the stream the mixer produces.
    pub fn sample_rate(&self) -> (rate: u32)
        ensures
            rate == self@.sample_rate,
    {
        self.sample_rate
    }

    pub fn mic_volume(&self) -> (volume: u32)
        ensures
            volume == self@.mic_volume,
    {
        self.mic_volume
    }

    pub fn sound_volume(&self) -> (volume: u32)
        ensures
            volume == self@.sound_volume,
    {
        self.sound_volume
    }

    /// The mixer's stream has no frame boundaries.
    pub fn current_frame_len(&self) -> (len: Option<usize>)
        ensures
            len is None,
    {
        None
    }

    /// The mixer's stream never ends, so it has no duration, in
    /// milliseconds or otherwise.
    pub fn total_duration(&self) -> (millis: Option<u64>)
        ensures
            millis is None,
    {
        None
    }

    /// Plans the conversion of a decoded clip into this pipeline's format.
    pub fn conversion_plan(&self, src_channels: u16, src_rate: u32, raw_len: usize) -> (r: Result<
        ConversionPlan,
        AudioError,
    >)
        requires
            self.wf(),
        ensures
            match r {
                Ok(plan) => {
                    &&& spec_rates_usable(src_rate, self@.sample_rate)
                    &&& spec_lengths_fit(
                        src_channels,
                        src_rate,
                        self@.channels,
                        self@.sample_rate,
                        raw_len as nat,
                    )
                    &&& plan.is_plan_for(
                        src_channels,
                        src_rate,
                        self@.channels,
                        self@.sample_rate,
                        raw_len as nat,
                    )
                },
                Err(e) => if !spec_rates_usable(src_rate, self@.sample_rate) {
                    e == AudioError::UnsupportedFormat
                } else {
                    e == AudioError::BufferAllocation && !spec_lengths_fit(
                        src_channels,
                        src_rate,
                        self@.channels,
                        self@.sample_rate,
                        raw_len as nat,
                    )
                },
            },
    {
        plan_conversion(src_channels, src_rate, self.channels, self.sample_rate, raw_len)
    }

    /// Replaces the microphone volume; the next pull uses it.
    pub fn set_mic_volume(&mut self, volume: u32)
        requires
            old(self).wf(),
        ensures
            final(self).wf(),
            final(self)@ == (PipelineState { mic_volume: volume, ..old(self)@ }),
    {
        self.mic_volume = volume;
    }

    /// Replaces the clip volume; the next pull uses it.
    pub fn set_sound_volume(&mut self, volume: u32)
        requires
            old(self).wf(),
        ensures
            final(self).wf(),
            final(self)@ == (PipelineState { sound_volume: volume, ..old(self)@ }),
    {
        self.sound_volume = volume;
    }
}

/// One pull takes at most one sample from each queue and never fails: a
/// term is the eldest waiting sample, or silence where none waits, and the
/// volumes are the ones in force.
pub proof fn lemma_pull_takes_at_most_one(state: PipelineState)
    requires
        state.wf(),
    ensures
        state.after_pull().wf(),
        state.after_pull().captured.len() == if state.captured.len() > 0 {
            state.captured.len() - 1
        } else {
            0
        },
        state.after_pull().injected.len() == if state.injected.len() > 0 {
            state.injected.len() - 1
        } else {
            0
        },
        state.mix().mic == if state.captured.len() > 0 {
            state.captured[0]
        } else {
            SILENCE
        },
        state.mix().sound == if state.injected.len() > 0 {
            state.injected[0]
        } else {
            SILENCE
        },
        state.mix().mic_volume == state.mic_volume,
        state.mix().sound_volume == state.sound_volume,
{
}

/// The state after `count` output samples were pulled.
pub open spec fn after_pulls(state: PipelineState, count: nat) -> PipelineState
    decreases count,
{
    if count == 0 {
        state
    } else {
        after_pulls(state, (count - 1) as nat).after_pull()
    }
}

/// Pulls replay both queues in order. After `count` pulls the queues have
/// lost their first `count` samples, so the next pull mixes sample number
/// `count` of each queue as it stood at the beginning, or silence where a
/// queue held fewer.
pub proof fn lemma_pulls_replay_queues(state: PipelineState, count: nat)
    ensures
        after_pulls(state, count).captured == if count <= state.captured.len() {
            state.captured.skip(count as int)
        } else {
            Seq::<u32>::empty()
        },
        after_pulls(state, count).injected == if count <= state.injected.len() {
            state.injected.skip(count as int)
        } else {
            Seq::<u32>::empty()
        },
        after_pulls(state, count).mix().mic == if count < state.captured.len() {
            state.captured[count as int]
        } else {
            SILENCE
        },
        after_pulls(state, count).mix().sound == if count < state.injected.len() {
            state.injected[count as int]
        } else {
            SILENCE
        },
        after_pulls(state, count).mic_volume == state.mic_volume,
        after_pulls(state, count).sound_volume == state.sound_volume,
    decreases count,
{
    if count == 0 {
        assert(state.captured.skip(0) =~= state.captured);
        assert(state.injected.skip(0) =~= state.injected);
    } else {
        let before = (count - 1) as nat;
        lemma_pulls_replay_queues(state, before);
        let earlier = after_pulls(state, before);
        if count <= state.captured.len() {
            assert(earlier.captured.drop_first() =~= state.captured.skip(count as int));
        } else {
            assert(SampleRing::after_pop(earlier.captured) =~= Seq::<u32>::empty());
        }
        if count <= state.injected.len() {
            assert(earlier.injected.drop_first() =~= state.injected.skip(count as int));
        } else {
            assert(SampleRing::after_pop(earlier.injected) =~= Seq::<u32>::empty());
        }
    }
}

} // verus!
