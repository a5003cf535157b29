use deck8_hub::audio::error::AudioError;
use deck8_hub::audio::pipeline::{AudioPipeline, MixTerms};
use deck8_hub::audio::ring::SampleRing;

fn mixed(terms: MixTerms) -> f32 {
    f32::from_bits(terms.mic) * f32::from_bits(terms.mic_volume)
        + f32::from_bits(terms.sound) * f32::from_bits(terms.sound_volume)
}

#[test]
fn ring_is_first_in_first_out() {
    let mut ring = SampleRing::new(4).unwrap();
    assert_eq!(ring.capacity(), 4);
    assert_eq!(ring.len(), 0);
    assert!(ring.push(11));
    assert!(ring.push(22));
    assert_eq!(ring.len(), 2);
    assert_eq!(ring.pop_or_silence(), 11);
    assert_eq!(ring.pop_or_silence(), 22);
    assert_eq!(ring.pop_or_silence(), 0);
    assert_eq!(ring.len(), 0);
}

#[test]
fn ring_refuses_zero_capacity() {
    assert!(SampleRing::new(0).is_none());
}

#[test]
fn no_queue_without_an_allocation() {
    assert!(SampleRing::from_store(None).is_none());
}

#[test]
fn allocated_queues_are_empty_and_sized() {
    for capacity in [1usize, 2, 1000, 96000] {
        let ring = SampleRing::new(capacity).unwrap();
        assert_eq!(ring.capacity(), capacity);
        assert_eq!(ring.len(), 0);
    }
}

#[test]
fn ring_overflow_drops_and_stays_consistent() {
    let mut ring = SampleRing::new(3).unwrap();
    assert_eq!(ring.push_all(&[1, 2, 3, 4, 5]), 3);
    assert!(!ring.push(6));
    assert_eq!(ring.len(), 3);
    assert_eq!(ring.pop_or_silence(), 1);
    assert!(ring.push(7));
    assert!(!ring.push(8));
    assert_eq!(ring.pop_or_silence(), 2);
    assert_eq!(ring.pop_or_silence(), 3);
    assert_eq!(ring.pop_or_silence(), 7);
    assert_eq!(ring.pop_or_silence(), 0);
    assert_eq!(ring.push_all(&[]), 0);
    assert_eq!(ring.push_all(&[9]), 1);
    assert_eq!(ring.pop_or_silence(), 9);
}

#[test]
fn pipeline_refuses_empty_formats() {
    assert_eq!(AudioPipeline::start(0, 48000, 0, 0).err(), Some(AudioError::UnsupportedFormat));
    assert_eq!(AudioPipeline::start(2, 0, 0, 0).err(), Some(AudioError::UnsupportedFormat));
}

#[test]
fn mixer_yields_silence_from_empty_queues() {
    let one = 1.0f32.to_bits();
    let mut p = AudioPipeline::start(1, 16000, one, one).unwrap();
    let terms = p.next().unwrap();
    assert_eq!(terms, MixTerms { mic: 0, mic_volume: one, sound: 0, sound_volume: one });
    assert_eq!(mixed(terms), 0.0);
}

#[test]
fn mixer_sums_both_sources_with_their_volumes() {
    let mut p = AudioPipeline::start(1, 16000, 0.5f32.to_bits(), 0.25f32.to_bits()).unwrap();
    assert_eq!(p.capture(&[0.5f32.to_bits(), (-1.0f32).to_bits()]), 2);
    assert_eq!(p.inject(&[1.0f32.to_bits()]), 1);
    assert_eq!(mixed(p.next().unwrap()), 0.5 * 0.5 + 1.0 * 0.25);
    assert_eq!(mixed(p.next().unwrap()), -1.0 * 0.5);
    assert_eq!(mixed(p.next().unwrap()), 0.0);
}

#[test]
fn volume_changes_apply_to_the_next_pull() {
    let mut p = AudioPipeline::start(1, 16000, 1.0f32.to_bits(), 1.0f32.to_bits()).unwrap();
    p.capture(&[1.0f32.to_bits(), 1.0f32.to_bits()]);
    p.inject(&[1.0f32.to_bits(), 1.0f32.to_bits()]);
    assert_eq!(mixed(p.next().unwrap()), 2.0);
    p.set_mic_volume(0.0f32.to_bits());
    p.set_sound_volume(0.5f32.to_bits());
    assert_eq!(mixed(p.next().unwrap()), 0.5);
}

#[test]
fn capture_queue_holds_one_second() {
    let mut p = AudioPipeline::start(2, 100, 0, 0).unwrap();
    let data = vec![7u32; 250];
    assert_eq!(p.capture(&data), 200);
    assert_eq!(p.capture(&data), 0);
    assert_eq!(p.next().unwrap().mic, 7);
    assert_eq!(p.capture(&data), 1);
}

#[test]
fn injection_queue_holds_thirty_seconds() {
    let mut p = AudioPipeline::start(2, 100, 0, 0).unwrap();
    let data = vec![3u32; 7000];
    assert_eq!(p.inject(&data), 6000);
    assert_eq!(p.inject(&data), 0);
}
