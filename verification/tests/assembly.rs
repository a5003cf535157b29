use deck8_hub::audio::error::AudioError;
use deck8_hub::audio::pipeline::AudioPipeline;
use deck8_hub::audio::ring::SampleRing;
use deck8_hub::audio::trim::whole_clip;
use deck8_hub::commands::CommandError;
use deck8_hub::hid::HidError;

#[test]
fn pipelines_are_assembled_from_fitting_queues() {
    let p = AudioPipeline::assemble(2, 100, 1, 2, SampleRing::new(200), SampleRing::new(6000));
    let mut p = p.unwrap();
    assert_eq!(p.channels(), 2);
    assert_eq!(p.sample_rate(), 100);
    assert_eq!(p.mic_volume(), 1);
    assert_eq!(p.sound_volume(), 2);
    assert_eq!(p.capture(&[5; 300]), 200);
    assert_eq!(p.inject(&vec![6; 7000]), 6000);
}

#[test]
fn missing_or_unfit_queues_fail_the_start() {
    let fail = |capture, injection| AudioPipeline::assemble(2, 100, 0, 0, capture, injection).err();
    assert_eq!(fail(None, SampleRing::new(6000)), Some(AudioError::BufferAllocation));
    assert_eq!(fail(SampleRing::new(200), None), Some(AudioError::BufferAllocation));
    assert_eq!(fail(None, None), Some(AudioError::BufferAllocation));
    assert_eq!(fail(SampleRing::new(201), SampleRing::new(6000)), Some(AudioError::BufferAllocation));
    assert_eq!(fail(SampleRing::new(200), SampleRing::new(5999)), Some(AudioError::BufferAllocation));
    let mut used = SampleRing::new(200).unwrap();
    used.push(1);
    assert_eq!(fail(Some(used), SampleRing::new(6000)), Some(AudioError::BufferAllocation));
    let mut used = SampleRing::new(6000).unwrap();
    used.push(1);
    assert_eq!(fail(SampleRing::new(200), Some(used)), Some(AudioError::BufferAllocation));
}

#[test]
fn formats_are_checked_before_queues() {
    assert_eq!(
        AudioPipeline::assemble(0, 100, 0, 0, None, None).err(),
        Some(AudioError::UnsupportedFormat)
    );
    assert_eq!(
        AudioPipeline::assemble(2, 0, 0, 0, SampleRing::new(1), SampleRing::new(1)).err(),
        Some(AudioError::UnsupportedFormat)
    );
}

#[test]
fn whole_clips_fall_back_to_a_minute() {
    assert_eq!(whole_clip(Some(1234)), (0, 1234));
    assert_eq!(whole_clip(Some(0)), (0, 0));
    assert_eq!(whole_clip(None), (0, 60000));
}

#[test]
fn failures_have_words() {
    assert_eq!(AudioError::DeviceNotFound.message(), "Audio device not found");
    assert_eq!(AudioError::DecodeError.message(), "Failed to decode audio");
    assert_eq!(AudioError::EmptyTrim.message(), "Trimmed audio is empty");
    assert_eq!(AudioError::IoError.message(), "Audio file operation failed");
    assert_eq!(AudioError::UnsupportedFormat.message(), "Unsupported audio format");
    assert_eq!(AudioError::BufferAllocation.message(), "Audio buffer could not be allocated");
    assert_eq!(HidError::InitFailed.message(), "Failed to initialize HID API");
    assert_eq!(HidError::NotFound.message(), "Deck-8 not found (VID/PID/Usage mismatch)");
    assert_eq!(HidError::OpenFailed.message(), "Failed to open Deck-8 HID device");
    assert_eq!(HidError::WriteFailed.message(), "Failed to write HID report");
    assert_eq!(HidError::ReadFailed.message(), "Failed to read HID response");
    assert_eq!(HidError::TimedOut.message(), "HID read timed out");
    assert_eq!(HidError::NotConnected.message(), "Not connected");
    assert_eq!(CommandError::KeyIndexOutOfRange.message(), "key_index out of range");
    assert_eq!(CommandError::BadSlot.message(), "slot must be A or B");
}
