use deck8_hub::audio::error::AudioError;
use deck8_hub::audio::library::{import_to_library, import_to_library_trimmed, library_filename, uuid_simple};
use deck8_hub::audio::trim::{get_audio_duration, sample_offset, trim_range, trim_samples, TrimRange};

#[test]
fn sample_offset_scales_milliseconds() {
    assert_eq!(sample_offset(1000, 48000, 2), 96000);
    assert_eq!(sample_offset(500, 44100, 1), 22050);
    assert_eq!(sample_offset(1, 44100, 1), 44);
    assert_eq!(sample_offset(0, 44100, 2), 0);
    assert_eq!(
        sample_offset(u64::MAX, u32::MAX, u16::MAX),
        (u64::MAX as u128) * (u32::MAX as u128) * (u16::MAX as u128) / 1000
    );
}

#[test]
fn trim_range_selects_the_samples_between() {
    assert_eq!(trim_range(100, 200, 1000, 2, 1000), Ok(TrimRange { start: 200, end: 400 }));
    assert_eq!(trim_range(0, 10_000, 1000, 1, 500), Ok(TrimRange { start: 0, end: 500 }));
    assert_eq!(trim_range(499, u64::MAX, 1000, 1, 500), Ok(TrimRange { start: 499, end: 500 }));
}

#[test]
fn empty_trims_are_refused() {
    assert_eq!(trim_range(100, 100, 48000, 2, 1_000_000), Err(AudioError::EmptyTrim));
    assert_eq!(trim_range(0, 0, 48000, 2, 1_000_000), Err(AudioError::EmptyTrim));
    assert_eq!(trim_range(5000, 6000, 1000, 1, 5000), Err(AudioError::EmptyTrim));
    assert_eq!(trim_range(9000, 9500, 1000, 1, 5000), Err(AudioError::EmptyTrim));
    assert_eq!(trim_range(200, 100, 1000, 1, 5000), Err(AudioError::EmptyTrim));
    assert_eq!(trim_range(0, 100, 1000, 1, 0), Err(AudioError::EmptyTrim));
    assert_eq!(trim_range(0, 100, 0, 1, 100), Err(AudioError::EmptyTrim));
}

#[test]
fn trim_samples_cuts_the_range() {
    let clip: Vec<i16> = (0..100).collect();
    assert_eq!(trim_samples(&clip, 10, 20, 1000, 1), Ok((10..20).collect::<Vec<i16>>()));
    assert_eq!(trim_samples(&clip, 10, 20, 1000, 2), Ok((20..40).collect::<Vec<i16>>()));
    assert_eq!(trim_samples(&clip, 90, 500, 1000, 1), Ok((90..100).collect::<Vec<i16>>()));
    assert_eq!(trim_samples(&clip, 20, 20, 1000, 1), Err(AudioError::EmptyTrim));
    assert_eq!(trim_samples(&clip, 100, 200, 1000, 1), Err(AudioError::EmptyTrim));
}

#[test]
fn two_seconds_of_48khz_mono_last_2000_ms() {
    assert_eq!(get_audio_duration(96000, 48000, 1), Some(2000));
}

#[test]
fn duration_counts_frames_not_samples() {
    assert_eq!(get_audio_duration(96000, 48000, 2), Some(1000));
    assert_eq!(get_audio_duration(44100, 44100, 1), Some(1000));
    assert_eq!(get_audio_duration(22051, 44100, 1), Some(500));
    assert_eq!(get_audio_duration(7, 48000, 2), Some(0));
    assert_eq!(get_audio_duration(0, 48000, 2), Some(0));
}

#[test]
fn duration_is_zero_without_rate_or_channels() {
    assert_eq!(get_audio_duration(96000, 0, 1), Some(0));
    assert_eq!(get_audio_duration(96000, 48000, 0), Some(0));
    assert_eq!(get_audio_duration(96000, 0, 0), Some(0));
}

#[test]
fn duration_beyond_64_bits_is_not_reported() {
    assert_eq!(get_audio_duration(u64::MAX, 1, 1), None);
    assert_eq!(get_audio_duration(u64::MAX, 1000, 1), Some(u64::MAX));
}

#[test]
fn ids_are_hexadecimal_time_stamps() {
    assert_eq!(uuid_simple(0x1234, 5), "12340005");
    assert_eq!(uuid_simple(0, 0), "00000");
    assert_eq!(uuid_simple(1_700_000_000, 999), "6553f10003e7");
    assert_eq!(uuid_simple(u64::MAX, 0x10), "ffffffffffffffff0010");
    assert_eq!(uuid_simple(255, 0x100), "ff0100");
    assert_eq!(uuid_simple(16, 0x1000), "101000");
    assert_eq!(uuid_simple(10, u32::MAX), "affffffff");
}

#[test]
fn stored_files_keep_their_extension() {
    assert_eq!(library_filename("abc", Some("mp3")), "abc.mp3");
    assert_eq!(library_filename("abc", None), "abc.wav");
    assert_eq!(library_filename("", Some("")), ".");
}

#[test]
fn import_makes_an_entry() {
    let entry = import_to_library("6553f10003e7".to_string(), Some("ogg"), "Airhorn");
    assert_eq!(entry.id, "6553f10003e7");
    assert_eq!(entry.filename, "6553f10003e7.ogg");
    assert_eq!(entry.display_name, "Airhorn");
    let entry = import_to_library("1f".to_string(), None, "");
    assert_eq!(entry.filename, "1f.wav");
    assert_eq!(entry.display_name, "");
}

#[test]
fn trimmed_import_stores_the_cut_as_wav() {
    let clip: Vec<i16> = (0..1000).collect();
    let import =
        import_to_library_trimmed(&clip, "77".to_string(), "Cut", 100, 300, 1000, 2).unwrap();
    assert_eq!(import.entry.id, "77");
    assert_eq!(import.entry.filename, "77.wav");
    assert_eq!(import.entry.display_name, "Cut");
    assert_eq!(import.samples, (200..600).collect::<Vec<i16>>());
}

#[test]
fn trimmed_import_of_nothing_is_refused() {
    let clip: Vec<i16> = (0..1000).collect();
    assert_eq!(
        import_to_library_trimmed(&clip, "77".to_string(), "Cut", 250, 250, 1000, 2).err(),
        Some(AudioError::EmptyTrim)
    );
    assert_eq!(
        import_to_library_trimmed(&clip, "77".to_string(), "Cut", 500, 900, 1000, 2).err(),
        Some(AudioError::EmptyTrim)
    );
    assert_eq!(
        import_to_library_trimmed(&[], "77".to_string(), "Cut", 0, 900, 1000, 2).err(),
        Some(AudioError::EmptyTrim)
    );
}
