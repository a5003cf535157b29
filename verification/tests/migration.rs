use deck8_hub::audio::pipeline::{queue_capacity, AudioPipeline};
use deck8_hub::commands::AppState;
use deck8_hub::keycodes::{internal_keycode_for_key, is_internal_keycode, keymap_to_led_index};
use deck8_hub::protocol::{DeviceInfo, RgbMatrixState};
use deck8_hub::state::{legacy_entry, AudioConfig, SoundEntry};

fn fields(e: &SoundEntry) -> (&str, &str, &str) {
    (e.id.as_str(), e.filename.as_str(), e.display_name.as_str())
}

#[test]
fn legacy_files_become_entries() {
    assert_eq!(
        fields(&legacy_entry("key1_air_horn.wav".to_string(), 0)),
        ("key1_air_horn", "key1_air_horn.wav", "air_horn")
    );
    assert_eq!(fields(&legacy_entry("boom.mp3".to_string(), 2)), ("boom", "boom.mp3", "Key 3 sound"));
    assert_eq!(fields(&legacy_entry("noext".to_string(), 7)), ("noext", "noext", "Key 8 sound"));
    assert_eq!(fields(&legacy_entry("a_b.c.d".to_string(), 0)), ("a_b", "a_b.c.d", "b"));
    assert_eq!(fields(&legacy_entry("a.b_c.d".to_string(), 0)), ("a", "a.b_c.d", "c"));
    assert_eq!(fields(&legacy_entry("x_.wav".to_string(), 4)), ("x_", "x_.wav", "Key 5 sound"));
    assert_eq!(fields(&legacy_entry("".to_string(), 9)), ("", "", "Key 10 sound"));
}

#[test]
fn legacy_sounds_are_migrated_once() {
    let mut config = AudioConfig::default();
    config.sound_files[1] = Some("key2_bell.wav".to_string());
    config.sound_files[6] = Some("horn.ogg".to_string());
    config.key_sounds[0] = Some("kept".to_string());
    config.key_sounds[1] = Some("replaced".to_string());
    assert!(config.migrate_legacy_sounds());
    let got: Vec<_> = config.sound_library.iter().map(fields).collect();
    assert_eq!(
        got,
        vec![("key2_bell", "key2_bell.wav", "bell"), ("horn", "horn.ogg", "Key 7 sound")]
    );
    assert_eq!(config.key_sounds[0], Some("kept".to_string()));
    assert_eq!(config.key_sounds[1], Some("key2_bell".to_string()));
    assert_eq!(config.key_sounds[6], Some("horn".to_string()));
    assert_eq!(config.key_sounds[2], None);
    assert_eq!(config.sound_files[1], Some("key2_bell.wav".to_string()));
    assert!(!config.migrate_legacy_sounds());
    assert_eq!(config.sound_library.len(), 2);
}

#[test]
fn nothing_to_migrate() {
    let mut config = AudioConfig::default();
    assert!(!config.migrate_legacy_sounds());
    assert!(config.sound_library.is_empty());
    assert!(config.key_sounds.iter().all(|k| k.is_none()));
}

#[test]
fn config_clone_is_deep() {
    let mut config = AudioConfig::default();
    config.sound_files[3] = Some("f.wav".to_string());
    config.key_sounds[4] = Some("id".to_string());
    config.audio_input_device = Some("Mic".to_string());
    config.audio_output_device = Some("CABLE".to_string());
    config.sound_volume = 0.5f32.to_bits();
    config.mic_volume = 0.25f32.to_bits();
    config.soundboard_enabled = true;
    config.add_to_sound_library(legacy_entry("a_b.wav".to_string(), 0));
    let copy = config.clone();
    assert_eq!(copy.sound_files, config.sound_files);
    assert_eq!(copy.key_sounds, config.key_sounds);
    assert_eq!(copy.audio_input_device, config.audio_input_device);
    assert_eq!(copy.audio_output_device, config.audio_output_device);
    assert_eq!(copy.sound_volume, config.sound_volume);
    assert_eq!(copy.mic_volume, config.mic_volume);
    assert!(copy.soundboard_enabled);
    assert_eq!(copy.sound_library.len(), 1);
    assert_eq!(fields(&copy.sound_library[0]), ("a_b", "a_b.wav", "b"));
}

#[test]
fn snapshot_copies_the_state() {
    let mut state = AppState::default();
    state.connected = true;
    state.keys[2].override_enabled = true;
    state.keymaps = [1, 2, 3, 4, 5, 6, 7, 8];
    state.device_info = Some(DeviceInfo {
        protocol_version: 1,
        firmware_version: 2,
        uptime: 3,
        layer_count: 4,
        macro_count: 5,
        macro_buffer_size: 6,
    });
    state.rgb_matrix =
        Some(RgbMatrixState { brightness: 1, effect: 2, speed: 3, color_h: 4, color_s: 5 });
    state.audio_config.key_sounds[0] = Some("x".to_string());
    state.toggle_slot();
    let shot = state.snapshot();
    assert!(shot.connected);
    assert_eq!(shot.keys, state.keys.to_vec());
    assert_eq!(shot.active_slot, state.active_slot);
    assert_eq!(shot.keymaps, vec![1, 2, 3, 4, 5, 6, 7, 8]);
    assert_eq!(shot.device_info, state.device_info);
    assert_eq!(shot.rgb_matrix, state.rgb_matrix);
    assert_eq!(shot.audio_config.key_sounds, state.audio_config.key_sounds);
}

#[test]
fn queue_capacities() {
    assert_eq!(queue_capacity(2, 48000, 1), Some(96000));
    assert_eq!(queue_capacity(2, 48000, 30), Some(2_880_000));
    assert_eq!(queue_capacity(0, 48000, 30), Some(0));
    assert_eq!(queue_capacity(u16::MAX, u32::MAX, u64::MAX), None);
}

#[test]
fn mixer_stream_is_endless_in_the_pipeline_format() {
    let p = AudioPipeline::start(2, 44100, 0.5f32.to_bits(), 0.75f32.to_bits()).unwrap();
    assert_eq!(p.channels(), 2);
    assert_eq!(p.sample_rate(), 44100);
    assert_eq!(f32::from_bits(p.mic_volume()), 0.5);
    assert_eq!(f32::from_bits(p.sound_volume()), 0.75);
    assert_eq!(p.current_frame_len(), None);
    assert_eq!(p.total_duration(), None);
}

#[test]
fn wiring_beyond_the_keys() {
    assert_eq!(keymap_to_led_index(11), 0);
    assert_eq!(keymap_to_led_index(8), 3);
    assert_eq!(internal_keycode_for_key(8), 0x0726);
    assert!(!is_internal_keycode(internal_keycode_for_key(8)));
}
