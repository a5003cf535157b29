use deck8_hub::keycodes::{
    internal_keycode_for_key, is_internal_keycode, keymap_to_led_index, led_to_keymap_index,
    qmk_keycode_to_display, qmk_keycode_to_shortcut,
};
use deck8_hub::replay::{replay_key, simulate_qmk_keystroke, Direction, KeyAction, SimKey};
use deck8_hub::shortcuts::{
    blocks_keystroke, find_shortcut, handle_key_event, is_modifier_vk, qmk_basic_to_vk,
    register_key_shortcuts, register_shortcuts, should_toggle, shortcut_binding, shortcut_entry,
    DedupClock, ModifierState, ShortcutBinding, ShortcutEntry, ShortcutMap,
};

#[test]
fn bottom_row_leds_run_backwards() {
    let leds: Vec<usize> = (0..8).map(keymap_to_led_index).collect();
    assert_eq!(leds, vec![0, 1, 2, 3, 7, 6, 5, 4]);
    let keys: Vec<usize> = (0..8).map(led_to_keymap_index).collect();
    assert_eq!(keys, vec![0, 1, 2, 3, 7, 6, 5, 4]);
    for i in 0..8 {
        assert_eq!(led_to_keymap_index(keymap_to_led_index(i)), i);
    }
}

#[test]
fn internal_keycodes_are_ctrl_alt_shift_digits() {
    assert_eq!(internal_keycode_for_key(0), 0x071E);
    assert_eq!(internal_keycode_for_key(7), 0x0725);
    assert!(is_internal_keycode(0x071E));
    assert!(is_internal_keycode(0x0725));
    assert!(!is_internal_keycode(0x071D));
    assert!(!is_internal_keycode(0x0726));
    assert!(!is_internal_keycode(0));
    for i in 0..8 {
        assert!(is_internal_keycode(internal_keycode_for_key(i)));
    }
}

#[test]
fn shortcut_strings() {
    assert_eq!(qmk_keycode_to_shortcut(0x0510).as_deref(), Some("Ctrl+Alt+M"));
    assert_eq!(qmk_keycode_to_shortcut(0x0104).as_deref(), Some("Ctrl+A"));
    assert_eq!(qmk_keycode_to_shortcut(0x101D).as_deref(), Some("Ctrl+Z"));
    assert_eq!(qmk_keycode_to_shortcut(0x0F1E).as_deref(), Some("Ctrl+Shift+Alt+Super+1"));
    assert_eq!(qmk_keycode_to_shortcut(0x0226).as_deref(), Some("Shift+9"));
    assert_eq!(qmk_keycode_to_shortcut(0x0227).as_deref(), Some("Shift+0"));
    assert_eq!(qmk_keycode_to_shortcut(0x0428).as_deref(), Some("Alt+Enter"));
    assert_eq!(qmk_keycode_to_shortcut(0x0829).as_deref(), Some("Super+Escape"));
    assert_eq!(qmk_keycode_to_shortcut(0x802C).as_deref(), Some("Super+Space"));
    assert_eq!(qmk_keycode_to_shortcut(0x013A).as_deref(), Some("Ctrl+F1"));
    assert_eq!(qmk_keycode_to_shortcut(0x0143).as_deref(), Some("Ctrl+F10"));
    assert_eq!(qmk_keycode_to_shortcut(0x0145).as_deref(), Some("Ctrl+F12"));
    assert_eq!(qmk_keycode_to_shortcut(0x071E).as_deref(), Some("Ctrl+Shift+Alt+1"));
}

#[test]
fn keycodes_without_shortcut() {
    assert_eq!(qmk_keycode_to_shortcut(0x0004), None);
    assert_eq!(qmk_keycode_to_shortcut(0x0100), None);
    assert_eq!(qmk_keycode_to_shortcut(0x0000), None);
    assert_eq!(qmk_keycode_to_shortcut(0x0103), None);
    assert_eq!(qmk_keycode_to_shortcut(0x012A), None);
    assert_eq!(qmk_keycode_to_shortcut(0x0146), None);
    assert_eq!(qmk_keycode_to_shortcut(0x0168), None);
    assert_eq!(qmk_keycode_to_display(0x0004), None);
    assert_eq!(qmk_keycode_to_display(0x0100), None);
    assert_eq!(qmk_keycode_to_display(0x0146), None);
}

#[test]
fn display_strings() {
    assert_eq!(qmk_keycode_to_display(0x0510).as_deref(), Some("control+alt+KeyM"));
    assert_eq!(qmk_keycode_to_display(0x0F04).as_deref(), Some("shift+control+alt+super+KeyA"));
    assert_eq!(qmk_keycode_to_display(0x0220).as_deref(), Some("shift+Digit3"));
    assert_eq!(qmk_keycode_to_display(0x0227).as_deref(), Some("shift+Digit0"));
    assert_eq!(qmk_keycode_to_display(0x4028).as_deref(), Some("alt+Enter"));
    assert_eq!(qmk_keycode_to_display(0x0129).as_deref(), Some("control+Escape"));
    assert_eq!(qmk_keycode_to_display(0x012C).as_deref(), Some("control+Space"));
    assert_eq!(qmk_keycode_to_display(0x0845).as_deref(), Some("super+F12"));
    assert_eq!(qmk_keycode_to_display(0x071E).as_deref(), Some("shift+control+alt+Digit1"));
}

#[test]
fn modifier_keys() {
    for vk in [0x10, 0x11, 0x12, 0x5B, 0x5C, 0xA0, 0xA1, 0xA2, 0xA3, 0xA4, 0xA5] {
        assert!(is_modifier_vk(vk));
    }
    for vk in [0, 0x0F, 0x13, 0x41, 0x5A, 0x5D, 0x9F, 0xA6, u32::MAX] {
        assert!(!is_modifier_vk(vk));
    }
}

#[test]
fn virtual_keys() {
    assert_eq!(qmk_basic_to_vk(0x04), Some(0x41));
    assert_eq!(qmk_basic_to_vk(0x1D), Some(0x5A));
    assert_eq!(qmk_basic_to_vk(0x1E), Some(0x31));
    assert_eq!(qmk_basic_to_vk(0x26), Some(0x39));
    assert_eq!(qmk_basic_to_vk(0x27), Some(0x30));
    assert_eq!(qmk_basic_to_vk(0x28), Some(0x0D));
    assert_eq!(qmk_basic_to_vk(0x29), Some(0x1B));
    assert_eq!(qmk_basic_to_vk(0x2C), Some(0x20));
    assert_eq!(qmk_basic_to_vk(0x3A), Some(0x70));
    assert_eq!(qmk_basic_to_vk(0x45), Some(0x7B));
    assert_eq!(qmk_basic_to_vk(0x68), Some(0x7C));
    assert_eq!(qmk_basic_to_vk(0x6F), Some(0x83));
    assert_eq!(qmk_basic_to_vk(0x00), None);
    assert_eq!(qmk_basic_to_vk(0x03), None);
    assert_eq!(qmk_basic_to_vk(0x2A), None);
    assert_eq!(qmk_basic_to_vk(0x46), None);
    assert_eq!(qmk_basic_to_vk(0x70), None);
}

#[test]
fn presses_are_deduplicated() {
    assert!(should_toggle(0, 1000, 0));
    assert!(should_toggle(7, 151, 0));
    assert!(!should_toggle(7, 150, 0));
    assert!(!should_toggle(3, 1000, 900));
    assert!(!should_toggle(3, 1000, 1000));
    assert!(!should_toggle(8, 1000, 0));
    assert!(should_toggle(0, 5, u64::MAX - 200));
    assert!(!should_toggle(0, 5, u64::MAX - 100));
    assert!(should_toggle(0, 0, 1));
}

#[test]
fn dedup_clock_remembers_every_detection() {
    let mut clock = DedupClock::new();
    assert!(clock.should_toggle(2, 1000));
    assert!(!clock.should_toggle(2, 1100));
    assert!(!clock.should_toggle(2, 1200));
    assert!(clock.should_toggle(2, 1400));
    assert!(clock.should_toggle(3, 1400));
    assert!(!clock.should_toggle(9, 99999));
    assert!(!DedupClock::new().should_toggle(0, 150));
}

#[test]
fn entries_for_chords_only() {
    assert_eq!(
        shortcut_entry(5, 0x0510),
        Some(ShortcutEntry {
            vk_code: 0x4D,
            need_ctrl: true,
            need_shift: false,
            need_alt: true,
            need_gui: false,
            led_idx: 6,
            is_internal: false,
        })
    );
    assert_eq!(
        shortcut_entry(0, 0x071F),
        Some(ShortcutEntry {
            vk_code: 0x32,
            need_ctrl: true,
            need_shift: true,
            need_alt: true,
            need_gui: false,
            led_idx: 0,
            is_internal: true,
        })
    );
    assert_eq!(shortcut_entry(0, 0x8868).map(|e| (e.vk_code, e.need_gui)), Some((0x7C, true)));
    assert_eq!(shortcut_entry(0, 0x0004), None);
    assert_eq!(shortcut_entry(0, 0x0100), None);
    assert_eq!(shortcut_entry(0, 0x012A), None);
}

#[test]
fn shortcuts_are_registered_in_key_order() {
    let entries = register_shortcuts(&[0x0104, 0, 0x0004, 0x0205, 0x0406, 0x01FF, 0x0807, 0x0100]);
    let got: Vec<(u32, usize)> = entries.iter().map(|e| (e.vk_code, e.led_idx)).collect();
    assert_eq!(got, vec![(0x41, 0), (0x42, 3), (0x43, 7), (0x44, 5)]);
    assert!(register_shortcuts(&[0; 8]).is_empty());
}

#[test]
fn modifiers_are_tracked() {
    let mut mods = ModifierState::new();
    mods.track(0xA2, true);
    assert_eq!(mods, ModifierState { ctrl: true, shift: false, alt: false, gui: false });
    mods.track(0x10, true);
    mods.track(0x12, true);
    mods.track(0x5C, true);
    assert_eq!(mods, ModifierState { ctrl: true, shift: true, alt: true, gui: true });
    mods.track(0x41, true);
    mods.track(0x41, false);
    assert_eq!(mods, ModifierState { ctrl: true, shift: true, alt: true, gui: true });
    mods.track(0x11, false);
    mods.track(0xA1, false);
    mods.track(0xA5, false);
    mods.track(0x5B, false);
    assert_eq!(mods, ModifierState::new());
}

#[test]
fn key_events_complete_shortcuts() {
    let entries = register_shortcuts(&[0x0104, 0x0304, 0x071E, 0, 0, 0, 0, 0]);
    let mut mods = ModifierState::new();
    assert_eq!(handle_key_event(&mut mods, &entries, 0x41, true), None);
    assert_eq!(handle_key_event(&mut mods, &entries, 0x11, true), None);
    let hit = handle_key_event(&mut mods, &entries, 0x41, true);
    assert_eq!(hit.map(|e| e.led_idx), Some(0));
    assert!(!blocks_keystroke(&hit));
    assert_eq!(handle_key_event(&mut mods, &entries, 0x41, false), None);
    assert_eq!(handle_key_event(&mut mods, &entries, 0x42, true), None);
    assert_eq!(handle_key_event(&mut mods, &entries, 0x10, true), None);
    let hit = handle_key_event(&mut mods, &entries, 0x41, true);
    assert_eq!(hit.map(|e| e.led_idx), Some(1));
    assert_eq!(handle_key_event(&mut mods, &entries, 0x12, true), None);
    assert_eq!(handle_key_event(&mut mods, &entries, 0x41, true), None);
    let hit = handle_key_event(&mut mods, &entries, 0x31, true);
    assert_eq!(hit.map(|e| e.led_idx), Some(2));
    assert!(blocks_keystroke(&hit));
    assert!(!blocks_keystroke(&None));
}

#[test]
fn first_matching_shortcut_wins() {
    let entries = register_shortcuts(&[0x0104, 0x1004, 0, 0, 0, 0, 0, 0]);
    let mods = ModifierState { ctrl: true, shift: false, alt: false, gui: false };
    assert_eq!(find_shortcut(&entries, 0x41, &mods), Some(0));
    assert_eq!(find_shortcut(&entries, 0x42, &mods), None);
    assert_eq!(find_shortcut(&entries, 0x41, &ModifierState::new()), None);
    assert_eq!(find_shortcut(&vec![], 0x41, &mods), None);
}

#[test]
fn bindings_name_both_strings() {
    let b: ShortcutBinding = shortcut_binding(4, 0x0510).unwrap();
    assert_eq!(b.register, "Ctrl+Alt+M");
    assert_eq!(b.display, "control+alt+KeyM");
    assert_eq!(b.led_idx, 7);
    assert_eq!(b.keycode, 0x0510);
    assert!(shortcut_binding(4, 0x0010).is_none());
    assert!(shortcut_binding(4, 0x0168).is_none());
    let all = register_key_shortcuts(&[0x0104, 0, 0, 0, 0, 0, 0, 0x0205]);
    assert_eq!(all.len(), 8);
    assert_eq!(all[0].as_ref().map(|b| b.register.as_str()), Some("Ctrl+A"));
    assert_eq!(all[7].as_ref().map(|b| (b.register.as_str(), b.led_idx)), Some(("Shift+B", 4)));
    assert!(all[1..7].iter().all(|b| b.is_none()));
}

#[test]
fn shortcut_map_keeps_the_latest_binding() {
    let mut map = ShortcutMap::new();
    assert!(map.get(&"control+KeyA".to_string()).is_none());
    map.insert(shortcut_binding(0, 0x0104).unwrap());
    map.insert(shortcut_binding(1, 0x0205).unwrap());
    map.insert(shortcut_binding(5, 0x0104).unwrap());
    assert_eq!(map.get(&"control+KeyA".to_string()).map(|b| b.led_idx), Some(6));
    assert_eq!(map.get(&"shift+KeyB".to_string()).map(|b| b.led_idx), Some(1));
    assert!(map.get(&"Ctrl+A".to_string()).is_none());
    map.clear();
    assert!(map.get(&"control+KeyA".to_string()).is_none());
}

#[test]
fn replay_keys() {
    assert_eq!(replay_key(0x04), Some(SimKey::Unicode('a')));
    assert_eq!(replay_key(0x1D), Some(SimKey::Unicode('z')));
    assert_eq!(replay_key(0x1E), Some(SimKey::Unicode('1')));
    assert_eq!(replay_key(0x26), Some(SimKey::Unicode('9')));
    assert_eq!(replay_key(0x27), Some(SimKey::Unicode('0')));
    assert_eq!(replay_key(0x28), Some(SimKey::Return));
    assert_eq!(replay_key(0x29), Some(SimKey::Escape));
    assert_eq!(replay_key(0x2C), Some(SimKey::Space));
    assert_eq!(replay_key(0x3A), Some(SimKey::Function(1)));
    assert_eq!(replay_key(0x45), Some(SimKey::Function(12)));
    assert_eq!(replay_key(0x46), None);
    assert_eq!(replay_key(0x68), None);
    assert_eq!(replay_key(0), None);
}

#[test]
fn keystrokes_release_modifiers_in_reverse() {
    let press = |key| KeyAction { key, direction: Direction::Press };
    let release = |key| KeyAction { key, direction: Direction::Release };
    assert_eq!(
        simulate_qmk_keystroke(0x0F10),
        vec![
            press(SimKey::Control),
            press(SimKey::Shift),
            press(SimKey::Alt),
            press(SimKey::Meta),
            KeyAction { key: SimKey::Unicode('m'), direction: Direction::Click },
            release(SimKey::Meta),
            release(SimKey::Alt),
            release(SimKey::Shift),
            release(SimKey::Control),
        ]
    );
    assert_eq!(
        simulate_qmk_keystroke(0x0004),
        vec![KeyAction { key: SimKey::Unicode('a'), direction: Direction::Click }]
    );
    assert_eq!(simulate_qmk_keystroke(0x0200), vec![press(SimKey::Shift), release(SimKey::Shift)]);
    assert_eq!(simulate_qmk_keystroke(0x4046), vec![press(SimKey::Alt), release(SimKey::Alt)]);
    assert_eq!(simulate_qmk_keystroke(0), vec![]);
}
