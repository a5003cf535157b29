//! What each user command does to the application's state, and what it
//! asks of the device. Sending to the device and saving to disk is the
//! caller's business.

use vstd::prelude::*;
use crate::hid::HidError;
use crate::keycodes::{
    internal_keycode_for_key,
    is_internal_keycode,
    led_to_keymap_index,
    spec_internal_keycode,
    spec_is_internal_keycode,
    spec_keymap_to_led,
};
use crate::protocol::{key_index_to_matrix, DeviceInfo, HsvColor, RgbMatrixState};
use crate::state::{ActiveSlot, AudioConfig, KeyConfig};
use crate::text::str_eq;

verus! {

/// Why a command was refused.
#[derive(Debug, Clone, Copy, PartialEq, Eq, Structural)]
pub enum CommandError {
    /// The key index is not below eight.
    KeyIndexOutOfRange,
    /// The slot is neither `A` nor `B`.
    BadSlot,
}

impl CommandError {
    pub open spec fn spec_message(self) -> Seq<char> {
        match self {
            CommandError::KeyIndexOutOfRange => "key_index out of range"@,
            CommandError::BadSlot => "slot must be A or B"@,
        }
    }

    /// The refusal in words, for the user.
    pub fn message(&self) -> (text: &'static str)
        ensures
            text@ == self.spec_message(),
    {
        match self {
            CommandError::KeyIndexOutOfRange => "key_index out of range",
            CommandError::BadSlot => "slot must be A or B",
        }
    }
}

/// A keycode to write to the device's keymap on layer zero.
#[derive(Debug, Clone, Copy, PartialEq, Eq, Structural)]
pub struct KeycodeWrite {
    pub row: u8,
    pub col: u8,
    pub keycode: u16,
}

/// The application's state. `connected` stands for the open device.
#[derive(Debug)]
pub struct AppState {
    pub connected: bool,
    pub keys: [KeyConfig; 8],
    pub active_slot: ActiveSlot,
    pub keymaps: [u16; 8],
    pub device_info: Option<DeviceInfo>,
    pub rgb_matrix: Option<RgbMatrixState>,
    pub audio_config: AudioConfig,
}

/// What the user interface is shown of the state.
#[derive(Debug)]
pub struct StateSnapshot {
    pub connected: bool,
    pub keys: Vec<KeyConfig>,
    pub active_slot: ActiveSlot,
    pub keymaps: Vec<u16>,
    pub device_info: Option<DeviceInfo>,
    pub rgb_matrix: Option<RgbMatrixState>,
    pub audio_config: AudioConfig,
}

/// The slot named by a letter.
pub open spec fn spec_parse_slot(slot: Seq<char>) -> Option<ActiveSlot> {
    if slot == "A"@ {
        Some(ActiveSlot::A)
    } else if slot == "B"@ {
        Some(ActiveSlot::B)
    } else {
        None
    }
}

/// A key after one of its slots got a new colour: that slot is then the
/// one shown.
pub open spec fn spec_recolored(key: KeyConfig, slot: ActiveSlot, color: HsvColor) -> KeyConfig {
    match slot {
        ActiveSlot::A => KeyConfig { slot_a: color, active_slot: ActiveSlot::A, ..key },
        ActiveSlot::B => KeyConfig { slot_b: color, active_slot: ActiveSlot::B, ..key },
    }
}

/// A key showing its other slot.
pub open spec fn spec_flipped(key: KeyConfig) -> KeyConfig {
    KeyConfig { active_slot: key.active_slot.spec_toggled(), ..key }
}

/// The write that a sound assignment to the key at LED `key_index` calls
/// for. A key that gets a sound and has no keycode is given its reserved
/// keycode, so that its presses can be detected; a key that loses its
/// sound and has a reserved keycode loses that too.
pub open spec fn spec_sound_keycode(has_sound: bool, current: u16, key_index: int) -> Option<u16> {
    if has_sound && current == 0 {
        Some(spec_internal_keycode(key_index) as u16)
    } else if !has_sound && spec_is_internal_keycode(current) {
        Some(0u16)
    } else {
        None
    }
}

/// Whether the key at LED `led` is due a reserved keycode: it has a sound
/// and no keycode.
pub open spec fn spec_needs_internal_keycode(
    key_sounds: Seq<Option<String>>,
    keymaps: Seq<u16>,
    led: int,
) -> bool {
    key_sounds[led] is Some && keymaps[spec_keymap_to_led(led)] == 0
}

/// The keymap after every key that is due a reserved keycode got one.
pub open spec fn spec_auto_keymaps(key_sounds: Seq<Option<String>>, keymaps: Seq<u16>) -> Seq<u16> {
    Seq::new(
        8,
        |keymap_idx: int|
            if spec_needs_internal_keycode(key_sounds, keymaps, spec_keymap_to_led(keymap_idx)) {
                spec_internal_keycode(spec_keymap_to_led(keymap_idx)) as u16
            } else {
                keymaps[keymap_idx]
            },
    )
}

/// The keycode writes that give the first `count` LEDs' keys their
/// reserved keycodes where due, in LED order.
pub open spec fn spec_auto_writes(
    key_sounds: Seq<Option<String>>,
    keymaps: Seq<u16>,
    count: nat,
) -> Seq<KeycodeWrite>
    decreases count,
{
    if count == 0 {
        Seq::empty()
    } else {
        let earlier = spec_auto_writes(key_sounds, keymaps, (count - 1) as nat);
        let led = count - 1;
        if spec_needs_internal_keycode(key_sounds, keymaps, led) {
            earlier.push(
                KeycodeWrite {
                    row: (spec_keymap_to_led(led) / 4) as u8,
                    col: (spec_keymap_to_led(led) % 4) as u8,
                    keycode: spec_internal_keycode(led) as u16,
                },
            )
        } else {
            earlier
        }
    }
}

pub fn parse_slot(slot: &str) -> (parsed: Option<ActiveSlot>)
    ensures
        parsed == spec_parse_slot(slot@),
{
    if str_eq(slot, "A") {
        Some(ActiveSlot::A)
    } else if str_eq(slot, "B") {
        Some(ActiveSlot::B)
    } else {
        None
    }
}

impl Default for AppState {
    fn default() -> (state: Self)
        ensures
            !state.connected,
            forall|k: int|
                0 <= k < 8 ==> #[trigger] state.keys@[k] == (KeyConfig {
                    slot_a: HsvColor { h: 0x55, s: 0xFF, v: 0x78 },
                    slot_b: HsvColor { h: 0x00, s: 0xFF, v: 0x78 },
                    override_enabled: false,
                    active_slot: ActiveSlot::A,
                }),
            state.active_slot == ActiveSlot::A,
            forall|k: int| 0 <= k < 8 ==> state.keymaps@[k] == 0,
            state.device_info is None,
            state.rgb_matrix is None,
    {
        let key = KeyConfig::default();
        let keys = [key, key, key, key, key, key, key, key];
        AppState {
            connected: false,
            keys,
            active_slot: ActiveSlot::A,
            keymaps: [0u16;8],
            device_info: None,
            rgb_matrix: None,
            audio_config: AudioConfig::default(),
        }
    }
}

impl AppState {
    /// A copy of the state for the user interface.
    pub fn snapshot(&self) -> (shot: StateSnapshot)
        ensures
            shot.connected == self.connected,
            shot.keys@ == self.keys@,
            shot.active_slot == self.active_slot,
            shot.keymaps@ == self.keymaps@,
            shot.device_info == self.device_info,
            shot.rgb_matrix == self.rgb_matrix,
            shot.audio_config.sound_files@ == self.audio_config.sound_files@,
            shot.audio_config.sound_library@ == self.audio_config.sound_library@,
            shot.audio_config.key_sounds@ == self.audio_config.key_sounds@,
            shot.audio_config.audio_input_device == self.audio_config.audio_input_device,
            shot.audio_config.audio_output_device == self.audio_config.audio_output_device,
            shot.audio_config.sound_volume == self.audio_config.sound_volume,
            shot.audio_config.mic_volume == self.audio_config.mic_volume,
            shot.audio_config.soundboard_enabled == self.audio_config.soundboard_enabled,
    {
        let mut keys: Vec<KeyConfig> = Vec::new();
        let mut keymaps: Vec<u16> = Vec::new();
        let mut i: usize = 0;
        while i < 8
            invariant
                0 <= i <= 8,
                keys@ == self.keys@.take(i as int),
                keymaps@ == self.keymaps@.take(i as int),
            decreases 8 - i,
        {
            keys.push(self.keys[i]);
            keymaps.push(self.keymaps[i]);
            assert(keys@ =~= self.keys@.take(i + 1));
            assert(keymaps@ =~= self.keymaps@.take(i + 1));
            i = i + 1;
        }
        assert(self.keys@.take(8) =~= self.keys@);
        assert(self.keymaps@.take(8) =~= self.keymaps@);
        StateSnapshot {
            connected: self.connected,
            keys,
            active_slot: self.active_slot,
            keymaps,
            device_info: self.device_info,
            rgb_matrix: self.rgb_matrix,
            audio_config: self.audio_config.clone(),
        }
    }

    /// Gives one slot of a key a new colour and shows that slot. Returns
    /// the colour where it is to be sent to the device: the key's override
    /// is on and a device is connected.
    pub fn set_key_color(&mut self, key_index: usize, slot: &str, h: u8, s: u8, v: u8) -> (r: Result<
        Option<HsvColor>,
        CommandError,
    >)
        ensures
            key_index >= 8 ==> r == Err::<Option<HsvColor>, CommandError>(
                CommandError::KeyIndexOutOfRange,
            ) && *final(self) == *old(self),
            key_index < 8 && spec_parse_slot(slot@) is None ==> r == Err::<
                Option<HsvColor>,
                CommandError,
            >(CommandError::BadSlot) && *final(self) == *old(self),
            key_index < 8 && spec_parse_slot(slot@) is Some ==> {
                &&& *final(self) == (AppState { keys: final(self).keys, ..*old(self) })
                &&& final(self).keys@ == old(self).keys@.update(
                    key_index as int,
                    spec_recolored(
                        old(self).keys@[key_index as int],
                        spec_parse_slot(slot@)->0,
                        HsvColor { h, s, v },
                    ),
                )
                &&& r == Ok::<Option<HsvColor>, CommandError>(
                    if old(self).keys@[key_index as int].override_enabled && old(self).connected {
                        Some(HsvColor { h, s, v })
                    } else {
                        None
                    },
                )
            },
    {
        if key_index >= 8 {
            return Err(CommandError::KeyIndexOutOfRange);
        }
        let color = HsvColor { h, s, v };
        let parsed = match parse_slot(slot) {
            Some(parsed) => parsed,
            None => { return Err(CommandError::BadSlot); },
        };
        let mut key = self.keys[key_index];
        match parsed {
            ActiveSlot::A => { key.slot_a = color; },
            ActiveSlot::B => { key.slot_b = color; },
        }
        key.active_slot = parsed;
        self.keys[key_index] = key;
        assert(self.keys@ =~= old(self).keys@.update(
            key_index as int,
            spec_recolored(old(self).keys@[key_index as int], parsed, color),
        ));
        if key.override_enabled && self.connected {
            Ok(Some(color))
        } else {
            Ok(None)
        }
    }

    /// Flips the global slot and the slot of every key. Returns the new
    /// global slot.
    pub fn toggle_slot(&mut self) -> (new_slot: ActiveSlot)
        ensures
            *final(self) == (AppState {
                keys: final(self).keys,
                active_slot: new_slot,
                ..*old(self)
            }),
            new_slot == old(self).active_slot.spec_toggled(),
            forall|k: int|
                0 <= k < 8 ==> #[trigger] final(self).keys@[k] == spec_flipped(old(self).keys@[k]),
    {
        self.active_slot = self.active_slot.toggled();
        let mut k: usize = 0;
        while k < 8
            invariant
                0 <= k <= 8,
                *self == (AppState {
                    keys: self.keys,
                    active_slot: old(self).active_slot.spec_toggled(),
                    ..*old(self)
                }),
                forall|j: int| 0 <= j < k ==> self.keys@[j] == spec_flipped(old(self).keys@[j]),
                forall|j: int| k <= j < 8 ==> self.keys@[j] == old(self).keys@[j],
            decreases 8 - k,
        {
            let mut key = self.keys[k];
            key.active_slot = key.active_slot.toggled();
            self.keys[k] = key;
            k = k + 1;
        }
        self.active_slot
    }

    /// Flips the slot of one key.
    pub fn toggle_key_slot(&mut self, key_index: usize) -> (r: Result<(), CommandError>)
        ensures
            key_index >= 8 ==> r == Err::<(), CommandError>(CommandError::KeyIndexOutOfRange)
                && *final(self) == *old(self),
            key_index < 8 ==> {
                &&& r is Ok
                &&& *final(self) == (AppState { keys: final(self).keys, ..*old(self) })
                &&& final(self).keys@ == old(self).keys@.update(
                    key_index as int,
                    spec_flipped(old(self).keys@[key_index as int]),
                )
            },
    {
        if key_index >= 8 {
            return Err(CommandError::KeyIndexOutOfRange);
        }
        let mut key = self.keys[key_index];
        key.active_slot = key.active_slot.toggled();
        self.keys[key_index] = key;
        assert(self.keys@ =~= old(self).keys@.update(
            key_index as int,
            spec_flipped(old(self).keys@[key_index as int]),
        ));
        Ok(())
    }

    /// Switches the colour override of one key on or off.
    pub fn set_key_override(&mut self, key_index: usize, enabled: bool) -> (r: Result<
        (),
        CommandError,
    >)
        ensures
            key_index >= 8 ==> r == Err::<(), CommandError>(CommandError::KeyIndexOutOfRange)
                && *final(self) == *old(self),
            key_index < 8 ==> {
                &&& r is Ok
                &&& *final(self) == (AppState { keys: final(self).keys, ..*old(self) })
                &&& final(self).keys@ == old(self).keys@.update(
                    key_index as int,
                    KeyConfig { override_enabled: enabled, ..old(self).keys@[key_index as int] },
                )
            },
    {
        if key_index >= 8 {
            return Err(CommandError::KeyIndexOutOfRange);
        }
        let mut key = self.keys[key_index];
        key.override_enabled = enabled;
        self.keys[key_index] = key;
        assert(self.keys@ =~= old(self).keys@.update(
            key_index as int,
            KeyConfig { override_enabled: enabled, ..old(self).keys@[key_index as int] },
        ));
        Ok(())
    }

    /// Gives every key its default colours again.
    pub fn restore_defaults(&mut self)
        ensures
            *final(self) == (AppState { keys: final(self).keys, ..*old(self) }),
            forall|k: int|
                0 <= k < 8 ==> #[trigger] final(self).keys@[k] == (KeyConfig {
                    slot_a: HsvColor { h: 0x55, s: 0xFF, v: 0x78 },
                    slot_b: HsvColor { h: 0x00, s: 0xFF, v: 0x78 },
                    override_enabled: false,
                    active_slot: ActiveSlot::A,
                }),
    {
        let key = KeyConfig::default();
        self.keys = [key, key, key, key, key, key, key, key];
    }

    /// Where on the device the keycode of a key is written.
    pub fn keycode_target(key_index: usize) -> (r: Result<(u8, u8), CommandError>)
        ensures
            key_index >= 8 ==> r == Err::<(u8, u8), CommandError>(
                CommandError::KeyIndexOutOfRange,
            ),
            key_index < 8 ==> r == Ok::<(u8, u8), CommandError>(
                ((key_index / 4) as u8, (key_index % 4) as u8),
            ),
    {
        if key_index >= 8 {
            Err(CommandError::KeyIndexOutOfRange)
        } else {
            Ok(key_index_to_matrix(key_index as u8))
        }
    }

    /// Records the keycode of a key, once the device has taken it.
    pub fn set_keycode(&mut self, key_index: usize, keycode: u16) -> (r: Result<(), CommandError>)
        ensures
            key_index >= 8 ==> r == Err::<(), CommandError>(CommandError::KeyIndexOutOfRange)
                && *final(self) == *old(self),
            key_index < 8 ==> {
                &&& r is Ok
                &&& *final(self) == (AppState { keymaps: final(self).keymaps, ..*old(self) })
                &&& final(self).keymaps@ == old(self).keymaps@.update(key_index as int, keycode)
            },
    {
        if key_index >= 8 {
            return Err(CommandError::KeyIndexOutOfRange);
        }
        self.keymaps[key_index] = keycode;
        assert(self.keymaps@ =~= old(self).keymaps@.update(key_index as int, keycode));
        Ok(())
    }

    /// Forgets the device and what was read from it.
    pub fn disconnect(&mut self)
        ensures
            *final(self) == (AppState {
                connected: false,
                device_info: None,
                rgb_matrix: None,
                ..*old(self)
            }),
    {
        self.connected = false;
        self.device_info = None;
        self.rgb_matrix = None;
    }

    /// Records the brightness the device has taken.
    pub fn set_rgb_brightness(&mut self, value: u8) -> (r: Result<(), HidError>)
        ensures
            !old(self).connected ==> {
                &&& r == Err::<(), HidError>(HidError::NotConnected)
                &&& *final(self) == *old(self)
            },
            old(self).connected ==> r is Ok && *final(self) == (AppState {
                rgb_matrix: match old(self).rgb_matrix {
                    Some(rgb) => Some(RgbMatrixState { brightness: value, ..rgb }),
                    None => None,
                },
                ..*old(self)
            }),
    {
        if !self.connected {
            return Err(HidError::NotConnected);
        }
        match self.rgb_matrix {
            Some(rgb) => {
                self.rgb_matrix = Some(RgbMatrixState { brightness: value, ..rgb });
            },
            None => {},
        }
        Ok(())
    }

    /// Records the effect the device has taken.
    pub fn set_rgb_effect(&mut self, value: u8) -> (r: Result<(), HidError>)
        ensures
            !old(self).connected ==> {
                &&& r == Err::<(), HidError>(HidError::NotConnected)
                &&& *final(self) == *old(self)
            },
            old(self).connected ==> r is Ok && *final(self) == (AppState {
                rgb_matrix: match old(self).rgb_matrix {
                    Some(rgb) => Some(RgbMatrixState { effect: value, ..rgb }),
                    None => None,
                },
                ..*old(self)
            }),
    {
        if !self.connected {
            return Err(HidError::NotConnected);
        }
        match self.rgb_matrix {
            Some(rgb) => {
                self.rgb_matrix = Some(RgbMatrixState { effect: value, ..rgb });
            },
            None => {},
        }
        Ok(())
    }

    /// Records the effect speed the device has taken.
    pub fn set_rgb_speed(&mut self, value: u8) -> (r: Result<(), HidError>)
        ensures
            !old(self).connected ==> {
                &&& r == Err::<(), HidError>(HidError::NotConnected)
                &&& *final(self) == *old(self)
            },
            old(self).connected ==> r is Ok && *final(self) == (AppState {
                rgb_matrix: match old(self).rgb_matrix {
                    Some(rgb) => Some(RgbMatrixState { speed: value, ..rgb }),
                    None => None,
                },
                ..*old(self)
            }),
    {
        if !self.connected {
            return Err(HidError::NotConnected);
        }
        match self.rgb_matrix {
            Some(rgb) => {
                self.rgb_matrix = Some(RgbMatrixState { speed: value, ..rgb });
            },
            None => {},
        }
        Ok(())
    }

    /// Records the colour the device has taken.
    pub fn set_rgb_color(&mut self, h: u8, s: u8) -> (r: Result<(), HidError>)
        ensures
            !old(self).connected ==> {
                &&& r == Err::<(), HidError>(HidError::NotConnected)
                &&& *final(self) == *old(self)
            },
            old(self).connected ==> r is Ok && *final(self) == (AppState {
                rgb_matrix: match old(self).rgb_matrix {
                    Some(rgb) => Some(RgbMatrixState { color_h: h, color_s: s, ..rgb }),
                    None => None,
                },
                ..*old(self)
            }),
    {
        if !self.connected {
            return Err(HidError::NotConnected);
        }
        match self.rgb_matrix {
            Some(rgb) => {
                self.rgb_matrix = Some(RgbMatrixState { color_h: h, color_s: s, ..rgb });
            },
            None => {},
        }
        Ok(())
    }

    /// Assigns a sound to the key at LED `key_index`, or takes it away.
    /// Returns the keycode write this calls for, which is also recorded in
    /// the keymap.
    pub fn set_key_sound(&mut self, key_index: usize, sound_id: Option<String>) -> (r: Result<
        Option<KeycodeWrite>,
        CommandError,
    >)
        ensures
            key_index >= 8 ==> r == Err::<Option<KeycodeWrite>, CommandError>(
                CommandError::KeyIndexOutOfRange,
            ) && *final(self) == *old(self),
            key_index < 8 ==> {
                let keymap_idx = spec_keymap_to_led(key_index as int);
                let change = spec_sound_keycode(
                    sound_id is Some,
                    old(self).keymaps@[keymap_idx],
                    key_index as int,
                );
                &&& *final(self) == (AppState {
                    keymaps: final(self).keymaps,
                    audio_config: final(self).audio_config,
                    ..*old(self)
                })
                &&& final(self).audio_config == (AudioConfig {
                    key_sounds: final(self).audio_config.key_sounds,
                    ..old(self).audio_config
                })
                &&& final(self).audio_config.key_sounds@ == old(
                    self,
                ).audio_config.key_sounds@.update(key_index as int, sound_id)
                &&& final(self).keymaps@ == (match change {
                    Some(keycode) => old(self).keymaps@.update(keymap_idx, keycode),
                    None => old(self).keymaps@,
                })
                &&& r == Ok::<Option<KeycodeWrite>, CommandError>(
                    match change {
                        Some(keycode) => Some(
                            KeycodeWrite {
                                row: (keymap_idx / 4) as u8,
                                col: (keymap_idx % 4) as u8,
                                keycode,
                            },
                        ),
                        None => None,
                    },
                )
            },
    {
        if key_index >= 8 {
            return Err(CommandError::KeyIndexOutOfRange);
        }
        let has_sound = sound_id.is_some();
        self.audio_config.key_sounds[key_index] = sound_id;
        assert(self.audio_config.key_sounds@ =~= old(self).audio_config.key_sounds@.update(
            key_index as int,
            sound_id,
        ));
        let keymap_idx = led_to_keymap_index(key_index);
        let current = self.keymaps[keymap_idx];
        let (row, col) = key_index_to_matrix(keymap_idx as u8);
        if has_sound && current == 0 {
            let keycode = internal_keycode_for_key(key_index);
            self.keymaps[keymap_idx] = keycode;
            assert(self.keymaps@ =~= old(self).keymaps@.update(keymap_idx as int, keycode));
            Ok(Some(KeycodeWrite { row, col, keycode }))
        } else if !has_sound && is_internal_keycode(current) {
            self.keymaps[keymap_idx] = 0;
            assert(self.keymaps@ =~= old(self).keymaps@.update(keymap_idx as int, 0u16));
            Ok(Some(KeycodeWrite { row, col, keycode: 0 }))
        } else {
            Ok(None)
        }
    }

    /// Handles a press of the key at LED `key_index`: flips the key's slot
    /// and names the stored file of the sound to play, if the key has one.
    pub fn do_toggle_key(&mut self, key_index: usize) -> (r: Result<Option<String>, CommandError>)
        ensures
            key_index >= 8 ==> r == Err::<Option<String>, CommandError>(
                CommandError::KeyIndexOutOfRange,
            ) && *final(self) == *old(self),
            key_index < 8 ==> {
                &&& *final(self) == (AppState { keys: final(self).keys, ..*old(self) })
                &&& final(self).keys@ == old(self).keys@.update(
                    key_index as int,
                    spec_flipped(old(self).keys@[key_index as int]),
                )
                &&& r matches Ok(filename) && old(self).audio_config.spec_is_key_sound_filename(
                    key_index,
                    filename,
                )
            },
    {
        match self.toggle_key_slot(key_index) {
            Err(e) => Err(e),
            Ok(()) => Ok(self.audio_config.key_sound_filename(key_index)),
        }
    }

    /// Gives every key that has a sound but no keycode its reserved
    /// keycode. Returns the writes this calls for, in LED order.
    pub fn assign_internal_keycodes(&mut self) -> (writes: Vec<KeycodeWrite>)
        ensures
            *final(self) == (AppState { keymaps: final(self).keymaps, ..*old(self) }),
            final(self).keymaps@ == spec_auto_keymaps(
                old(self).audio_config.key_sounds@,
                old(self).keymaps@,
            ),
            writes@ == spec_auto_writes(
                old(self).audio_config.key_sounds@,
                old(self).keymaps@,
                8,
            ),
    {
        let mut writes: Vec<KeycodeWrite> = Vec::new();
        let mut led: usize = 0;
        while led < 8
            invariant
                0 <= led <= 8,
                *self == (AppState { keymaps: self.keymaps, ..*old(self) }),
                self.keymaps@.len() == 8,
                forall|k: int|
                    0 <= k < 8 ==> self.keymaps@[k] == if spec_keymap_to_led(k) < led {
                        spec_auto_keymaps(
                            old(self).audio_config.key_sounds@,
                            old(self).keymaps@,
                        )[k]
                    } else {
                        old(self).keymaps@[k]
                    },
                writes@ == spec_auto_writes(
                    old(self).audio_config.key_sounds@,
                    old(self).keymaps@,
                    led as nat,
                ),
            decreases 8 - led,
        {
            let keymap_idx = led_to_keymap_index(led);
            if self.audio_config.key_sounds[led].is_some() && self.keymaps[keymap_idx] == 0 {
                let keycode = internal_keycode_for_key(led);
                let (row, col) = key_index_to_matrix(keymap_idx as u8);
                self.keymaps[keymap_idx] = keycode;
                writes.push(KeycodeWrite { row, col, keycode });
            }
            led = led + 1;
        }
        assert(self.keymaps@ =~= spec_auto_keymaps(
            old(self).audio_config.key_sounds@,
            old(self).keymaps@,
        ));
        writes
    }

    /// Takes in what was read from a freshly opened device. A reading that
    /// failed leaves what was known before. Keys with a sound and no
    /// keycode then get their reserved keycodes; the writes this calls for
    /// are returned.
    pub fn connect_device(
        &mut self,
        keymaps: Option<[u16; 8]>,
        device_info: Option<DeviceInfo>,
        rgb_matrix: Option<RgbMatrixState>,
    ) -> (writes: Vec<KeycodeWrite>)
        ensures
            ({
                let read_keymaps = match keymaps {
                    Some(read) => read@,
                    None => old(self).keymaps@,
                };
                &&& *final(self) == (AppState {
                    connected: true,
                    keymaps: final(self).keymaps,
                    device_info: match device_info {
                        Some(info) => Some(info),
                        None => old(self).device_info,
                    },
                    rgb_matrix: match rgb_matrix {
                        Some(rgb) => Some(rgb),
                        None => old(self).rgb_matrix,
                    },
                    ..*old(self)
                })
                &&& final(self).keymaps@ == spec_auto_keymaps(
                    old(self).audio_config.key_sounds@,
                    read_keymaps,
                )
                &&& writes@ == spec_auto_writes(
                    old(self).audio_config.key_sounds@,
                    read_keymaps,
                    8,
                )
            }),
    {
        match keymaps {
            Some(read) => {
                self.keymaps = read;
            },
            None => {},
        }
        match device_info {
            Some(info) => {
                self.device_info = Some(info);
            },
            None => {},
        }
        match rgb_matrix {
            Some(rgb) => {
                self.rgb_matrix = Some(rgb);
            },
            None => {},
        }
        self.connected = true;
        self.assign_internal_keycodes()
    }
}

} // verus!
