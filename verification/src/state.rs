//! What the application remembers: per-key colours, the sound library and
//! the audio settings.

use vstd::prelude::*;
use crate::protocol::HsvColor;
use crate::text::{
    after_first,
    before_first,
    contains_text,
    lowercase_of,
    push_decimal,
    spec_after_first,
    spec_before_first,
    spec_contains,
    spec_decimal,
    spec_lowercase,
};

verus! {

/// The bit pattern of the volume 1.0, the default.
pub const UNITY_VOLUME: u32 = 0x3F80_0000;

/// Which of a key's two colours is shown.
#[derive(Debug, Clone, Copy, PartialEq, Eq, Structural)]
pub enum ActiveSlot {
    A,
    B,
}

impl Default for ActiveSlot {
    fn default() -> (slot: Self)
        ensures
            slot == ActiveSlot::A,
    {
        ActiveSlot::A
    }
}

impl ActiveSlot {
    pub open spec fn spec_toggled(self) -> ActiveSlot {
        match self {
            ActiveSlot::A => ActiveSlot::B,
            ActiveSlot::B => ActiveSlot::A,
        }
    }

    /// The other slot.
    pub fn toggled(self) -> (other: ActiveSlot)
        ensures
            other == self.spec_toggled(),
    {
        match self {
            ActiveSlot::A => ActiveSlot::B,
            ActiveSlot::B => ActiveSlot::A,
        }
    }

    /// The slot's letter.
    pub fn to_string(&self) -> (label: String)
        ensures
            label@ == (match self {
                ActiveSlot::A => "A"@,
                ActiveSlot::B => "B"@,
            }),
    {
        match self {
            ActiveSlot::A => "A".to_owned(),
            ActiveSlot::B => "B".to_owned(),
        }
    }
}

#[derive(Debug, Clone, Copy, PartialEq, Eq, Structural)]
pub struct KeyConfig {
    pub slot_a: HsvColor,
    pub slot_b: HsvColor,
    pub override_enabled: bool,
    pub active_slot: ActiveSlot,
}

impl Default for KeyConfig {
    /// Green in slot A, red in slot B, override off.
    fn default() -> (key: Self)
        ensures
            key == (KeyConfig {
                slot_a: HsvColor { h: 0x55, s: 0xFF, v: 0x78 },
                slot_b: HsvColor { h: 0x00, s: 0xFF, v: 0x78 },
                override_enabled: false,
                active_slot: ActiveSlot::A,
            }),
    {
        KeyConfig {
            slot_a: HsvColor { h: 0x55, s: 0xFF, v: 0x78 },
            slot_b: HsvColor { h: 0x00, s: 0xFF, v: 0x78 },
            override_enabled: false,
            active_slot: ActiveSlot::A,
        }
    }
}

impl KeyConfig {
    pub open spec fn spec_active_color(self) -> HsvColor {
        match self.active_slot {
            ActiveSlot::A => self.slot_a,
            ActiveSlot::B => self.slot_b,
        }
    }

    /// The colour of the slot that is shown.
    pub fn active_color(&self) -> (color: HsvColor)
        ensures
            color == self.spec_active_color(),
    {
        match self.active_slot {
            ActiveSlot::A => self.slot_a,
            ActiveSlot::B => self.slot_b,
        }
    }
}

/// One sound of the library. Keys refer to a sound by `id`, which never
/// changes; the file name and the label may.
#[derive(Debug)]
pub struct SoundEntry {
    pub id: String,
    pub filename: String,
    pub display_name: String,
}

impl Clone for SoundEntry {
    fn clone(&self) -> (copy: Self)
        ensures
            copy == *self,
    {
        SoundEntry {
            id: self.id.clone(),
            filename: self.filename.clone(),
            display_name: self.display_name.clone(),
        }
    }
}

/// Whether `index` is the first position in the library whose entry has
/// the id `id`.
pub open spec fn spec_is_first_sound(library: Seq<SoundEntry>, id: Seq<char>, index: int) -> bool {
    &&& 0 <= index < library.len()
    &&& library[index].id@ == id
    &&& forall|j: int| 0 <= j < index ==> (#[trigger] library[j]).id@ != id
}

/// Whether no entry of the library has the id `id`.
pub open spec fn spec_no_sound(library: Seq<SoundEntry>, id: Seq<char>) -> bool {
    forall|j: int| 0 <= j < library.len() ==> (#[trigger] library[j]).id@ != id
}

/// Whether a key's assignment refers to the sound `id`.
pub open spec fn spec_refers_to(assignment: Option<String>, id: Seq<char>) -> bool {
    assignment matches Some(assigned) && assigned@ == id
}

/// The key assignments after every reference to the sound `id` is cleared.
pub open spec fn spec_without_references(assignments: Seq<Option<String>>, id: Seq<char>) -> Seq<
    Option<String>,
> {
    Seq::new(
        assignments.len(),
        |k: int|
            if spec_refers_to(assignments[k], id) {
                None
            } else {
                assignments[k]
            },
    )
}

/// The position of the first library entry with the id `id`.
pub fn find_sound(library: &Vec<SoundEntry>, id: &String) -> (r: Option<usize>)
    ensures
        match r {
            Some(index) => spec_is_first_sound(library@, id@, index as int),
            None => spec_no_sound(library@, id@),
        },
{
    let mut i: usize = 0;
    while i < library.len()
        invariant
            0 <= i <= library.len(),
            forall|j: int| 0 <= j < i ==> (#[trigger] library@[j]).id@ != id@,
        decreases library.len() - i,
    {
        if library[i].id == *id {
            return Some(i);
        }
        i = i + 1;
    }
    None
}

/// The audio settings that survive a restart. Volumes are kept as the bit
/// patterns of single-precision values.
#[derive(Debug)]
pub struct AudioConfig {
    /// Sound files by key, as an older format stored them.
    pub sound_files: [Option<String>; 8],
    pub sound_library: Vec<SoundEntry>,
    /// The id of the sound assigned to each key.
    pub key_sounds: [Option<String>; 8],
    pub audio_input_device: Option<String>,
    pub audio_output_device: Option<String>,
    pub sound_volume: u32,
    pub mic_volume: u32,
    pub soundboard_enabled: bool,
}

pub fn default_volume() -> (volume: u32)
    ensures
        volume == UNITY_VOLUME,
{
    UNITY_VOLUME
}

pub fn default_key_sounds() -> (sounds: [Option<String>; 8])
    ensures
        forall|k: int| 0 <= k < 8 ==> sounds@[k] is None,
{
    [None, None, None, None, None, None, None, None]
}

impl Default for AudioConfig {
    fn default() -> (config: Self)
        ensures
            forall|k: int| 0 <= k < 8 ==> config.sound_files@[k] is None,
            config.sound_library@.len() == 0,
            forall|k: int| 0 <= k < 8 ==> config.key_sounds@[k] is None,
            config.audio_input_device is None,
            config.audio_output_device is None,
            config.sound_volume == UNITY_VOLUME,
            config.mic_volume == UNITY_VOLUME,
            !config.soundboard_enabled,
    {
        AudioConfig {
            sound_files: default_key_sounds(),
            sound_library: Vec::new(),
            key_sounds: default_key_sounds(),
            audio_input_device: None,
            audio_output_device: None,
            sound_volume: UNITY_VOLUME,
            mic_volume: UNITY_VOLUME,
            soundboard_enabled: false,
        }
    }
}

impl AudioConfig {
    /// Records an imported sound at the end of the library.
    pub fn add_to_sound_library(&mut self, entry: SoundEntry)
        ensures
            *final(self) == (AudioConfig {
                sound_library: final(self).sound_library,
                ..*old(self)
            }),
            final(self).sound_library@ == old(self).sound_library@.push(entry),
    {
        self.sound_library.push(entry);
    }

    /// Removes the first sound with the id `sound_id` and hands it out, so
    /// that its file can be deleted, and clears every key that referred to
    /// that id, whether or not the library had it.
    pub fn remove_from_sound_library(&mut self, sound_id: &String) -> (removed: Option<SoundEntry>)
        ensures
            *final(self) == (AudioConfig {
                sound_library: final(self).sound_library,
                key_sounds: final(self).key_sounds,
                ..*old(self)
            }),
            final(self).key_sounds@ == spec_without_references(old(self).key_sounds@, sound_id@),
            match removed {
                Some(entry) => exists|index: int|
                    {
                        &&& spec_is_first_sound(old(self).sound_library@, sound_id@, index)
                        &&& entry == old(self).sound_library@[index]
                        &&& final(self).sound_library@ == old(self).sound_library@.remove(index)
                    },
                None => {
                    &&& spec_no_sound(old(self).sound_library@, sound_id@)
                    &&& final(self).sound_library@ == old(self).sound_library@
                },
            },
    {
        let removed = match find_sound(&self.sound_library, sound_id) {
            Some(index) => Some(self.sound_library.remove(index)),
            None => None,
        };
        let ghost searched = *self;
        let mut k: usize = 0;
        while k < 8
            invariant
                0 <= k <= 8,
                *self == (AudioConfig { key_sounds: self.key_sounds, ..searched }),
                self.key_sounds@.len() == 8,
                forall|j: int|
                    0 <= j < k ==> self.key_sounds@[j] == spec_without_references(
                        old(self).key_sounds@,
                        sound_id@,
                    )[j],
                forall|j: int| k <= j < 8 ==> self.key_sounds@[j] == old(self).key_sounds@[j],
            decreases 8 - k,
        {
            let refers = match &self.key_sounds[k] {
                Some(assigned) => *assigned == *sound_id,
                None => false,
            };
            if refers {
                self.key_sounds[k] = None;
            }
            k = k + 1;
        }
        assert(self.key_sounds@ =~= spec_without_references(old(self).key_sounds@, sound_id@));
        removed
    }

    /// Gives the first sound with the id `sound_id` a new label. Returns
    /// whether the library has such a sound; without one nothing changes.
    pub fn rename_sound(&mut self, sound_id: &String, new_name: String) -> (renamed: bool)
        ensures
            *final(self) == (AudioConfig {
                sound_library: final(self).sound_library,
                ..*old(self)
            }),
            renamed == !spec_no_sound(old(self).sound_library@, sound_id@),
            renamed ==> exists|index: int|
                {
                    &&& spec_is_first_sound(old(self).sound_library@, sound_id@, index)
                    &&& final(self).sound_library@ == old(self).sound_library@.update(
                        index,
                        SoundEntry {
                            display_name: new_name,
                            ..old(self).sound_library@[index]
                        },
                    )
                },
            !renamed ==> final(self).sound_library@ == old(self).sound_library@,
    {
        match find_sound(&self.sound_library, sound_id) {
            Some(index) => {
                let entry = self.sound_library.remove(index);
                let renamed = SoundEntry {
                    id: entry.id,
                    filename: entry.filename,
                    display_name: new_name,
                };
                self.sound_library.insert(index, renamed);
                assert(self.sound_library@ =~= old(self).sound_library@.update(
                    index as int,
                    renamed,
                ));
                true
            },
            None => false,
        }
    }

    /// Whether `filename` is the stored file of the sound assigned to a
    /// key: the file of the first library entry whose id the key refers
    /// to, and nothing where there is no such key, assignment or entry.
    pub open spec fn spec_is_key_sound_filename(
        self,
        key_index: usize,
        filename: Option<String>,
    ) -> bool {
        match filename {
            Some(name) => key_index < 8 && (self.key_sounds@[key_index as int] matches Some(id)
                && exists|index: int|
                {
                    &&& spec_is_first_sound(self.sound_library@, id@, index)
                    &&& name == self.sound_library@[index].filename
                }),
            None => key_index >= 8 || self.key_sounds@[key_index as int] is None || (
            self.key_sounds@[key_index as int] matches Some(id) && spec_no_sound(
                self.sound_library@,
                id@,
            )),
        }
    }

    /// The stored file of the sound assigned to a key.
    pub fn key_sound_filename(&self, key_index: usize) -> (filename: Option<String>)
        ensures
            self.spec_is_key_sound_filename(key_index, filename),
    {
        if key_index >= 8 {
            return None;
        }
        match &self.key_sounds[key_index] {
            None => None,
            Some(id) => match find_sound(&self.sound_library, id) {
                None => None,
                Some(index) => Some(self.sound_library[index].filename.clone()),
            },
        }
    }

    /// Whether a pipeline may be started from these settings, and if not,
    /// why.
    pub fn plan_auto_start(&self) -> (decision: StartDecision)
        ensures
            decision == spec_start_decision(self.audio_input_device, self.audio_output_device),
    {
        match &self.audio_input_device {
            None => StartDecision::NoInputDevice,
            Some(_) => match &self.audio_output_device {
                None => StartDecision::NoOutputDevice,
                Some(output) => if is_virtual_cable(output.as_str()) {
                    StartDecision::Start
                } else {
                    StartDecision::NotVirtualCable
                },
            },
        }
    }

    /// Brings sound files stored by key, as an older format had them, into
    /// the library: each becomes an entry of its own, assigned to its key.
    /// A library that already has entries is left alone. Returns whether
    /// anything was brought over.
    pub fn migrate_legacy_sounds(&mut self) -> (migrated: bool)
        ensures
            old(self).sound_library@.len() > 0 ==> !migrated && *final(self) == *old(self),
            old(self).sound_library@.len() == 0 ==> {
                &&& *final(self) == (AudioConfig {
                    sound_library: final(self).sound_library,
                    key_sounds: final(self).key_sounds,
                    ..*old(self)
                })
                &&& migrated == (spec_legacy_count(old(self).sound_files@, 8) > 0)
                &&& spec_is_migration(
                    old(self).sound_files@,
                    old(self).key_sounds@,
                    final(self).sound_library@,
                    final(self).key_sounds@,
                    8,
                )
            },
    {
        if self.sound_library.len() > 0 {
            return false;
        }
        let mut migrated = false;
        let mut i: usize = 0;
        while i < 8
            invariant
                0 <= i <= 8,
                old(self).sound_library@.len() == 0,
                *self == (AudioConfig {
                    sound_library: self.sound_library,
                    key_sounds: self.key_sounds,
                    ..*old(self)
                }),
                migrated == (spec_legacy_count(old(self).sound_files@, i as nat) > 0),
                self.key_sounds@.len() == 8,
                forall|k: int| i <= k < 8 ==> self.key_sounds@[k] == old(self).key_sounds@[k],
                spec_is_migration(
                    old(self).sound_files@,
                    old(self).key_sounds@,
                    self.sound_library@,
                    self.key_sounds@,
                    i as nat,
                ),
            decreases 8 - i,
        {
            let file = clone_assignment(&self.sound_files[i]);
            match file {
                Some(filename) => {
                    let entry = legacy_entry(filename, i);
                    let id = entry.id.clone();
                    self.sound_library.push(entry);
                    self.key_sounds[i] = Some(id);
                    migrated = true;
                },
                None => {},
            }
            i = i + 1;
        }
        migrated
    }

    /// Records that a pipeline was started from these settings.
    pub fn pipeline_started(&mut self)
        ensures
            *final(self) == (AudioConfig { soundboard_enabled: true, ..*old(self) }),
    {
        self.soundboard_enabled = true;
    }
}

/// The id a sound file stored by key gets in the library: its name up to
/// the first dot.
pub open spec fn spec_legacy_id(filename: Seq<char>) -> Seq<char> {
    spec_before_first(filename, '.')
}

/// The label a sound file stored by key gets in the library: what stands
/// between its first underscore and the next dot, or `Key N sound` for the
/// N-th key where nothing stands there.
pub open spec fn spec_legacy_label(filename: Seq<char>, key_index: nat) -> Seq<char> {
    let label = spec_before_first(spec_after_first(filename, '_'), '.');
    if label.len() == 0 {
        "Key "@ + spec_decimal(key_index + 1) + " sound"@
    } else {
        label
    }
}

/// How many of the first `count` keys have a sound file stored by key.
pub open spec fn spec_legacy_count(files: Seq<Option<String>>, count: nat) -> nat
    decreases count,
{
    if count == 0 {
        0
    } else {
        spec_legacy_count(files, (count - 1) as nat) + if files[count - 1] is Some {
            1nat
        } else {
            0nat
        }
    }
}

/// Whether `library` and `key_sounds` are what bringing over the files of
/// the first `count` keys yields: one entry per file, in key order, each
/// assigned to its key, and the other keys as they were.
pub open spec fn spec_is_migration(
    files: Seq<Option<String>>,
    old_key_sounds: Seq<Option<String>>,
    library: Seq<SoundEntry>,
    key_sounds: Seq<Option<String>>,
    count: nat,
) -> bool {
    &&& library.len() == spec_legacy_count(files, count)
    &&& forall|k: int|
        0 <= k < count ==> match #[trigger] files[k] {
            Some(filename) => {
                let entry = library[spec_legacy_count(files, k as nat) as int];
                &&& spec_legacy_count(files, k as nat) < library.len()
                &&& entry.id@ == spec_legacy_id(filename@)
                &&& entry.filename == filename
                &&& entry.display_name@ == spec_legacy_label(filename@, k as nat)
                &&& key_sounds[k] matches Some(id) && id@ == spec_legacy_id(filename@)
            },
            None => key_sounds[k] == old_key_sounds[k],
        }
}

fn clone_assignment(assignment: &Option<String>) -> (copy: Option<String>)
    ensures
        copy == *assignment,
{
    match assignment {
        Some(id) => Some(id.clone()),
        None => None,
    }
}

fn clone_assignments(assignments: &[Option<String>; 8]) -> (copy: [Option<String>; 8])
    ensures
        copy@ == assignments@,
{
    let copy = [
        clone_assignment(&assignments[0]),
        clone_assignment(&assignments[1]),
        clone_assignment(&assignments[2]),
        clone_assignment(&assignments[3]),
        clone_assignment(&assignments[4]),
        clone_assignment(&assignments[5]),
        clone_assignment(&assignments[6]),
        clone_assignment(&assignments[7]),
    ];
    assert(copy@ =~= assignments@);
    copy
}

impl Clone for AudioConfig {
    fn clone(&self) -> (copy: Self)
        ensures
            copy.sound_files@ == self.sound_files@,
            copy.sound_library@ == self.sound_library@,
            copy.key_sounds@ == self.key_sounds@,
            copy.audio_input_device == self.audio_input_device,
            copy.audio_output_device == self.audio_output_device,
            copy.sound_volume == self.sound_volume,
            copy.mic_volume == self.mic_volume,
            copy.soundboard_enabled == self.soundboard_enabled,
    {
        let mut sound_library: Vec<SoundEntry> = Vec::new();
        let mut i: usize = 0;
        while i < self.sound_library.len()
            invariant
                0 <= i <= self.sound_library.len(),
                sound_library@ == self.sound_library@.take(i as int),
            decreases self.sound_library.len() - i,
        {
            sound_library.push(self.sound_library[i].clone());
            assert(sound_library@ =~= self.sound_library@.take(i + 1));
            i = i + 1;
        }
        assert(self.sound_library@.take(self.sound_library@.len() as int)
            =~= self.sound_library@);
        AudioConfig {
            sound_files: clone_assignments(&self.sound_files),
            sound_library,
            key_sounds: clone_assignments(&self.key_sounds),
            audio_input_device: clone_assignment(&self.audio_input_device),
            audio_output_device: clone_assignment(&self.audio_output_device),
            sound_volume: self.sound_volume,
            mic_volume: self.mic_volume,
            soundboard_enabled: self.soundboard_enabled,
        }
    }
}

/// The library entry for a sound file stored by key.
pub fn legacy_entry(filename: String, key_index: usize) -> (entry: SoundEntry)
    requires
        key_index < usize::MAX,
    ensures
        entry.id@ == spec_legacy_id(filename@),
        entry.filename == filename,
        entry.display_name@ == spec_legacy_label(filename@, key_index as nat),
{
    let id = before_first(filename.as_str(), '.');
    let tail = after_first(filename.as_str(), '_');
    let label = before_first(tail.as_str(), '.');
    let display_name = if label.as_str().unicode_len() == 0 {
        let mut named = String::new();
        named.append("Key ");
        push_decimal(&mut named, (key_index + 1) as u64);
        named.append(" sound");
        named
    } else {
        label
    };
    SoundEntry { id, filename, display_name }
}

/// What becomes of an automatic pipeline start.
#[derive(Debug, Clone, Copy, PartialEq, Eq, Structural)]
pub enum StartDecision {
    /// No capture device is configured.
    NoInputDevice,
    /// No playback device is configured.
    NoOutputDevice,
    /// The playback device is not a virtual cable: the microphone would
    /// echo on the user's own speakers.
    NotVirtualCable,
    /// Both devices are configured and the pipeline may start.
    Start,
}

/// Whether a lower-cased device name names a virtual audio cable.
pub open spec fn spec_looks_like_virtual_cable(lowered: Seq<char>) -> bool {
    spec_contains(lowered, "cable"@) || spec_contains(lowered, "blackhole"@) || spec_contains(
        lowered,
        "virtual"@,
    )
}

pub open spec fn spec_is_virtual_cable(name: Seq<char>) -> bool {
    spec_looks_like_virtual_cable(spec_lowercase(name))
}

pub open spec fn spec_start_decision(input: Option<String>, output: Option<String>) -> StartDecision {
    match input {
        None => StartDecision::NoInputDevice,
        Some(_) => match output {
            None => StartDecision::NoOutputDevice,
            Some(name) => if spec_is_virtual_cable(name@) {
                StartDecision::Start
            } else {
                StartDecision::NotVirtualCable
            },
        },
    }
}

/// Whether a lower-cased device name names a virtual audio cable: it
/// mentions a cable, a black hole, or something virtual.
pub fn looks_like_virtual_cable(lowered: &str) -> (r: bool)
    ensures
        r == spec_looks_like_virtual_cable(lowered@),
{
    contains_text(lowered, "cable") || contains_text(lowered, "blackhole") || contains_text(
        lowered,
        "virtual",
    )
}

/// Whether a device name, in any letter case, names a virtual audio cable.
pub fn is_virtual_cable(name: &str) -> (r: bool)
    ensures
        r == spec_is_virtual_cable(name@),
{
    let lowered = lowercase_of(name);
    looks_like_virtual_cable(lowered.as_str())
}


} // verus!
