//! Recognising the keypad's shortcuts in the stream of key events: which
//! virtual key a keycode presses, which modifiers are down, which shortcut
//! a key press completes, and whether a press repeats one just handled.

use vstd::prelude::*;
use crate::keycodes::{
    is_internal_keycode,
    keymap_to_led_index,
    qmk_keycode_to_display,
    qmk_keycode_to_shortcut,
    spec_display,
    spec_is_chord,
    spec_is_internal_keycode,
    spec_keymap_to_led,
    spec_needs_alt,
    spec_needs_ctrl,
    spec_needs_gui,
    spec_needs_shift,
    spec_shortcut,
    MOD_ALT_BITS,
    MOD_CTRL_BITS,
    MOD_GUI_BITS,
    MOD_SHIFT_BITS,
};
use crate::protocol::{high_byte, low_byte, spec_high_byte, spec_low_byte};

verus! {

/// Two detections of one key closer together than this many milliseconds
/// count as one press.
pub const DEDUP_MS: u64 = 150;

pub const VK_SHIFT: u32 = 0x10;

pub const VK_CONTROL: u32 = 0x11;

pub const VK_MENU: u32 = 0x12;

pub const VK_LWIN: u32 = 0x5B;

pub const VK_RWIN: u32 = 0x5C;

pub const VK_LSHIFT: u32 = 0xA0;

pub const VK_RSHIFT: u32 = 0xA1;

pub const VK_LCONTROL: u32 = 0xA2;

pub const VK_RCONTROL: u32 = 0xA3;

pub const VK_LMENU: u32 = 0xA4;

pub const VK_RMENU: u32 = 0xA5;

pub open spec fn spec_is_ctrl_vk(vk: u32) -> bool {
    vk == VK_CONTROL || vk == VK_LCONTROL || vk == VK_RCONTROL
}

pub open spec fn spec_is_shift_vk(vk: u32) -> bool {
    vk == VK_SHIFT || vk == VK_LSHIFT || vk == VK_RSHIFT
}

pub open spec fn spec_is_alt_vk(vk: u32) -> bool {
    vk == VK_MENU || vk == VK_LMENU || vk == VK_RMENU
}

pub open spec fn spec_is_gui_vk(vk: u32) -> bool {
    vk == VK_LWIN || vk == VK_RWIN
}

pub open spec fn spec_is_modifier_vk(vk: u32) -> bool {
    spec_is_ctrl_vk(vk) || spec_is_shift_vk(vk) || spec_is_alt_vk(vk) || spec_is_gui_vk(vk)
}

/// Whether a virtual key is a modifier: shift, control, alt or the logo
/// key, in any variant.
pub fn is_modifier_vk(vk: u32) -> (r: bool)
    ensures
        r == spec_is_modifier_vk(vk),
{
    vk == VK_SHIFT || vk == VK_CONTROL || vk == VK_MENU || vk == VK_LWIN || vk == VK_RWIN || vk
        == VK_LSHIFT || vk == VK_RSHIFT || vk == VK_LCONTROL || vk == VK_RCONTROL || vk == VK_LMENU
        || vk == VK_RMENU
}

/// The virtual key of a basic keycode: letters, digits, Enter, Escape,
/// Space and the function keys up to F20.
pub open spec fn spec_basic_to_vk(basic: u8) -> Option<u32> {
    if 0x04 <= basic <= 0x1D {
        Some((0x41 + (basic - 0x04)) as u32)
    } else if 0x1E <= basic <= 0x26 {
        Some((0x31 + (basic - 0x1E)) as u32)
    } else if basic == 0x27 {
        Some(0x30u32)
    } else if basic == 0x28 {
        Some(0x0Du32)
    } else if basic == 0x29 {
        Some(0x1Bu32)
    } else if basic == 0x2C {
        Some(0x20u32)
    } else if 0x3A <= basic <= 0x45 {
        Some((0x70 + (basic - 0x3A)) as u32)
    } else if 0x68 <= basic <= 0x6F {
        Some((0x7C + (basic - 0x68)) as u32)
    } else {
        None
    }
}

pub fn qmk_basic_to_vk(basic: u8) -> (vk: Option<u32>)
    ensures
        vk == spec_basic_to_vk(basic),
{
    if 0x04 <= basic && basic <= 0x1D {
        Some(0x41 + (basic - 0x04) as u32)
    } else if 0x1E <= basic && basic <= 0x26 {
        Some(0x31 + (basic - 0x1E) as u32)
    } else if basic == 0x27 {
        Some(0x30)
    } else if basic == 0x28 {
        Some(0x0D)
    } else if basic == 0x29 {
        Some(0x1B)
    } else if basic == 0x2C {
        Some(0x20)
    } else if 0x3A <= basic && basic <= 0x45 {
        Some(0x70 + (basic - 0x3A) as u32)
    } else if 0x68 <= basic && basic <= 0x6F {
        Some(0x7C + (basic - 0x68) as u32)
    } else {
        None
    }
}

/// Milliseconds from `prev` to `now` on a tick counter that wraps around.
pub open spec fn spec_elapsed(now: u64, prev: u64) -> int {
    if now >= prev {
        now - prev
    } else {
        now + 0x1_0000_0000_0000_0000 - prev
    }
}

/// Whether a detected press of the key at `led_idx` is to toggle it: the
/// key exists, and its last toggle at `prev` lies more than `DEDUP_MS`
/// before `now`.
pub fn should_toggle(led_idx: usize, now: u64, prev: u64) -> (r: bool)
    ensures
        r == (led_idx < 8 && spec_elapsed(now, prev) > DEDUP_MS),
{
    if led_idx >= 8 {
        return false;
    }
    let elapsed: u64 = if now >= prev {
        now - prev
    } else {
        (u64::MAX - prev) + now + 1
    };
    elapsed > DEDUP_MS
}

/// One shortcut to watch for.
#[derive(Debug, Clone, Copy, PartialEq, Eq, Structural)]
pub struct ShortcutEntry {
    pub vk_code: u32,
    pub need_ctrl: bool,
    pub need_shift: bool,
    pub need_alt: bool,
    pub need_gui: bool,
    pub led_idx: usize,
    pub is_internal: bool,
}

/// The shortcut that the key at keymap position `index` sends, if its
/// keycode is a chord on a key with a virtual key code.
pub open spec fn spec_shortcut_entry(index: int, keycode: u16) -> Option<ShortcutEntry> {
    if !spec_is_chord(keycode) {
        None
    } else {
        match spec_basic_to_vk(spec_low_byte(keycode)) {
            None => None,
            Some(vk) => Some(
                ShortcutEntry {
                    vk_code: vk,
                    need_ctrl: spec_needs_ctrl(spec_high_byte(keycode)),
                    need_shift: spec_needs_shift(spec_high_byte(keycode)),
                    need_alt: spec_needs_alt(spec_high_byte(keycode)),
                    need_gui: spec_needs_gui(spec_high_byte(keycode)),
                    led_idx: spec_keymap_to_led(index) as usize,
                    is_internal: spec_is_internal_keycode(keycode),
                },
            ),
        }
    }
}

/// The shortcuts of the first `count` keys, in key order.
pub open spec fn spec_shortcut_entries(keymaps: Seq<u16>, count: nat) -> Seq<ShortcutEntry>
    decreases count,
{
    if count == 0 {
        Seq::empty()
    } else {
        let earlier = spec_shortcut_entries(keymaps, (count - 1) as nat);
        match spec_shortcut_entry(count - 1, keymaps[count - 1]) {
            Some(entry) => earlier.push(entry),
            None => earlier,
        }
    }
}

pub fn shortcut_entry(index: usize, keycode: u16) -> (entry: Option<ShortcutEntry>)
    requires
        index < 8,
    ensures
        entry == spec_shortcut_entry(index as int, keycode),
{
    let mods = high_byte(keycode);
    let basic = low_byte(keycode);
    if mods == 0 || basic == 0 {
        return None;
    }
    match qmk_basic_to_vk(basic) {
        None => None,
        Some(vk) => Some(
            ShortcutEntry {
                vk_code: vk,
                need_ctrl: mods & MOD_CTRL_BITS != 0,
                need_shift: mods & MOD_SHIFT_BITS != 0,
                need_alt: mods & MOD_ALT_BITS != 0,
                need_gui: mods & MOD_GUI_BITS != 0,
                led_idx: keymap_to_led_index(index),
                is_internal: is_internal_keycode(keycode),
            },
        ),
    }
}

/// The shortcuts to watch for, given the keycode of each key.
pub fn register_shortcuts(keymaps: &[u16; 8]) -> (entries: Vec<ShortcutEntry>)
    ensures
        entries@ == spec_shortcut_entries(keymaps@, 8),
{
    let mut entries: Vec<ShortcutEntry> = Vec::new();
    let mut i: usize = 0;
    while i < 8
        invariant
            0 <= i <= 8,
            entries@ == spec_shortcut_entries(keymaps@, i as nat),
        decreases 8 - i,
    {
        match shortcut_entry(i, keymaps[i]) {
            Some(entry) => entries.push(entry),
            None => {},
        }
        i = i + 1;
    }
    entries
}

/// Which modifiers are held down.
#[derive(Debug, Clone, Copy, PartialEq, Eq, Structural)]
pub struct ModifierState {
    pub ctrl: bool,
    pub shift: bool,
    pub alt: bool,
    pub gui: bool,
}

impl ModifierState {
    pub open spec fn spec_after(self, vk: u32, is_down: bool) -> ModifierState {
        if spec_is_ctrl_vk(vk) {
            ModifierState { ctrl: is_down, ..self }
        } else if spec_is_shift_vk(vk) {
            ModifierState { shift: is_down, ..self }
        } else if spec_is_alt_vk(vk) {
            ModifierState { alt: is_down, ..self }
        } else if spec_is_gui_vk(vk) {
            ModifierState { gui: is_down, ..self }
        } else {
            self
        }
    }

    pub open spec fn spec_any(self) -> bool {
        self.ctrl || self.shift || self.alt || self.gui
    }

    /// Whether exactly the modifiers an entry needs are down.
    pub open spec fn spec_satisfies(self, entry: ShortcutEntry) -> bool {
        entry.need_ctrl == self.ctrl && entry.need_shift == self.shift && entry.need_alt
            == self.alt && entry.need_gui == self.gui
    }

    /// No modifier down.
    pub fn new() -> (state: ModifierState)
        ensures
            state == (ModifierState { ctrl: false, shift: false, alt: false, gui: false }),
    {
        ModifierState { ctrl: false, shift: false, alt: false, gui: false }
    }

    /// Follows one key event: a modifier key going down or up sets or
    /// clears its modifier; other keys change nothing.
    pub fn track(&mut self, vk: u32, is_down: bool)
        ensures
            *final(self) == old(self).spec_after(vk, is_down),
    {
        if vk == VK_CONTROL || vk == VK_LCONTROL || vk == VK_RCONTROL {
            self.ctrl = is_down;
        } else if vk == VK_SHIFT || vk == VK_LSHIFT || vk == VK_RSHIFT {
            self.shift = is_down;
        } else if vk == VK_MENU || vk == VK_LMENU || vk == VK_RMENU {
            self.alt = is_down;
        } else if vk == VK_LWIN || vk == VK_RWIN {
            self.gui = is_down;
        }
    }
}

/// Whether `index` is the first entry that the key `vk` completes while
/// the modifiers `mods` are down.
pub open spec fn spec_is_first_hit(
    entries: Seq<ShortcutEntry>,
    vk: u32,
    mods: ModifierState,
    index: int,
) -> bool {
    &&& 0 <= index < entries.len()
    &&& entries[index].vk_code == vk
    &&& mods.spec_satisfies(entries[index])
    &&& forall|j: int|
        0 <= j < index ==> !((#[trigger] entries[j]).vk_code == vk && mods.spec_satisfies(
            entries[j],
        ))
}

pub open spec fn spec_no_hit(entries: Seq<ShortcutEntry>, vk: u32, mods: ModifierState) -> bool {
    forall|j: int|
        0 <= j < entries.len() ==> !((#[trigger] entries[j]).vk_code == vk
            && mods.spec_satisfies(entries[j]))
}

/// The first entry that the key `vk` completes under the modifiers `mods`.
pub fn find_shortcut(entries: &Vec<ShortcutEntry>, vk: u32, mods: &ModifierState) -> (r: Option<
    usize,
>)
    ensures
        match r {
            Some(index) => spec_is_first_hit(entries@, vk, *mods, index as int),
            None => spec_no_hit(entries@, vk, *mods),
        },
{
    let mut i: usize = 0;
    while i < entries.len()
        invariant
            0 <= i <= entries.len(),
            forall|j: int|
                0 <= j < i ==> !((#[trigger] entries@[j]).vk_code == vk && mods.spec_satisfies(
                    entries@[j],
                )),
        decreases entries.len() - i,
    {
        let entry = &entries[i];
        if entry.vk_code == vk && entry.need_ctrl == mods.ctrl && entry.need_shift == mods.shift
            && entry.need_alt == mods.alt && entry.need_gui == mods.gui {
            return Some(i);
        }
        i = i + 1;
    }
    None
}

/// Whether a key event can complete a shortcut at all: a key going down
/// that is no modifier, while some modifier is held.
pub open spec fn spec_is_candidate(mods: ModifierState, vk: u32, is_down: bool) -> bool {
    is_down && !spec_is_modifier_vk(vk) && mods.spec_any()
}

/// Handles one key event: follows the modifiers, and reports the shortcut
/// that the event completes, if any.
pub fn handle_key_event(
    mods: &mut ModifierState,
    entries: &Vec<ShortcutEntry>,
    vk: u32,
    is_down: bool,
) -> (hit: Option<ShortcutEntry>)
    ensures
        *final(mods) == old(mods).spec_after(vk, is_down),
        match hit {
            Some(entry) => spec_is_candidate(*final(mods), vk, is_down) && exists|index: int|
                spec_is_first_hit(entries@, vk, *final(mods), index) && entry == entries@[index],
            None => !spec_is_candidate(*final(mods), vk, is_down) || spec_no_hit(
                entries@,
                vk,
                *final(mods),
            ),
        },
{
    mods.track(vk, is_down);
    if is_down && !is_modifier_vk(vk) && (mods.ctrl || mods.shift || mods.alt || mods.gui) {
        match find_shortcut(entries, vk, mods) {
            Some(index) => Some(entries[index]),
            None => None,
        }
    } else {
        None
    }
}

/// Whether the low-level hook swallows a key press: it does so for the
/// shortcuts of sound-only keys, which no application is meant to see.
pub fn blocks_keystroke(hit: &Option<ShortcutEntry>) -> (blocked: bool)
    ensures
        blocked == (*hit matches Some(entry) && entry.is_internal),
{
    match hit {
        Some(entry) => entry.is_internal,
        None => false,
    }
}

/// When each key was last toggled, on a millisecond tick counter.
pub struct DedupClock {
    last: [u64; 8],
}

impl View for DedupClock {
    type V = Seq<u64>;

    closed spec fn view(&self) -> Seq<u64> {
        self.last@
    }
}

impl DedupClock {
    /// A clock on which no key was toggled yet.
    pub fn new() -> (clock: DedupClock)
        ensures
            clock@ == Seq::new(8, |k: int| 0u64),
    {
        let clock = DedupClock { last: [0u64;8] };
        assert(clock@ =~= Seq::new(8, |k: int| 0u64));
        clock
    }

    /// Judges a detected press of the key at `led_idx` at time `now` and
    /// remembers it. A press closer than `DEDUP_MS` to the one remembered
    /// is a second detection of the same press and does not toggle, yet it
    /// is remembered too.
    pub fn should_toggle(&mut self, led_idx: usize, now: u64) -> (r: bool)
        ensures
            final(self)@.len() == 8,
            led_idx >= 8 ==> !r && final(self)@ == old(self)@,
            led_idx < 8 ==> r == (spec_elapsed(now, old(self)@[led_idx as int]) > DEDUP_MS)
                && final(self)@ == old(self)@.update(led_idx as int, now),
    {
        if led_idx >= 8 {
            return false;
        }
        let prev = self.last[led_idx];
        self.last[led_idx] = now;
        assert(self.last@ =~= old(self).last@.update(led_idx as int, now));
        should_toggle(led_idx, now, prev)
    }
}

/// A global shortcut to register for a key, and what to do when it fires.
#[derive(Debug)]
pub struct ShortcutBinding {
    /// The string the shortcut handler reports when the shortcut fires.
    pub display: String,
    pub led_idx: usize,
    pub keycode: u16,
    /// The string the shortcut is registered under.
    pub register: String,
}

/// Whether `binding` is the binding of the key at keymap position `index`
/// with the keycode `keycode`.
pub open spec fn spec_is_binding(binding: Option<ShortcutBinding>, index: int, keycode: u16) -> bool {
    match binding {
        Some(b) => {
            &&& spec_shortcut(keycode) == Some(b.register@)
            &&& spec_display(keycode) == Some(b.display@)
            &&& b.led_idx == spec_keymap_to_led(index)
            &&& b.keycode == keycode
        },
        None => spec_shortcut(keycode) is None,
    }
}

/// The binding of one key, if its keycode can be a global shortcut.
pub fn shortcut_binding(index: usize, keycode: u16) -> (binding: Option<ShortcutBinding>)
    requires
        index < 8,
    ensures
        spec_is_binding(binding, index as int, keycode),
{
    match qmk_keycode_to_shortcut(keycode) {
        None => None,
        Some(register) => match qmk_keycode_to_display(keycode) {
            None => None,
            Some(display) => Some(
                ShortcutBinding { display, led_idx: keymap_to_led_index(index), keycode, register },
            ),
        },
    }
}

/// The bindings to register, one per key in key order; keys whose keycode
/// cannot be a global shortcut have none.
pub fn register_key_shortcuts(keymaps: &[u16; 8]) -> (bindings: Vec<Option<ShortcutBinding>>)
    ensures
        bindings@.len() == 8,
        forall|k: int| 0 <= k < 8 ==> spec_is_binding(#[trigger] bindings@[k], k, keymaps@[k]),
{
    let mut bindings: Vec<Option<ShortcutBinding>> = Vec::new();
    let mut i: usize = 0;
    while i < 8
        invariant
            0 <= i <= 8,
            bindings@.len() == i,
            forall|k: int| 0 <= k < i ==> spec_is_binding(#[trigger] bindings@[k], k, keymaps@[k]),
        decreases 8 - i,
    {
        bindings.push(shortcut_binding(i, keymaps[i]));
        i = i + 1;
    }
    bindings
}

/// The registered shortcuts, found by the string the handler reports.
/// Registering a shortcut under a string that is taken replaces the old
/// binding.
pub struct ShortcutMap {
    bindings: Vec<ShortcutBinding>,
}

/// The bindings in force after a run of registrations, by reported string.
pub open spec fn spec_bindings(registered: Seq<ShortcutBinding>) -> Map<Seq<char>, ShortcutBinding>
    decreases registered.len(),
{
    if registered.len() == 0 {
        Map::empty()
    } else {
        spec_bindings(registered.drop_last()).insert(registered.last().display@, registered.last())
    }
}

impl View for ShortcutMap {
    type V = Map<Seq<char>, ShortcutBinding>;

    closed spec fn view(&self) -> Map<Seq<char>, ShortcutBinding> {
        spec_bindings(self.bindings@)
    }
}

impl ShortcutMap {
    pub fn new() -> (map: ShortcutMap)
        ensures
            map@ == Map::<Seq<char>, ShortcutBinding>::empty(),
    {
        ShortcutMap { bindings: Vec::new() }
    }

    /// Forgets every binding.
    pub fn clear(&mut self)
        ensures
            final(self)@ == Map::<Seq<char>, ShortcutBinding>::empty(),
    {
        self.bindings = Vec::new();
    }

    /// Records a registered shortcut.
    pub fn insert(&mut self, binding: ShortcutBinding)
        ensures
            final(self)@ == old(self)@.insert(binding.display@, binding),
    {
        self.bindings.push(binding);
        assert(self.bindings@.drop_last() =~= old(self).bindings@);
    }

    /// The binding registered under the string the handler reported.
    pub fn get(&self, display: &String) -> (r: Option<&ShortcutBinding>)
        ensures
            match r {
                Some(binding) => self@.contains_key(display@) && self@[display@] == *binding,
                None => !self@.contains_key(display@),
            },
    {
        let mut i: usize = self.bindings.len();
        proof {
            assert(self.bindings@.take(i as int) =~= self.bindings@);
        }
        while i > 0
            invariant
                0 <= i <= self.bindings.len(),
                spec_bindings(self.bindings@).contains_key(display@) <==> spec_bindings(
                    self.bindings@.take(i as int),
                ).contains_key(display@),
                spec_bindings(self.bindings@).contains_key(display@) ==> spec_bindings(
                    self.bindings@,
                )[display@] == spec_bindings(self.bindings@.take(i as int))[display@],
            decreases i,
        {
            proof {
                assert(self.bindings@.take(i as int).drop_last() =~= self.bindings@.take(i - 1));
                assert(self.bindings@.take(i as int).last() == self.bindings@[i - 1]);
            }
            if self.bindings[i - 1].display == *display {
                return Some(&self.bindings[i - 1]);
            }
            i = i - 1;
        }
        None
    }
}

} // verus!
