//! QMK keycodes: how they split into modifiers and a basic key, how they
//! are named as shortcuts, and how keys map to LEDs.

use vstd::prelude::*;
use crate::protocol::{high_byte, low_byte, spec_high_byte, spec_low_byte};
use crate::text::{push_decimal, spec_decimal};

verus! {

/// First of the eight keycodes reserved for keys that only play a sound:
/// Ctrl+Alt+Shift+1.
pub const INTERNAL_KEYCODE_BASE: u16 = 0x071E;

/// Modifier bits of a keycode's upper byte, left and right variant each.
pub const MOD_CTRL_BITS: u8 = 0x11;

pub const MOD_SHIFT_BITS: u8 = 0x22;

pub const MOD_ALT_BITS: u8 = 0x44;

pub const MOD_GUI_BITS: u8 = 0x88;

pub open spec fn spec_needs_ctrl(mods: u8) -> bool {
    mods & MOD_CTRL_BITS != 0
}

pub open spec fn spec_needs_shift(mods: u8) -> bool {
    mods & MOD_SHIFT_BITS != 0
}

pub open spec fn spec_needs_alt(mods: u8) -> bool {
    mods & MOD_ALT_BITS != 0
}

pub open spec fn spec_needs_gui(mods: u8) -> bool {
    mods & MOD_GUI_BITS != 0
}

/// Whether a keycode is a shortcut: it has both modifiers and a basic key.
pub open spec fn spec_is_chord(keycode: u16) -> bool {
    spec_high_byte(keycode) != 0 && spec_low_byte(keycode) != 0
}

/// The LED behind a key. The top row is wired left to right, the bottom
/// row right to left.
pub open spec fn spec_keymap_to_led(keymap_idx: int) -> int {
    if keymap_idx < 4 {
        keymap_idx
    } else {
        11 - keymap_idx
    }
}

pub fn keymap_to_led_index(keymap_idx: usize) -> (led: usize)
    requires
        keymap_idx <= 11,
    ensures
        led == spec_keymap_to_led(keymap_idx as int),
        keymap_idx < 8 ==> led < 8,
{
    if keymap_idx < 4 {
        keymap_idx
    } else {
        11 - keymap_idx
    }
}

/// The key in front of an LED; the wiring map is its own inverse.
pub fn led_to_keymap_index(led_idx: usize) -> (keymap: usize)
    requires
        led_idx <= 11,
    ensures
        keymap == spec_keymap_to_led(led_idx as int),
        led_idx < 8 ==> keymap < 8,
{
    if led_idx < 4 {
        led_idx
    } else {
        11 - led_idx
    }
}

/// Going from a key to its LED and back arrives at the same key.
pub proof fn lemma_wiring_is_an_involution(index: int)
    requires
        0 <= index < 8,
    ensures
        0 <= spec_keymap_to_led(index) < 8,
        spec_keymap_to_led(spec_keymap_to_led(index)) == index,
{
}

pub open spec fn spec_internal_keycode(led_index: int) -> int {
    INTERNAL_KEYCODE_BASE + led_index
}

pub open spec fn spec_is_internal_keycode(keycode: u16) -> bool {
    INTERNAL_KEYCODE_BASE <= keycode < INTERNAL_KEYCODE_BASE + 8
}

/// The reserved keycode of the key at an LED.
pub fn internal_keycode_for_key(led_index: usize) -> (keycode: u16)
    requires
        INTERNAL_KEYCODE_BASE + led_index <= u16::MAX,
    ensures
        keycode == spec_internal_keycode(led_index as int),
        spec_is_internal_keycode(keycode) == (led_index < 8),
{
    INTERNAL_KEYCODE_BASE + led_index as u16
}

pub fn is_internal_keycode(keycode: u16) -> (r: bool)
    ensures
        r == spec_is_internal_keycode(keycode),
{
    keycode >= INTERNAL_KEYCODE_BASE && keycode < INTERNAL_KEYCODE_BASE + 8
}

/// The name of a basic key in a shortcut to register.
pub open spec fn spec_key_name(basic: u8) -> Option<Seq<char>> {
    if 0x04 <= basic <= 0x1D {
        Some(seq![(65 + (basic - 0x04)) as char])
    } else if 0x1E <= basic <= 0x26 {
        Some(seq![(49 + (basic - 0x1E)) as char])
    } else if basic == 0x27 {
        Some("0"@)
    } else if basic == 0x28 {
        Some("Enter"@)
    } else if basic == 0x29 {
        Some("Escape"@)
    } else if basic == 0x2C {
        Some("Space"@)
    } else if 0x3A <= basic <= 0x45 {
        Some("F"@ + spec_decimal((basic - 0x3A + 1) as nat))
    } else {
        None
    }
}

/// The name of a basic key as the shortcut handler reports it.
pub open spec fn spec_display_key_name(basic: u8) -> Option<Seq<char>> {
    if 0x04 <= basic <= 0x1D {
        Some("Key"@ + seq![(65 + (basic - 0x04)) as char])
    } else if 0x1E <= basic <= 0x26 {
        Some("Digit"@ + seq![(49 + (basic - 0x1E)) as char])
    } else if basic == 0x27 {
        Some("Digit0"@)
    } else if basic == 0x28 {
        Some("Enter"@)
    } else if basic == 0x29 {
        Some("Escape"@)
    } else if basic == 0x2C {
        Some("Space"@)
    } else if 0x3A <= basic <= 0x45 {
        Some("F"@ + spec_decimal((basic - 0x3A + 1) as nat))
    } else {
        None
    }
}

/// The modifiers of a shortcut to register, each followed by a plus sign.
pub open spec fn spec_modifier_prefix(mods: u8) -> Seq<char> {
    (if spec_needs_ctrl(mods) {
        "Ctrl+"@
    } else {
        Seq::empty()
    }) + (if spec_needs_shift(mods) {
        "Shift+"@
    } else {
        Seq::empty()
    }) + (if spec_needs_alt(mods) {
        "Alt+"@
    } else {
        Seq::empty()
    }) + (if spec_needs_gui(mods) {
        "Super+"@
    } else {
        Seq::empty()
    })
}

/// The modifiers as the shortcut handler reports them: shift first, lower
/// case, each followed by a plus sign.
pub open spec fn spec_display_modifier_prefix(mods: u8) -> Seq<char> {
    (if spec_needs_shift(mods) {
        "shift+"@
    } else {
        Seq::empty()
    }) + (if spec_needs_ctrl(mods) {
        "control+"@
    } else {
        Seq::empty()
    }) + (if spec_needs_alt(mods) {
        "alt+"@
    } else {
        Seq::empty()
    }) + (if spec_needs_gui(mods) {
        "super+"@
    } else {
        Seq::empty()
    })
}

/// The shortcut string to register for a keycode, such as `Ctrl+Alt+M`.
pub open spec fn spec_shortcut(keycode: u16) -> Option<Seq<char>> {
    if !spec_is_chord(keycode) {
        None
    } else {
        match spec_key_name(spec_low_byte(keycode)) {
            Some(name) => Some(spec_modifier_prefix(spec_high_byte(keycode)) + name),
            None => None,
        }
    }
}

/// The string the shortcut handler reports for a keycode, such as
/// `control+alt+KeyM`.
pub open spec fn spec_display(keycode: u16) -> Option<Seq<char>> {
    if !spec_is_chord(keycode) {
        None
    } else {
        match spec_display_key_name(spec_low_byte(keycode)) {
            Some(name) => Some(spec_display_modifier_prefix(spec_high_byte(keycode)) + name),
            None => None,
        }
    }
}

/// Appends the shortcut name of a basic key. Returns whether the key has
/// one; without one nothing is appended.
fn push_key_name(out: &mut String, basic: u8) -> (named: bool)
    ensures
        named == spec_key_name(basic) is Some,
        spec_key_name(basic) matches Some(name) ==> final(out)@ == old(out)@ + name,
        !named ==> final(out)@ == old(out)@,
{
    if 0x04 <= basic && basic <= 0x1D {
        out.push((65 + (basic - 0x04)) as char);
        assert(out@ =~= old(out)@ + seq![(65 + (basic - 0x04)) as char]);
        true
    } else if 0x1E <= basic && basic <= 0x26 {
        out.push((49 + (basic - 0x1E)) as char);
        assert(out@ =~= old(out)@ + seq![(49 + (basic - 0x1E)) as char]);
        true
    } else if basic == 0x27 {
        out.append("0");
        true
    } else if basic == 0x28 {
        out.append("Enter");
        true
    } else if basic == 0x29 {
        out.append("Escape");
        true
    } else if basic == 0x2C {
        out.append("Space");
        true
    } else if 0x3A <= basic && basic <= 0x45 {
        out.append("F");
        push_decimal(out, (basic - 0x3A + 1) as u64);
        assert(out@ =~= old(out)@ + ("F"@ + spec_decimal((basic - 0x3A + 1) as nat)));
        true
    } else {
        false
    }
}

/// Appends the reported name of a basic key. Returns whether the key has
/// one; without one nothing is appended.
fn push_display_key_name(out: &mut String, basic: u8) -> (named: bool)
    ensures
        named == spec_display_key_name(basic) is Some,
        spec_display_key_name(basic) matches Some(name) ==> final(out)@ == old(out)@ + name,
        !named ==> final(out)@ == old(out)@,
{
    if 0x04 <= basic && basic <= 0x1D {
        out.append("Key");
        out.push((65 + (basic - 0x04)) as char);
        assert(out@ =~= old(out)@ + ("Key"@ + seq![(65 + (basic - 0x04)) as char]));
        true
    } else if 0x1E <= basic && basic <= 0x26 {
        out.append("Digit");
        out.push((49 + (basic - 0x1E)) as char);
        assert(out@ =~= old(out)@ + ("Digit"@ + seq![(49 + (basic - 0x1E)) as char]));
        true
    } else if basic == 0x27 {
        out.append("Digit0");
        true
    } else if basic == 0x28 {
        out.append("Enter");
        true
    } else if basic == 0x29 {
        out.append("Escape");
        true
    } else if basic == 0x2C {
        out.append("Space");
        true
    } else if 0x3A <= basic && basic <= 0x45 {
        out.append("F");
        push_decimal(out, (basic - 0x3A + 1) as u64);
        assert(out@ =~= old(out)@ + ("F"@ + spec_decimal((basic - 0x3A + 1) as nat)));
        true
    } else {
        false
    }
}

/// The shortcut string to register for a keycode. Keycodes without
/// modifiers, without a basic key, or with a basic key that has no name
/// yield none.
pub fn qmk_keycode_to_shortcut(keycode: u16) -> (shortcut: Option<String>)
    ensures
        match shortcut {
            Some(text) => spec_shortcut(keycode) == Some(text@),
            None => spec_shortcut(keycode) is None,
        },
{
    let mods = high_byte(keycode);
    let basic = low_byte(keycode);
    if mods == 0 || basic == 0 {
        return None;
    }
    let mut text = String::new();
    if mods & MOD_CTRL_BITS != 0 {
        text.append("Ctrl+");
    }
    if mods & MOD_SHIFT_BITS != 0 {
        text.append("Shift+");
    }
    if mods & MOD_ALT_BITS != 0 {
        text.append("Alt+");
    }
    if mods & MOD_GUI_BITS != 0 {
        text.append("Super+");
    }
    assert(text@ =~= spec_modifier_prefix(mods));
    if push_key_name(&mut text, basic) {
        Some(text)
    } else {
        None
    }
}

/// The string the shortcut handler reports for a keycode.
pub fn qmk_keycode_to_display(keycode: u16) -> (display: Option<String>)
    ensures
        match display {
            Some(text) => spec_display(keycode) == Some(text@),
            None => spec_display(keycode) is None,
        },
{
    let mods = high_byte(keycode);
    let basic = low_byte(keycode);
    if mods == 0 || basic == 0 {
        return None;
    }
    let mut text = String::new();
    if mods & MOD_SHIFT_BITS != 0 {
        text.append("shift+");
    }
    if mods & MOD_CTRL_BITS != 0 {
        text.append("control+");
    }
    if mods & MOD_ALT_BITS != 0 {
        text.append("alt+");
    }
    if mods & MOD_GUI_BITS != 0 {
        text.append("super+");
    }
    assert(text@ =~= spec_display_modifier_prefix(mods));
    if push_display_key_name(&mut text, basic) {
        Some(text)
    } else {
        None
    }
}

} // verus!
