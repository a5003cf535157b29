//! Replaying a keycode as keystrokes, so that the focused application
//! still receives a shortcut the keypad sent.

use vstd::prelude::*;
use crate::keycodes::{
    spec_needs_alt,
    spec_needs_ctrl,
    spec_needs_gui,
    spec_needs_shift,
    MOD_ALT_BITS,
    MOD_CTRL_BITS,
    MOD_GUI_BITS,
    MOD_SHIFT_BITS,
};
use crate::protocol::{high_byte, low_byte, spec_high_byte, spec_low_byte};

verus! {

/// A key that can be simulated.
#[derive(Debug, Clone, Copy, PartialEq, Eq, Structural)]
pub enum SimKey {
    Control,
    Shift,
    Alt,
    Meta,
    /// The key that types this character.
    Unicode(char),
    Return,
    Escape,
    Space,
    /// A function key, by its number from 1 to 12.
    Function(u8),
}

#[derive(Debug, Clone, Copy, PartialEq, Eq, Structural)]
pub enum Direction {
    Press,
    Release,
    /// Press and release.
    Click,
}

#[derive(Debug, Clone, Copy, PartialEq, Eq, Structural)]
pub struct KeyAction {
    pub key: SimKey,
    pub direction: Direction,
}

/// The key to click for a basic keycode: letters in lower case, digits,
/// Enter, Escape, Space and F1 to F12.
pub open spec fn spec_replay_key(basic: u8) -> Option<SimKey> {
    if 0x04 <= basic <= 0x1D {
        Some(SimKey::Unicode((97 + (basic - 0x04)) as char))
    } else if 0x1E <= basic <= 0x26 {
        Some(SimKey::Unicode((49 + (basic - 0x1E)) as char))
    } else if basic == 0x27 {
        Some(SimKey::Unicode('0'))
    } else if basic == 0x28 {
        Some(SimKey::Return)
    } else if basic == 0x29 {
        Some(SimKey::Escape)
    } else if basic == 0x2C {
        Some(SimKey::Space)
    } else if 0x3A <= basic <= 0x45 {
        Some(SimKey::Function((basic - 0x3A + 1) as u8))
    } else {
        None
    }
}

pub open spec fn spec_action(wanted: bool, key: SimKey, direction: Direction) -> Seq<KeyAction> {
    if wanted {
        seq![KeyAction { key, direction }]
    } else {
        Seq::empty()
    }
}

/// The modifiers of a keycode going down: control, shift, alt, logo key.
pub open spec fn spec_presses(mods: u8) -> Seq<KeyAction> {
    spec_action(spec_needs_ctrl(mods), SimKey::Control, Direction::Press) + spec_action(
        spec_needs_shift(mods),
        SimKey::Shift,
        Direction::Press,
    ) + spec_action(spec_needs_alt(mods), SimKey::Alt, Direction::Press) + spec_action(
        spec_needs_gui(mods),
        SimKey::Meta,
        Direction::Press,
    )
}

/// The modifiers of a keycode coming up again, in the opposite order.
pub open spec fn spec_releases(mods: u8) -> Seq<KeyAction> {
    spec_action(spec_needs_gui(mods), SimKey::Meta, Direction::Release) + spec_action(
        spec_needs_alt(mods),
        SimKey::Alt,
        Direction::Release,
    ) + spec_action(spec_needs_shift(mods), SimKey::Shift, Direction::Release) + spec_action(
        spec_needs_ctrl(mods),
        SimKey::Control,
        Direction::Release,
    )
}

/// The click of the basic key, where it can be simulated.
pub open spec fn spec_click(basic: u8) -> Seq<KeyAction> {
    match spec_replay_key(basic) {
        Some(key) => seq![KeyAction { key, direction: Direction::Click }],
        None => Seq::empty(),
    }
}

/// The keystrokes that replay a keycode: modifiers down, the key clicked,
/// modifiers up in reverse.
pub open spec fn spec_keystrokes(keycode: u16) -> Seq<KeyAction> {
    spec_presses(spec_high_byte(keycode)) + spec_click(spec_low_byte(keycode)) + spec_releases(
        spec_high_byte(keycode),
    )
}

pub fn replay_key(basic: u8) -> (key: Option<SimKey>)
    ensures
        key == spec_replay_key(basic),
{
    if 0x04 <= basic && basic <= 0x1D {
        Some(SimKey::Unicode((97 + (basic - 0x04)) as char))
    } else if 0x1E <= basic && basic <= 0x26 {
        Some(SimKey::Unicode((49 + (basic - 0x1E)) as char))
    } else if basic == 0x27 {
        Some(SimKey::Unicode('0'))
    } else if basic == 0x28 {
        Some(SimKey::Return)
    } else if basic == 0x29 {
        Some(SimKey::Escape)
    } else if basic == 0x2C {
        Some(SimKey::Space)
    } else if 0x3A <= basic && basic <= 0x45 {
        Some(SimKey::Function(basic - 0x3A + 1))
    } else {
        None
    }
}

fn push_action(plan: &mut Vec<KeyAction>, wanted: bool, key: SimKey, direction: Direction)
    ensures
        final(plan)@ == old(plan)@ + spec_action(wanted, key, direction),
{
    if wanted {
        plan.push(KeyAction { key, direction });
    }
    assert(plan@ =~= old(plan)@ + spec_action(wanted, key, direction));
}

/// The keystrokes to simulate for a keycode, in order.
pub fn simulate_qmk_keystroke(keycode: u16) -> (plan: Vec<KeyAction>)
    ensures
        plan@ == spec_keystrokes(keycode),
{
    let mods = high_byte(keycode);
    let basic = low_byte(keycode);
    let mut plan: Vec<KeyAction> = Vec::new();
    push_action(&mut plan, mods & MOD_CTRL_BITS != 0, SimKey::Control, Direction::Press);
    push_action(&mut plan, mods & MOD_SHIFT_BITS != 0, SimKey::Shift, Direction::Press);
    push_action(&mut plan, mods & MOD_ALT_BITS != 0, SimKey::Alt, Direction::Press);
    push_action(&mut plan, mods & MOD_GUI_BITS != 0, SimKey::Meta, Direction::Press);
    assert(plan@ =~= spec_presses(mods));
    match replay_key(basic) {
        Some(key) => plan.push(KeyAction { key, direction: Direction::Click }),
        None => {},
    }
    assert(plan@ =~= spec_presses(mods) + spec_click(basic));
    let ghost clicked = plan@;
    push_action(&mut plan, mods & MOD_GUI_BITS != 0, SimKey::Meta, Direction::Release);
    push_action(&mut plan, mods & MOD_ALT_BITS != 0, SimKey::Alt, Direction::Release);
    push_action(&mut plan, mods & MOD_SHIFT_BITS != 0, SimKey::Shift, Direction::Release);
    push_action(&mut plan, mods & MOD_CTRL_BITS != 0, SimKey::Control, Direction::Release);
    assert(plan@ =~= clicked + spec_releases(mods));
    plan
}

} // verus!
