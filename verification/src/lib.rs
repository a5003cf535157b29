//! Verified core of the Deck-8 hub: the soundboard's audio pipeline logic,
//! the keypad's wire protocol and the key/shortcut rules around them.

pub mod audio;
pub mod commands;
pub mod hid;
pub mod keycodes;
pub mod profile;
pub mod protocol;
pub mod replay;
pub mod shortcuts;
pub mod state;
pub mod text;
