//! The keypad's wire protocol: 32-byte VIA reports, built here and parsed
//! here. Sending and receiving them is the caller's business.

use vstd::prelude::*;

verus! {

/// USB vendor and product id of the keypad.
pub const VID: u16 = 0xCBBC;

pub const PID: u16 = 0xC101;

/// HID usage page and usage id of the raw HID interface.
pub const USAGE_PAGE: u16 = 0xFF60;

pub const USAGE_ID: u16 = 0x61;


pub const VIA_GET_PROTOCOL_VERSION: u8 = 0x01;

pub const VIA_GET_KEYBOARD_VALUE: u8 = 0x02;

pub const VIA_SET_KEYBOARD_VALUE: u8 = 0x03;

pub const VIA_DYNAMIC_KEYMAP_GET: u8 = 0x04;

pub const VIA_DYNAMIC_KEYMAP_SET: u8 = 0x05;

pub const VIA_DYNAMIC_KEYMAP_RESET: u8 = 0x06;

pub const VIA_CUSTOM_GET_VALUE: u8 = 0x08;

pub const VIA_CUSTOM_SAVE: u8 = 0x09;

pub const VIA_EEPROM_RESET: u8 = 0x0A;

pub const VIA_BOOTLOADER_JUMP: u8 = 0x0B;

pub const VIA_MACRO_GET_COUNT: u8 = 0x0C;

pub const VIA_MACRO_GET_BUFFER_SIZE: u8 = 0x0D;

pub const VIA_MACRO_RESET: u8 = 0x10;

pub const VIA_GET_LAYER_COUNT: u8 = 0x11;

pub const KB_VALUE_UPTIME: u8 = 0x01;

pub const KB_VALUE_LAYOUT_OPTIONS: u8 = 0x02;

pub const KB_VALUE_FIRMWARE_VERSION: u8 = 0x04;

pub const KB_VALUE_DEVICE_INDICATION: u8 = 0x05;

/// Command byte of the custom channel.
pub const CUSTOM_CHANNEL: u8 = 0x07;

pub const CMD_ENABLE_OVERRIDE: u8 = 0x01;

pub const CMD_SET_BRIGHTNESS: u8 = 0x02;

pub const CMD_SET_COLOR: u8 = 0x03;

/// Channel id of the RGB matrix.
pub const RGB_MATRIX_CHANNEL: u8 = 0x03;

pub const RGB_VAL_BRIGHTNESS: u8 = 0x01;

pub const RGB_VAL_EFFECT: u8 = 0x02;

pub const RGB_VAL_EFFECT_SPEED: u8 = 0x03;

pub const RGB_VAL_COLOR: u8 = 0x04;

pub const LAYER: u8 = 0x00;

#[derive(Debug, Clone, Copy, PartialEq, Eq, Structural)]
pub struct HsvColor {
    pub h: u8,
    pub s: u8,
    pub v: u8,
}

impl Default for HsvColor {
    fn default() -> (color: Self)
        ensures
            color == (HsvColor { h: 0, s: 0, v: 120 }),
    {
        HsvColor { h: 0, s: 0, v: 120 }
    }
}

#[derive(Debug, Clone, Copy, PartialEq, Eq, Structural)]
pub struct DeviceInfo {
    pub protocol_version: u16,
    pub firmware_version: u32,
    pub uptime: u32,
    pub layer_count: u8,
    pub macro_count: u8,
    pub macro_buffer_size: u16,
}

#[derive(Debug, Clone, Copy, PartialEq, Eq, Structural)]
pub struct RgbMatrixState {
    pub brightness: u8,
    pub effect: u8,
    pub speed: u8,
    pub color_h: u8,
    pub color_s: u8,
}

/// A report that starts with `head` and is zero from there on.
pub open spec fn spec_report(head: Seq<u8>) -> Seq<u8> {
    Seq::new(
        32,
        |i: int|
            if i < head.len() {
                head[i]
            } else {
                0u8
            },
    )
}

/// The more significant byte of a 16-bit value.
pub open spec fn spec_high_byte(value: u16) -> u8 {
    (value / 256) as u8
}

/// The less significant byte of a 16-bit value.
pub open spec fn spec_low_byte(value: u16) -> u8 {
    (value % 256) as u8
}

/// The bytes of a 32-bit value, most significant first.
pub open spec fn spec_be_bytes(value: u32) -> Seq<u8> {
    seq![
        (value / 0x100_0000) as u8,
        ((value / 0x1_0000) % 256) as u8,
        ((value / 0x100) % 256) as u8,
        (value % 256) as u8,
    ]
}

pub fn high_byte(value: u16) -> (byte: u8)
    ensures
        byte == spec_high_byte(value),
{
    assert((value >> 8) == value / 256 && (value >> 8) <= 255) by (bit_vector);
    (value >> 8) as u8
}

pub fn low_byte(value: u16) -> (byte: u8)
    ensures
        byte == spec_low_byte(value),
{
    assert((value & 0xFF) == value % 256 && (value & 0xFF) <= 255) by (bit_vector);
    (value & 0xFF) as u8
}

/// Splits a 32-bit value into bytes, most significant first.
pub fn be_bytes(value: u32) -> (bytes: [u8; 4])
    ensures
        bytes@ == spec_be_bytes(value),
{
    assert((value >> 24) == value / 0x100_0000 && (value >> 24) <= 255) by (bit_vector);
    assert(((value >> 16) & 0xFF) == (value / 0x1_0000) % 256 && ((value >> 16) & 0xFF) <= 255)
        by (bit_vector);
    assert(((value >> 8) & 0xFF) == (value / 0x100) % 256 && ((value >> 8) & 0xFF) <= 255)
        by (bit_vector);
    assert((value & 0xFF) == value % 256 && (value & 0xFF) <= 255) by (bit_vector);
    let bytes = [
        (value >> 24) as u8,
        ((value >> 16) & 0xFF) as u8,
        ((value >> 8) & 0xFF) as u8,
        (value & 0xFF) as u8,
    ];
    assert(bytes@ =~= spec_be_bytes(value));
    bytes
}

/// The matrix position of a key: four keys to a row.
pub fn key_index_to_matrix(key_index: u8) -> (pos: (u8, u8))
    ensures
        pos.0 == key_index / 4,
        pos.1 == key_index % 4,
{
    (key_index / 4, key_index % 4)
}

/// Sets hue and saturation of one key's LED.
pub fn build_set_color(key_id: u8, color: &HsvColor) -> (buf: [u8; 32])
    ensures
        buf@ == spec_report(seq![CUSTOM_CHANNEL, 0u8, CMD_SET_COLOR, LAYER, key_id, color.h, color.s]),
{
    let mut buf = [0u8;32];
    buf[0] = CUSTOM_CHANNEL;
    buf[1] = 0u8;
    buf[2] = CMD_SET_COLOR;
    buf[3] = LAYER;
    buf[4] = key_id;
    buf[5] = color.h;
    buf[6] = color.s;
    assert(buf@ =~= spec_report(seq![CUSTOM_CHANNEL, 0u8, CMD_SET_COLOR, LAYER, key_id, color.h, color.s]));
    buf
}

/// Sets the brightness of one key's LED.
pub fn build_set_brightness(key_id: u8, brightness: u8) -> (buf: [u8; 32])
    ensures
        buf@ == spec_report(seq![CUSTOM_CHANNEL, 0u8, CMD_SET_BRIGHTNESS, LAYER, key_id, brightness]),
{
    let mut buf = [0u8;32];
    buf[0] = CUSTOM_CHANNEL;
    buf[1] = 0u8;
    buf[2] = CMD_SET_BRIGHTNESS;
    buf[3] = LAYER;
    buf[4] = key_id;
    buf[5] = brightness;
    assert(buf@ =~= spec_report(seq![CUSTOM_CHANNEL, 0u8, CMD_SET_BRIGHTNESS, LAYER, key_id, brightness]));
    buf
}

/// Turns the per-key colour override of one key on.
pub fn build_enable_override(key_id: u8) -> (buf: [u8; 32])
    ensures
        buf@ == spec_report(seq![CUSTOM_CHANNEL, 0u8, CMD_ENABLE_OVERRIDE, LAYER, key_id, 1u8]),
{
    let mut buf = [0u8;32];
    buf[0] = CUSTOM_CHANNEL;
    buf[1] = 0u8;
    buf[2] = CMD_ENABLE_OVERRIDE;
    buf[3] = LAYER;
    buf[4] = key_id;
    buf[5] = 1u8;
    assert(buf@ =~= spec_report(seq![CUSTOM_CHANNEL, 0u8, CMD_ENABLE_OVERRIDE, LAYER, key_id, 1u8]));
    buf
}

/// Turns the per-key colour override of one key off.
pub fn build_disable_override(key_id: u8) -> (buf: [u8; 32])
    ensures
        buf@ == spec_report(seq![CUSTOM_CHANNEL, 0u8, CMD_ENABLE_OVERRIDE, LAYER, key_id, 0u8]),
{
    let mut buf = [0u8;32];
    buf[0] = CUSTOM_CHANNEL;
    buf[1] = 0u8;
    buf[2] = CMD_ENABLE_OVERRIDE;
    buf[3] = LAYER;
    buf[4] = key_id;
    buf[5] = 0u8;
    assert(buf@ =~= spec_report(seq![CUSTOM_CHANNEL, 0u8, CMD_ENABLE_OVERRIDE, LAYER, key_id, 0u8]));
    buf
}

/// Asks for the keycode at a matrix position.
pub fn build_get_keycode(layer: u8, row: u8, col: u8) -> (buf: [u8; 32])
    ensures
        buf@ == spec_report(seq![VIA_DYNAMIC_KEYMAP_GET, layer, row, col]),
{
    let mut buf = [0u8;32];
    buf[0] = VIA_DYNAMIC_KEYMAP_GET;
    buf[1] = layer;
    buf[2] = row;
    buf[3] = col;
    assert(buf@ =~= spec_report(seq![VIA_DYNAMIC_KEYMAP_GET, layer, row, col]));
    buf
}

/// Writes a keycode to a matrix position; the keycode travels most
/// significant byte first.
pub fn build_set_keycode(layer: u8, row: u8, col: u8, keycode: u16) -> (buf: [u8; 32])
    ensures
        buf@ == spec_report(
            seq![
                VIA_DYNAMIC_KEYMAP_SET,
                layer,
                row,
                col,
                spec_high_byte(keycode),
                spec_low_byte(keycode),
            ],
        ),
{
    let mut buf = [0u8;32];
    buf[0] = VIA_DYNAMIC_KEYMAP_SET;
    buf[1] = layer;
    buf[2] = row;
    buf[3] = col;
    buf[4] = high_byte(keycode);
    buf[5] = low_byte(keycode);
    assert(buf@ =~= spec_report(
        seq![
            VIA_DYNAMIC_KEYMAP_SET,
            layer,
            row,
            col,
            spec_high_byte(keycode),
            spec_low_byte(keycode),
        ],
    ));
    buf
}

pub fn build_get_protocol_version() -> (buf: [u8; 32])
    ensures
        buf@ == spec_report(seq![VIA_GET_PROTOCOL_VERSION]),
{
    let mut buf = [0u8;32];
    buf[0] = VIA_GET_PROTOCOL_VERSION;
    assert(buf@ =~= spec_report(seq![VIA_GET_PROTOCOL_VERSION]));
    buf
}

pub fn build_get_keyboard_value(sub_id: u8) -> (buf: [u8; 32])
    ensures
        buf@ == spec_report(seq![VIA_GET_KEYBOARD_VALUE, sub_id]),
{
    let mut buf = [0u8;32];
    buf[0] = VIA_GET_KEYBOARD_VALUE;
    buf[1] = sub_id;
    assert(buf@ =~= spec_report(seq![VIA_GET_KEYBOARD_VALUE, sub_id]));
    buf
}

/// Sets a keyboard value; the value travels most significant byte first.
pub fn build_set_keyboard_value(sub_id: u8, value: u32) -> (buf: [u8; 32])
    ensures
        buf@ == spec_report(seq![VIA_SET_KEYBOARD_VALUE, sub_id] + spec_be_bytes(value)),
{
    let bytes = be_bytes(value);
    let mut buf = [0u8;32];
    buf[0] = VIA_SET_KEYBOARD_VALUE;
    buf[1] = sub_id;
    buf[2] = bytes[0];
    buf[3] = bytes[1];
    buf[4] = bytes[2];
    buf[5] = bytes[3];
    assert(buf@ =~= spec_report(seq![VIA_SET_KEYBOARD_VALUE, sub_id] + spec_be_bytes(value)));
    buf
}

pub fn build_dynamic_keymap_reset() -> (buf: [u8; 32])
    ensures
        buf@ == spec_report(seq![VIA_DYNAMIC_KEYMAP_RESET]),
{
    let mut buf = [0u8;32];
    buf[0] = VIA_DYNAMIC_KEYMAP_RESET;
    assert(buf@ =~= spec_report(seq![VIA_DYNAMIC_KEYMAP_RESET]));
    buf
}

pub fn build_eeprom_reset() -> (buf: [u8; 32])
    ensures
        buf@ == spec_report(seq![VIA_EEPROM_RESET]),
{
    let mut buf = [0u8;32];
    buf[0] = VIA_EEPROM_RESET;
    assert(buf@ =~= spec_report(seq![VIA_EEPROM_RESET]));
    buf
}

pub fn build_bootloader_jump() -> (buf: [u8; 32])
    ensures
        buf@ == spec_report(seq![VIA_BOOTLOADER_JUMP]),
{
    let mut buf = [0u8;32];
    buf[0] = VIA_BOOTLOADER_JUMP;
    assert(buf@ =~= spec_report(seq![VIA_BOOTLOADER_JUMP]));
    buf
}

pub fn build_macro_get_count() -> (buf: [u8; 32])
    ensures
        buf@ == spec_report(seq![VIA_MACRO_GET_COUNT]),
{
    let mut buf = [0u8;32];
    buf[0] = VIA_MACRO_GET_COUNT;
    assert(buf@ =~= spec_report(seq![VIA_MACRO_GET_COUNT]));
    buf
}

pub fn build_macro_get_buffer_size() -> (buf: [u8; 32])
    ensures
        buf@ == spec_report(seq![VIA_MACRO_GET_BUFFER_SIZE]),
{
    let mut buf = [0u8;32];
    buf[0] = VIA_MACRO_GET_BUFFER_SIZE;
    assert(buf@ =~= spec_report(seq![VIA_MACRO_GET_BUFFER_SIZE]));
    buf
}

pub fn build_macro_reset() -> (buf: [u8; 32])
    ensures
        buf@ == spec_report(seq![VIA_MACRO_RESET]),
{
    let mut buf = [0u8;32];
    buf[0] = VIA_MACRO_RESET;
    assert(buf@ =~= spec_report(seq![VIA_MACRO_RESET]));
    buf
}

pub fn build_get_layer_count() -> (buf: [u8; 32])
    ensures
        buf@ == spec_report(seq![VIA_GET_LAYER_COUNT]),
{
    let mut buf = [0u8;32];
    buf[0] = VIA_GET_LAYER_COUNT;
    assert(buf@ =~= spec_report(seq![VIA_GET_LAYER_COUNT]));
    buf
}

pub fn build_rgb_get_value(value_id: u8) -> (buf: [u8; 32])
    ensures
        buf@ == spec_report(seq![VIA_CUSTOM_GET_VALUE, RGB_MATRIX_CHANNEL, value_id]),
{
    let mut buf = [0u8;32];
    buf[0] = VIA_CUSTOM_GET_VALUE;
    buf[1] = RGB_MATRIX_CHANNEL;
    buf[2] = value_id;
    assert(buf@ =~= spec_report(seq![VIA_CUSTOM_GET_VALUE, RGB_MATRIX_CHANNEL, value_id]));
    buf
}

pub fn build_rgb_set_value_u8(value_id: u8, val: u8) -> (buf: [u8; 32])
    ensures
        buf@ == spec_report(seq![CUSTOM_CHANNEL, RGB_MATRIX_CHANNEL, value_id, val]),
{
    let mut buf = [0u8;32];
    buf[0] = CUSTOM_CHANNEL;
    buf[1] = RGB_MATRIX_CHANNEL;
    buf[2] = value_id;
    buf[3] = val;
    assert(buf@ =~= spec_report(seq![CUSTOM_CHANNEL, RGB_MATRIX_CHANNEL, value_id, val]));
    buf
}

pub fn build_rgb_set_color(h: u8, s: u8) -> (buf: [u8; 32])
    ensures
        buf@ == spec_report(seq![CUSTOM_CHANNEL, RGB_MATRIX_CHANNEL, RGB_VAL_COLOR, h, s]),
{
    let mut buf = [0u8;32];
    buf[0] = CUSTOM_CHANNEL;
    buf[1] = RGB_MATRIX_CHANNEL;
    buf[2] = RGB_VAL_COLOR;
    buf[3] = h;
    buf[4] = s;
    assert(buf@ =~= spec_report(seq![CUSTOM_CHANNEL, RGB_MATRIX_CHANNEL, RGB_VAL_COLOR, h, s]));
    buf
}

/// Saves the RGB matrix settings to EEPROM.
pub fn build_rgb_save() -> (buf: [u8; 32])
    ensures
        buf@ == spec_report(seq![VIA_CUSTOM_SAVE, RGB_MATRIX_CHANNEL]),
{
    let mut buf = [0u8;32];
    buf[0] = VIA_CUSTOM_SAVE;
    buf[1] = RGB_MATRIX_CHANNEL;
    assert(buf@ =~= spec_report(seq![VIA_CUSTOM_SAVE, RGB_MATRIX_CHANNEL]));
    buf
}

/// Saves the per-key overrides to EEPROM; they live in channel zero.
pub fn build_custom_save() -> (buf: [u8; 32])
    ensures
        buf@ == spec_report(seq![VIA_CUSTOM_SAVE, 0u8]),
{
    let mut buf = [0u8;32];
    buf[0] = VIA_CUSTOM_SAVE;
    buf[1] = 0u8;
    assert(buf@ =~= spec_report(seq![VIA_CUSTOM_SAVE, 0u8]));
    buf
}

} // verus!
