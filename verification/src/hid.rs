//! Talking to the keypad over raw HID, without the I/O: which interface is
//! the keypad's, how reports are framed, which reports a command sends and
//! what a response means.

use vstd::prelude::*;
use crate::protocol::{
    build_disable_override,
    build_enable_override,
    build_get_keyboard_value,
    build_get_keycode,
    build_get_layer_count,
    build_get_protocol_version,
    build_macro_get_buffer_size,
    build_macro_get_count,
    build_rgb_get_value,
    build_set_brightness,
    build_set_color,
    key_index_to_matrix,
    spec_report,
    spec_high_byte,
    spec_low_byte,
    spec_be_bytes,
    DeviceInfo,
    HsvColor,
    RgbMatrixState,
    CMD_ENABLE_OVERRIDE,
    CMD_SET_BRIGHTNESS,
    CMD_SET_COLOR,
    CUSTOM_CHANNEL,
    KB_VALUE_FIRMWARE_VERSION,
    KB_VALUE_UPTIME,
    LAYER,
    PID,
    RGB_MATRIX_CHANNEL,
    RGB_VAL_BRIGHTNESS,
    RGB_VAL_COLOR,
    RGB_VAL_EFFECT,
    RGB_VAL_EFFECT_SPEED,
    USAGE_ID,
    USAGE_PAGE,
    VIA_CUSTOM_GET_VALUE,
    VIA_DYNAMIC_KEYMAP_GET,
    VIA_GET_KEYBOARD_VALUE,
    VIA_GET_LAYER_COUNT,
    VIA_GET_PROTOCOL_VERSION,
    VIA_MACRO_GET_BUFFER_SIZE,
    VIA_MACRO_GET_COUNT,
    VID,
};
use crate::state::KeyConfig;

verus! {

/// How long to wait for a response, in milliseconds.
pub const RESPONSE_TIMEOUT_MS: i32 = 500;

/// Why a device operation failed.
#[derive(Debug, Clone, Copy, PartialEq, Eq, Structural)]
pub enum HidError {
    /// The HID subsystem could not be initialised.
    InitFailed,
    /// No interface with the keypad's ids is attached.
    NotFound,
    /// The keypad's interface could not be opened.
    OpenFailed,
    /// A report could not be written.
    WriteFailed,
    /// A response could not be read.
    ReadFailed,
    /// No response arrived in time.
    TimedOut,
    /// No device is connected.
    NotConnected,
}

impl HidError {
    pub open spec fn spec_message(self) -> Seq<char> {
        match self {
            HidError::InitFailed => "Failed to initialize HID API"@,
            HidError::NotFound => "Deck-8 not found (VID/PID/Usage mismatch)"@,
            HidError::OpenFailed => "Failed to open Deck-8 HID device"@,
            HidError::WriteFailed => "Failed to write HID report"@,
            HidError::ReadFailed => "Failed to read HID response"@,
            HidError::TimedOut => "HID read timed out"@,
            HidError::NotConnected => "Not connected"@,
        }
    }

    /// The failure in words, for the user.
    pub fn message(&self) -> (text: &'static str)
        ensures
            text@ == self.spec_message(),
    {
        match self {
            HidError::InitFailed => "Failed to initialize HID API",
            HidError::NotFound => "Deck-8 not found (VID/PID/Usage mismatch)",
            HidError::OpenFailed => "Failed to open Deck-8 HID device",
            HidError::WriteFailed => "Failed to write HID report",
            HidError::ReadFailed => "Failed to read HID response",
            HidError::TimedOut => "HID read timed out",
            HidError::NotConnected => "Not connected",
        }
    }
}

/// The ids of one enumerated HID interface.
#[derive(Debug, Clone, Copy, PartialEq, Eq, Structural)]
pub struct HidInterface {
    pub vendor_id: u16,
    pub product_id: u16,
    pub usage_page: u16,
    pub usage: u16,
}

impl HidInterface {
    /// Whether this is the keypad's raw HID interface.
    pub open spec fn spec_is_deck8(self) -> bool {
        self.vendor_id == VID && self.product_id == PID && self.usage_page == USAGE_PAGE
            && self.usage == USAGE_ID
    }

    pub fn is_deck8(&self) -> (r: bool)
        ensures
            r == self.spec_is_deck8(),
    {
        self.vendor_id == VID && self.product_id == PID && self.usage_page == USAGE_PAGE
            && self.usage == USAGE_ID
    }
}

/// Picks the keypad among the enumerated interfaces: the first one with
/// its ids. Fails with `NotFound` exactly when there is none.
pub fn open(interfaces: &Vec<HidInterface>) -> (r: Result<usize, HidError>)
    ensures
        match r {
            Ok(index) => {
                &&& index < interfaces@.len()
                &&& interfaces@[index as int].spec_is_deck8()
                &&& forall|j: int| 0 <= j < index ==> !(#[trigger] interfaces@[j]).spec_is_deck8()
            },
            Err(e) => e == HidError::NotFound && forall|j: int|
                0 <= j < interfaces@.len() ==> !(#[trigger] interfaces@[j]).spec_is_deck8(),
        },
{
    let mut i: usize = 0;
    while i < interfaces.len()
        invariant
            0 <= i <= interfaces.len(),
            forall|j: int| 0 <= j < i ==> !(#[trigger] interfaces@[j]).spec_is_deck8(),
        decreases interfaces.len() - i,
    {
        if interfaces[i].is_deck8() {
            return Ok(i);
        }
        i = i + 1;
    }
    Err(HidError::NotFound)
}

/// The bytes written for a report: report id zero, then the report.
pub open spec fn spec_framed(report: Seq<u8>) -> Seq<u8> {
    seq![0u8] + report
}

/// Frames a report for writing.
pub fn send_report(report: &[u8; 32]) -> (framed: [u8; 33])
    ensures
        framed@ == spec_framed(report@),
{
    let mut framed = [0u8;33];
    let mut i: usize = 0;
    while i < 32
        invariant
            0 <= i <= 32,
            framed@.len() == 33,
            framed@[0] == 0,
            forall|j: int| 0 <= j < i ==> framed@[j + 1] == report@[j],
        decreases 32 - i,
    {
        framed[i + 1] = report[i];
        i = i + 1;
    }
    assert(framed@ =~= spec_framed(report@));
    framed
}

/// Judges a timed read that filled `buf` with `count` bytes: no byte at
/// all means the device did not answer in time.
pub fn read_response(buf: [u8; 32], count: usize) -> (r: Result<[u8; 32], HidError>)
    ensures
        count == 0 ==> r == Err::<[u8; 32], HidError>(HidError::TimedOut),
        count > 0 ==> r == Ok::<[u8; 32], HidError>(buf),
{
    if count == 0 {
        Err(HidError::TimedOut)
    } else {
        Ok(buf)
    }
}

/// The 16-bit value with these bytes, most significant first.
pub open spec fn spec_u16_from_be(hi: u8, lo: u8) -> u16 {
    (hi * 256 + lo) as u16
}

/// The 32-bit value with these bytes, most significant first.
pub open spec fn spec_u32_from_be(b0: u8, b1: u8, b2: u8, b3: u8) -> u32 {
    (b0 * 0x100_0000 + b1 * 0x1_0000 + b2 * 0x100 + b3) as u32
}

pub fn u16_from_be(hi: u8, lo: u8) -> (value: u16)
    ensures
        value == spec_u16_from_be(hi, lo),
{
    let h = hi as u16;
    let l = lo as u16;
    assert(((h << 8) | l) == h * 256 + l) by (bit_vector)
        requires
            h <= 255,
            l <= 255,
    ;
    (h << 8) | l
}

pub fn u32_from_be(b0: u8, b1: u8, b2: u8, b3: u8) -> (value: u32)
    ensures
        value == spec_u32_from_be(b0, b1, b2, b3),
{
    let a = b0 as u32;
    let b = b1 as u32;
    let c = b2 as u32;
    let d = b3 as u32;
    assert(((a << 24) | (b << 16) | (c << 8) | d) == a * 0x100_0000 + b * 0x1_0000 + c * 0x100 + d)
        by (bit_vector)
        requires
            a <= 255,
            b <= 255,
            c <= 255,
            d <= 255,
    ;
    (a << 24) | (b << 16) | (c << 8) | d
}

/// Splitting a value into bytes and joining them again gives the value.
pub proof fn lemma_bytes_round_trip(short: u16, long: u32)
    ensures
        spec_u16_from_be(spec_high_byte(short), spec_low_byte(short)) == short,
        spec_u32_from_be(
            spec_be_bytes(long)[0],
            spec_be_bytes(long)[1],
            spec_be_bytes(long)[2],
            spec_be_bytes(long)[3],
        ) == long,
{
}

/// The keycode in the response to a keycode query.
pub fn get_keycode(response: &[u8; 32]) -> (keycode: u16)
    ensures
        keycode == spec_u16_from_be(response@[4], response@[5]),
{
    u16_from_be(response[4], response[5])
}

/// The version in the response to a protocol version query.
pub fn get_protocol_version(response: &[u8; 32]) -> (version: u16)
    ensures
        version == spec_u16_from_be(response@[1], response@[2]),
{
    u16_from_be(response[1], response[2])
}

/// The value in the response to a keyboard value query.
pub fn get_keyboard_value(response: &[u8; 32]) -> (value: u32)
    ensures
        value == spec_u32_from_be(response@[2], response@[3], response@[4], response@[5]),
{
    u32_from_be(response[2], response[3], response[4], response[5])
}

/// The uptime in seconds in the response to an uptime query.
pub fn get_uptime(response: &[u8; 32]) -> (uptime: u32)
    ensures
        uptime == spec_u32_from_be(response@[2], response@[3], response@[4], response@[5]),
{
    get_keyboard_value(response)
}

/// The packed version in the response to a firmware version query.
pub fn get_firmware_version(response: &[u8; 32]) -> (version: u32)
    ensures
        version == spec_u32_from_be(response@[2], response@[3], response@[4], response@[5]),
{
    get_keyboard_value(response)
}

/// The size in the response to a macro buffer size query.
pub fn get_macro_buffer_size(response: &[u8; 32]) -> (size: u16)
    ensures
        size == spec_u16_from_be(response@[1], response@[2]),
{
    u16_from_be(response[1], response[2])
}

/// The queries that together read the device's facts, in the order their
/// responses are expected by `get_device_info`.
pub fn device_info_queries() -> (queries: [[u8; 32]; 6])
    ensures
        queries@[0]@ == spec_report(seq![VIA_GET_PROTOCOL_VERSION]),
        queries@[1]@ == spec_report(seq![VIA_GET_KEYBOARD_VALUE, KB_VALUE_FIRMWARE_VERSION]),
        queries@[2]@ == spec_report(seq![VIA_GET_KEYBOARD_VALUE, KB_VALUE_UPTIME]),
        queries@[3]@ == spec_report(seq![VIA_GET_LAYER_COUNT]),
        queries@[4]@ == spec_report(seq![VIA_MACRO_GET_COUNT]),
        queries@[5]@ == spec_report(seq![VIA_MACRO_GET_BUFFER_SIZE]),
{
    [
        build_get_protocol_version(),
        build_get_keyboard_value(KB_VALUE_FIRMWARE_VERSION),
        build_get_keyboard_value(KB_VALUE_UPTIME),
        build_get_layer_count(),
        build_macro_get_count(),
        build_macro_get_buffer_size(),
    ]
}

/// The device's facts, read from the responses to `device_info_queries`.
pub fn get_device_info(responses: &[[u8; 32]; 6]) -> (info: DeviceInfo)
    ensures
        info == (DeviceInfo {
            protocol_version: spec_u16_from_be(responses@[0]@[1], responses@[0]@[2]),
            firmware_version: spec_u32_from_be(
                responses@[1]@[2],
                responses@[1]@[3],
                responses@[1]@[4],
                responses@[1]@[5],
            ),
            uptime: spec_u32_from_be(
                responses@[2]@[2],
                responses@[2]@[3],
                responses@[2]@[4],
                responses@[2]@[5],
            ),
            layer_count: responses@[3]@[1],
            macro_count: responses@[4]@[1],
            macro_buffer_size: spec_u16_from_be(responses@[5]@[1], responses@[5]@[2]),
        }),
{
    DeviceInfo {
        protocol_version: get_protocol_version(&responses[0]),
        firmware_version: get_firmware_version(&responses[1]),
        uptime: get_uptime(&responses[2]),
        layer_count: responses[3][1],
        macro_count: responses[4][1],
        macro_buffer_size: get_macro_buffer_size(&responses[5]),
    }
}

/// The queries that together read the RGB matrix settings: brightness,
/// effect, speed, colour.
pub fn rgb_state_queries() -> (queries: [[u8; 32]; 4])
    ensures
        queries@[0]@ == spec_report(
            seq![VIA_CUSTOM_GET_VALUE, RGB_MATRIX_CHANNEL, RGB_VAL_BRIGHTNESS],
        ),
        queries@[1]@ == spec_report(seq![VIA_CUSTOM_GET_VALUE, RGB_MATRIX_CHANNEL, RGB_VAL_EFFECT]),
        queries@[2]@ == spec_report(
            seq![VIA_CUSTOM_GET_VALUE, RGB_MATRIX_CHANNEL, RGB_VAL_EFFECT_SPEED],
        ),
        queries@[3]@ == spec_report(seq![VIA_CUSTOM_GET_VALUE, RGB_MATRIX_CHANNEL, RGB_VAL_COLOR]),
{
    [
        build_rgb_get_value(RGB_VAL_BRIGHTNESS),
        build_rgb_get_value(RGB_VAL_EFFECT),
        build_rgb_get_value(RGB_VAL_EFFECT_SPEED),
        build_rgb_get_value(RGB_VAL_COLOR),
    ]
}

/// The RGB matrix settings, read from the responses to
/// `rgb_state_queries`.
pub fn rgb_get_state(responses: &[[u8; 32]; 4]) -> (state: RgbMatrixState)
    ensures
        state == (RgbMatrixState {
            brightness: responses@[0]@[3],
            effect: responses@[1]@[3],
            speed: responses@[2]@[3],
            color_h: responses@[3]@[3],
            color_s: responses@[3]@[4],
        }),
{
    RgbMatrixState {
        brightness: responses[0][3],
        effect: responses[1][3],
        speed: responses[2][3],
        color_h: responses[3][3],
        color_s: responses[3][4],
    }
}

/// The query for the keycode of one key on layer zero.
pub fn keycode_query(key_index: u8) -> (query: [u8; 32])
    ensures
        query@ == spec_report(
            seq![VIA_DYNAMIC_KEYMAP_GET, 0u8, (key_index / 4) as u8, (key_index % 4) as u8],
        ),
{
    let (row, col) = key_index_to_matrix(key_index);
    build_get_keycode(0, row, col)
}

/// The keycodes of all keys, read from the responses to the eight keycode
/// queries.
pub fn read_all_keycodes(responses: &[[u8; 32]; 8]) -> (keymaps: [u16; 8])
    ensures
        forall|k: int|
            0 <= k < 8 ==> keymaps@[k] == spec_u16_from_be(
                (#[trigger] responses@[k])@[4],
                responses@[k]@[5],
            ),
{
    let mut keymaps = [0u16;8];
    let mut i: usize = 0;
    while i < 8
        invariant
            0 <= i <= 8,
            forall|k: int|
                0 <= k < i ==> keymaps@[k] == spec_u16_from_be(
                    (#[trigger] responses@[k])@[4],
                    responses@[k]@[5],
                ),
        decreases 8 - i,
    {
        keymaps[i] = get_keycode(&responses[i]);
        i = i + 1;
    }
    keymaps
}

/// The reports that show a colour on a key: override on, then hue and
/// saturation, then brightness.
pub fn set_key_color(key_id: u8, color: &HsvColor) -> (reports: Vec<[u8; 32]>)
    ensures
        reports@.len() == 3,
        reports@[0]@ == spec_report(
            seq![CUSTOM_CHANNEL, 0u8, CMD_ENABLE_OVERRIDE, LAYER, key_id, 1u8],
        ),
        reports@[1]@ == spec_report(
            seq![CUSTOM_CHANNEL, 0u8, CMD_SET_COLOR, LAYER, key_id, color.h, color.s],
        ),
        reports@[2]@ == spec_report(
            seq![CUSTOM_CHANNEL, 0u8, CMD_SET_BRIGHTNESS, LAYER, key_id, color.v],
        ),
{
    let mut reports: Vec<[u8; 32]> = Vec::new();
    reports.push(build_enable_override(key_id));
    reports.push(build_set_color(key_id, color));
    reports.push(build_set_brightness(key_id, color.v));
    reports
}

/// Whether `reports` is what brings one key's LED in line with its
/// configuration: the active slot's colour where the override is on, and
/// the override switched off where it is not.
pub open spec fn spec_is_key_update(reports: Seq<[u8; 32]>, key_index: u8, key: KeyConfig) -> bool {
    if key.override_enabled {
        &&& reports.len() == 3
        &&& reports[0]@ == spec_report(
            seq![CUSTOM_CHANNEL, 0u8, CMD_ENABLE_OVERRIDE, LAYER, key_index, 1u8],
        )
        &&& reports[1]@ == spec_report(
            seq![
                CUSTOM_CHANNEL,
                0u8,
                CMD_SET_COLOR,
                LAYER,
                key_index,
                key.spec_active_color().h,
                key.spec_active_color().s,
            ],
        )
        &&& reports[2]@ == spec_report(
            seq![
                CUSTOM_CHANNEL,
                0u8,
                CMD_SET_BRIGHTNESS,
                LAYER,
                key_index,
                key.spec_active_color().v,
            ],
        )
    } else {
        &&& reports.len() == 1
        &&& reports[0]@ == spec_report(
            seq![CUSTOM_CHANNEL, 0u8, CMD_ENABLE_OVERRIDE, LAYER, key_index, 0u8],
        )
    }
}

/// The reports that bring one key's LED in line with its configuration.
pub fn apply_key_to_device(key_index: u8, key: &KeyConfig) -> (reports: Vec<[u8; 32]>)
    ensures
        spec_is_key_update(reports@, key_index, *key),
{
    if key.override_enabled {
        let color = key.active_color();
        set_key_color(key_index, &color)
    } else {
        let mut reports: Vec<[u8; 32]> = Vec::new();
        reports.push(build_disable_override(key_index));
        reports
    }
}

/// The reports that bring every key's LED in line with its configuration,
/// one run of reports per key, in key order.
pub fn apply_all_to_device(keys: &[KeyConfig; 8]) -> (updates: Vec<Vec<[u8; 32]>>)
    ensures
        updates@.len() == 8,
        forall|k: int|
            0 <= k < 8 ==> spec_is_key_update((#[trigger] updates@[k])@, k as u8, keys@[k]),
{
    let mut updates: Vec<Vec<[u8; 32]>> = Vec::new();
    let mut i: u8 = 0;
    while i < 8
        invariant
            0 <= i <= 8,
            updates@.len() == i,
            forall|k: int|
                0 <= k < i ==> spec_is_key_update((#[trigger] updates@[k])@, k as u8, keys@[k]),
        decreases 8 - i,
    {
        updates.push(apply_key_to_device(i, &keys[i as usize]));
        i = i + 1;
    }
    updates
}

} // verus!
