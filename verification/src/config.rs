//! Configuration data: flash layout, storage keys, inputs, outputs,
//! mapping modes and profiles, and the text names they are configured by.

use vstd::prelude::*;

use crate::collections::{
    input_set_items, mapping_list_items, nickname_text, output_sequence_items,
    pin_remapping_list_items, profile_list_items, InputSet, MappingList, Nickname,
    OutputSequence, PinRemappingList, ProfileList,
};
use crate::text::{
    utf8_len, chars_equal, chars_of, decimal_text, digit_char, extend_chars, is_text, parse_i16, parse_u16,
    parse_u8, parsed_i16, parsed_u16, parsed_u8, small_decimal, lemma_integer_text_reads_back, integer_text,
};

verus! {

/// Address at which the RP2040 maps its flash.
pub const RP2040_FLASH_OFFSET: usize = 0x10000000;

/// Flash size of a Raspberry Pi Pico (2 MiB).
pub const PICO_FLASH_SIZE: usize = 1024 * 1024 * 2;

pub const FIRMWARE_OFFSET: usize = 0;

pub const FIRMWARE_SIZE: usize = 1024 * 1024;

pub const CONFIG_OFFSET: usize = 1024 * 1024;

/// How much space in flash is available for storing config (handed to the
/// map storage for wear leveling).
pub const CONFIG_AVAILABLE_SIZE: usize = 1024 * 1024;

/// Flash is written in blocks of this many bytes.
pub const FLASH_BLOCK_SIZE: usize = 4096;

/// Upper bound on the serialized size of a single `Meta` (postcard format).
pub const META_SERIALIZED_SIZE: usize = 256;

/// Upper bound on the serialized size of a single `Profile` (postcard format).
pub const PROFILE_SERIALIZED_SIZE: usize = 4096;

/// Buffer size for the COBS accumulator of protocol messages.
pub const COBS_ACCUMULATOR_SIZE: usize = PROFILE_SERIALIZED_SIZE + 64;

pub const MAX_PROFILES: usize = 2;

pub const MAX_NICKNAME_LEN: usize = 50;

pub const MAX_PIN_REMAPPINGS: usize = 20;

pub const MAX_MAPPINGS: usize = 84;

pub const MAX_COMPUTER_INPUTS: usize = 5;

pub const MAX_RUKEY_INPUTS: usize = 4;

/// The flash range (offsets within flash) holding the config.
pub fn config_flash_range() -> (r: core::ops::Range<u32>)
    ensures
        r.start == CONFIG_OFFSET,
        r.end == CONFIG_OFFSET + CONFIG_AVAILABLE_SIZE,
{
    1048576u32..2097152u32
}

/// The config region starts and ends on writable flash block boundaries, lies
/// after the firmware region and inside the Pico's flash.
pub proof fn assert_config_size_fits_into_writable_flash_blocks()
    ensures
        CONFIG_OFFSET % FLASH_BLOCK_SIZE == 0,
        CONFIG_AVAILABLE_SIZE % FLASH_BLOCK_SIZE == 0,
        FIRMWARE_OFFSET + FIRMWARE_SIZE <= CONFIG_OFFSET,
        CONFIG_OFFSET + CONFIG_AVAILABLE_SIZE <= PICO_FLASH_SIZE,
{
}

/// Key of an item in the config map storage; each variant is a distinct item.
#[derive(Debug, Clone, Copy, PartialEq, Eq, Structural)]
pub enum ConfigKey {
    /// Device metadata (everything except profiles)
    Meta,
    /// A single profile at the given index
    Profile(u8),
    /// The number of stored profiles (u8 stored as a single byte)
    ProfileCount,
}

impl ConfigKey {
    /// The byte that identifies this item in storage.
    pub open spec fn key_value(self) -> int {
        match self {
            ConfigKey::Meta => 0,
            ConfigKey::ProfileCount => 1,
            ConfigKey::Profile(n) => 2 + n,
        }
    }

    /// Whether the key's byte fits in a `u8`.
    pub open spec fn has_key(self) -> bool {
        self matches ConfigKey::Profile(n) ==> n <= 253
    }

    /// Returns the u8 value used as the key in the map storage.
    pub fn key(&self) -> (r: u8)
        requires
            self.has_key(),
        ensures
            r == self.key_value(),
    {
        match self {
            ConfigKey::Meta => 0,
            ConfigKey::ProfileCount => 1,
            ConfigKey::Profile(n) => 2 + *n,
        }
    }
}

/// Distinct config items are stored under distinct keys.
pub proof fn lemma_config_keys_are_distinct(a: ConfigKey, b: ConfigKey)
    requires
        a.has_key(),
        b.has_key(),
        a != b,
    ensures
        a.key_value() != b.key_value(),
{
}

#[derive(Debug, Clone, Copy, PartialEq, Eq, Structural)]
pub enum Device {
    Rukey,
}

impl Default for Device {
    fn default() -> (r: Device)
        ensures
            r == Device::Rukey,
    {
        Device::Rukey
    }
}

#[derive(Debug, Clone, Copy, PartialEq, Eq, Structural)]
pub struct PinRemapping {
    pub input: RukeyInput,
    pub pin: u32,
}

impl Default for PinRemapping {
    fn default() -> (r: PinRemapping)
        ensures
            r == (PinRemapping { input: RukeyInput::Row0Col0, pin: 0 }),
    {
        PinRemapping { input: RukeyInput::Row0Col0, pin: 0 }
    }
}

/// How a mapping's output sequence is started and terminated.
#[derive(Debug, Clone, Copy, PartialEq, Eq, Structural)]
pub enum MappingMode {
    /// The output_sequence is triggered on input_set press.
    /// The output_sequence is terminated on input_set release or the output_sequence reaches its end.
    OnPress,
    /// The output_sequence is triggered on an input_set hold that lasts longer than hold_ms.
    /// The output_sequence is terminated on input_set release or the output_sequence reaches its end.
    OnHold { hold_ms: u16 },
    /// The output_sequence is triggered on an input_set press.
    /// The output_sequence is terminated on the next input_set press.
    Toggle,
    /// The output_sequence is triggered on input_set press.
    /// The output_sequence is terminated when the output_sequence reaches its end;
    /// input_set events that occur while the output_sequence is still running have no effect.
    MacroOnPress,
    /// The output_sequence is triggered on input_set release.
    /// The output_sequence is terminated when the output_sequence reaches its end.
    MacroOnRelease,
    /// The output_sequence is triggered when an input_set press and then release occur within tap_ms.
    /// The output_sequence is terminated when the output_sequence reaches its end.
    MacroOnTap { tap_ms: u16 },
    /// The output_sequence is triggered when an input_set press, release, press and release occur
    /// within tap_ms of each other. The output_sequence is terminated when it reaches its end.
    MacroOnDoubleTap { tap_ms: u16 },
    /// The output_sequence is triggered on an input_set hold that lasts longer than hold_ms.
    /// The output_sequence is terminated when the output_sequence reaches its end.
    MacroOnHold { hold_ms: u16 },
}

impl Default for MappingMode {
    fn default() -> (r: MappingMode)
        ensures
            r == MappingMode::OnPress,
    {
        MappingMode::OnPress
    }
}

/// The modes whose output sequence runs to its end once started.
pub open spec fn mode_is_macro(m: MappingMode) -> bool {
    match m {
        MappingMode::MacroOnPress => true,
        MappingMode::MacroOnRelease => true,
        MappingMode::MacroOnTap { .. } => true,
        MappingMode::MacroOnDoubleTap { .. } => true,
        MappingMode::MacroOnHold { .. } => true,
        _ => false,
    }
}

/// The mode named `s`, with its number of milliseconds read from `value`.
pub open spec fn mapping_mode_named(s: Seq<char>, value: Seq<char>) -> Option<MappingMode> {
    if s == "OnPress"@ {
        Some(MappingMode::OnPress)
    } else if s == "OnHold"@ {
        match parsed_u16(value) {
            Some(v) => Some(MappingMode::OnHold { hold_ms: v }),
            None => None,
        }
    } else if s == "Toggle"@ {
        Some(MappingMode::Toggle)
    } else if s == "MacroOnPress"@ {
        Some(MappingMode::MacroOnPress)
    } else if s == "MacroOnRelease"@ {
        Some(MappingMode::MacroOnRelease)
    } else if s == "MacroOnTap"@ {
        match parsed_u16(value) {
            Some(v) => Some(MappingMode::MacroOnTap { tap_ms: v }),
            None => None,
        }
    } else if s == "MacroOnDoubleTap"@ {
        match parsed_u16(value) {
            Some(v) => Some(MappingMode::MacroOnDoubleTap { tap_ms: v }),
            None => None,
        }
    } else if s == "MacroOnHold"@ {
        match parsed_u16(value) {
            Some(v) => Some(MappingMode::MacroOnHold { hold_ms: v }),
            None => None,
        }
    } else {
        None
    }
}

/// The variant name of a mode, the name it is configured by.
pub open spec fn mode_variant_name(m: MappingMode) -> Seq<char> {
    match m {
        MappingMode::OnPress => "OnPress"@,
        MappingMode::OnHold { .. } => "OnHold"@,
        MappingMode::Toggle => "Toggle"@,
        MappingMode::MacroOnPress => "MacroOnPress"@,
        MappingMode::MacroOnRelease => "MacroOnRelease"@,
        MappingMode::MacroOnTap { .. } => "MacroOnTap"@,
        MappingMode::MacroOnDoubleTap { .. } => "MacroOnDoubleTap"@,
        MappingMode::MacroOnHold { .. } => "MacroOnHold"@,
    }
}

/// The time a timed mode is configured with, if it has one.
pub open spec fn mode_time(m: MappingMode) -> Option<u16> {
    match m {
        MappingMode::OnHold { hold_ms } => Some(hold_ms),
        MappingMode::MacroOnTap { tap_ms } => Some(tap_ms),
        MappingMode::MacroOnDoubleTap { tap_ms } => Some(tap_ms),
        MappingMode::MacroOnHold { hold_ms } => Some(hold_ms),
        _ => None,
    }
}

/// Reading a mode's variant name with the decimal text of its time gives the
/// mode back; a mode without a time reads back whatever value text is given.
pub proof fn lemma_mode_names_read_back(m: MappingMode, value: Seq<char>)
    ensures
        match mode_time(m) {
            Some(t) => mapping_mode_named(mode_variant_name(m), decimal_text(t as nat)) == Some(m),
            None => mapping_mode_named(mode_variant_name(m), value) == Some(m),
        },
{
    reveal_strlit("OnPress");
    reveal_strlit("OnHold");
    reveal_strlit("Toggle");
    reveal_strlit("MacroOnPress");
    reveal_strlit("MacroOnRelease");
    reveal_strlit("MacroOnTap");
    reveal_strlit("MacroOnDoubleTap");
    reveal_strlit("MacroOnHold");
    match mode_time(m) {
        Some(t) => {
            lemma_integer_text_reads_back(t as int);
            assert(parsed_u16(decimal_text(t as nat)) == Some(t));
        },
        None => {},
    }
    // the names differ in their length or in one of their first characters
    let n = mode_variant_name(m);
    assert(n.len() > 0 && (n.len() != 6 || n[1] != 'n' || n[0] == 'O'));
}

impl MappingMode {
    /// The variant name of the mode.
    pub fn name(&self) -> (r: &'static str)
        ensures
            r@ == mode_variant_name(*self),
    {
        match self {
            MappingMode::OnPress => "OnPress",
            MappingMode::OnHold { .. } => "OnHold",
            MappingMode::Toggle => "Toggle",
            MappingMode::MacroOnPress => "MacroOnPress",
            MappingMode::MacroOnRelease => "MacroOnRelease",
            MappingMode::MacroOnTap { .. } => "MacroOnTap",
            MappingMode::MacroOnDoubleTap { .. } => "MacroOnDoubleTap",
            MappingMode::MacroOnHold { .. } => "MacroOnHold",
        }
    }
    pub fn is_macro(&self) -> (r: bool)
        ensures
            r == mode_is_macro(*self),
    {
        match self {
            MappingMode::MacroOnPress => true,
            MappingMode::MacroOnRelease => true,
            MappingMode::MacroOnTap { .. } => true,
            MappingMode::MacroOnDoubleTap { .. } => true,
            MappingMode::MacroOnHold { .. } => true,
            _ => false,
        }
    }

    /// The mode named `s`; `value` gives the milliseconds of the timed modes.
    pub fn from_string(s: &str, value: &str) -> (r: Option<Self>)
        ensures
            r == mapping_mode_named(s@, value@),
    {
        let name = chars_of(s);
        let value = chars_of(value);
        Self::from_chars(name.as_slice(), value.as_slice())
    }

    /// `from_string` on the characters of the name and of the value.
    pub fn from_chars(name: &[char], value: &[char]) -> (r: Option<Self>)
        ensures
            r == mapping_mode_named(name@, value@),
    {
        if is_text(name, "OnPress") {
            Some(MappingMode::OnPress)
        } else if is_text(name, "OnHold") {
            match parse_u16(value) {
                Some(v) => Some(MappingMode::OnHold { hold_ms: v }),
                None => None,
            }
        } else if is_text(name, "Toggle") {
            Some(MappingMode::Toggle)
        } else if is_text(name, "MacroOnPress") {
            Some(MappingMode::MacroOnPress)
        } else if is_text(name, "MacroOnRelease") {
            Some(MappingMode::MacroOnRelease)
        } else if is_text(name, "MacroOnTap") {
            match parse_u16(value) {
                Some(v) => Some(MappingMode::MacroOnTap { tap_ms: v }),
                None => None,
            }
        } else if is_text(name, "MacroOnDoubleTap") {
            match parse_u16(value) {
                Some(v) => Some(MappingMode::MacroOnDoubleTap { tap_ms: v }),
                None => None,
            }
        } else if is_text(name, "MacroOnHold") {
            match parse_u16(value) {
                Some(v) => Some(MappingMode::MacroOnHold { hold_ms: v }),
                None => None,
            }
        } else {
            None
        }
    }
}

/// A physical key position: row 0 to 5, column 0 to 13 (left to right).
#[derive(Debug, Clone, Copy, PartialEq, Eq, Structural)]
pub enum RukeyInput {
    Row0Col0,
    Row0Col1,
    Row0Col2,
    Row0Col3,
    Row0Col4,
    Row0Col5,
    Row0Col6,
    Row0Col7,
    Row0Col8,
    Row0Col9,
    Row0Col10,
    Row0Col11,
    Row0Col12,
    Row0Col13,
    Row1Col0,
    Row1Col1,
    Row1Col2,
    Row1Col3,
    Row1Col4,
    Row1Col5,
    Row1Col6,
    Row1Col7,
    Row1Col8,
    Row1Col9,
    Row1Col10,
    Row1Col11,
    Row1Col12,
    Row1Col13,
    Row2Col0,
    Row2Col1,
    Row2Col2,
    Row2Col3,
    Row2Col4,
    Row2Col5,
    Row2Col6,
    Row2Col7,
    Row2Col8,
    Row2Col9,
    Row2Col10,
    Row2Col11,
    Row2Col12,
    Row2Col13,
    Row3Col0,
    Row3Col1,
    Row3Col2,
    Row3Col3,
    Row3Col4,
    Row3Col5,
    Row3Col6,
    Row3Col7,
    Row3Col8,
    Row3Col9,
    Row3Col10,
    Row3Col11,
    Row3Col12,
    Row3Col13,
    Row4Col0,
    Row4Col1,
    Row4Col2,
    Row4Col3,
    Row4Col4,
    Row4Col5,
    Row4Col6,
    Row4Col7,
    Row4Col8,
    Row4Col9,
    Row4Col10,
    Row4Col11,
    Row4Col12,
    Row4Col13,
    Row5Col0,
    Row5Col1,
    Row5Col2,
    Row5Col3,
    Row5Col4,
    Row5Col5,
    Row5Col6,
    Row5Col7,
    Row5Col8,
    Row5Col9,
    Row5Col10,
    Row5Col11,
    Row5Col12,
    Row5Col13,
}

impl Default for RukeyInput {
    fn default() -> (r: RukeyInput)
        ensures
            r == RukeyInput::Row0Col0,
    {
        RukeyInput::Row0Col0
    }
}

/// The input at matrix position `i` (row-major, fourteen columns per row).
pub open spec fn rukey_input_at(i: u8) -> RukeyInput {
    match i {
        0 => RukeyInput::Row0Col0,
        1 => RukeyInput::Row0Col1,
        2 => RukeyInput::Row0Col2,
        3 => RukeyInput::Row0Col3,
        4 => RukeyInput::Row0Col4,
        5 => RukeyInput::Row0Col5,
        6 => RukeyInput::Row0Col6,
        7 => RukeyInput::Row0Col7,
        8 => RukeyInput::Row0Col8,
        9 => RukeyInput::Row0Col9,
        10 => RukeyInput::Row0Col10,
        11 => RukeyInput::Row0Col11,
        12 => RukeyInput::Row0Col12,
        13 => RukeyInput::Row0Col13,
        14 => RukeyInput::Row1Col0,
        15 => RukeyInput::Row1Col1,
        16 => RukeyInput::Row1Col2,
        17 => RukeyInput::Row1Col3,
        18 => RukeyInput::Row1Col4,
        19 => RukeyInput::Row1Col5,
        20 => RukeyInput::Row1Col6,
        21 => RukeyInput::Row1Col7,
        22 => RukeyInput::Row1Col8,
        23 => RukeyInput::Row1Col9,
        24 => RukeyInput::Row1Col10,
        25 => RukeyInput::Row1Col11,
        26 => RukeyInput::Row1Col12,
        27 => RukeyInput::Row1Col13,
        28 => RukeyInput::Row2Col0,
        29 => RukeyInput::Row2Col1,
        30 => RukeyInput::Row2Col2,
        31 => RukeyInput::Row2Col3,
        32 => RukeyInput::Row2Col4,
        33 => RukeyInput::Row2Col5,
        34 => RukeyInput::Row2Col6,
        35 => RukeyInput::Row2Col7,
        36 => RukeyInput::Row2Col8,
        37 => RukeyInput::Row2Col9,
        38 => RukeyInput::Row2Col10,
        39 => RukeyInput::Row2Col11,
        40 => RukeyInput::Row2Col12,
        41 => RukeyInput::Row2Col13,
        42 => RukeyInput::Row3Col0,
        43 => RukeyInput::Row3Col1,
        44 => RukeyInput::Row3Col2,
        45 => RukeyInput::Row3Col3,
        46 => RukeyInput::Row3Col4,
        47 => RukeyInput::Row3Col5,
        48 => RukeyInput::Row3Col6,
        49 => RukeyInput::Row3Col7,
        50 => RukeyInput::Row3Col8,
        51 => RukeyInput::Row3Col9,
        52 => RukeyInput::Row3Col10,
        53 => RukeyInput::Row3Col11,
        54 => RukeyInput::Row3Col12,
        55 => RukeyInput::Row3Col13,
        56 => RukeyInput::Row4Col0,
        57 => RukeyInput::Row4Col1,
        58 => RukeyInput::Row4Col2,
        59 => RukeyInput::Row4Col3,
        60 => RukeyInput::Row4Col4,
        61 => RukeyInput::Row4Col5,
        62 => RukeyInput::Row4Col6,
        63 => RukeyInput::Row4Col7,
        64 => RukeyInput::Row4Col8,
        65 => RukeyInput::Row4Col9,
        66 => RukeyInput::Row4Col10,
        67 => RukeyInput::Row4Col11,
        68 => RukeyInput::Row4Col12,
        69 => RukeyInput::Row4Col13,
        70 => RukeyInput::Row5Col0,
        71 => RukeyInput::Row5Col1,
        72 => RukeyInput::Row5Col2,
        73 => RukeyInput::Row5Col3,
        74 => RukeyInput::Row5Col4,
        75 => RukeyInput::Row5Col5,
        76 => RukeyInput::Row5Col6,
        77 => RukeyInput::Row5Col7,
        78 => RukeyInput::Row5Col8,
        79 => RukeyInput::Row5Col9,
        80 => RukeyInput::Row5Col10,
        81 => RukeyInput::Row5Col11,
        82 => RukeyInput::Row5Col12,
        83 => RukeyInput::Row5Col13,
        _ => RukeyInput::Row0Col0,
    }
}

impl RukeyInput {
    /// Row-major position of the input in the key matrix.
    pub open spec fn matrix_index(self) -> u8 {
        match self {
            RukeyInput::Row0Col0 => 0,
            RukeyInput::Row0Col1 => 1,
            RukeyInput::Row0Col2 => 2,
            RukeyInput::Row0Col3 => 3,
            RukeyInput::Row0Col4 => 4,
            RukeyInput::Row0Col5 => 5,
            RukeyInput::Row0Col6 => 6,
            RukeyInput::Row0Col7 => 7,
            RukeyInput::Row0Col8 => 8,
            RukeyInput::Row0Col9 => 9,
            RukeyInput::Row0Col10 => 10,
            RukeyInput::Row0Col11 => 11,
            RukeyInput::Row0Col12 => 12,
            RukeyInput::Row0Col13 => 13,
            RukeyInput::Row1Col0 => 14,
            RukeyInput::Row1Col1 => 15,
            RukeyInput::Row1Col2 => 16,
            RukeyInput::Row1Col3 => 17,
            RukeyInput::Row1Col4 => 18,
            RukeyInput::Row1Col5 => 19,
            RukeyInput::Row1Col6 => 20,
            RukeyInput::Row1Col7 => 21,
            RukeyInput::Row1Col8 => 22,
            RukeyInput::Row1Col9 => 23,
            RukeyInput::Row1Col10 => 24,
            RukeyInput::Row1Col11 => 25,
            RukeyInput::Row1Col12 => 26,
            RukeyInput::Row1Col13 => 27,
            RukeyInput::Row2Col0 => 28,
            RukeyInput::Row2Col1 => 29,
            RukeyInput::Row2Col2 => 30,
            RukeyInput::Row2Col3 => 31,
            RukeyInput::Row2Col4 => 32,
            RukeyInput::Row2Col5 => 33,
            RukeyInput::Row2Col6 => 34,
            RukeyInput::Row2Col7 => 35,
            RukeyInput::Row2Col8 => 36,
            RukeyInput::Row2Col9 => 37,
            RukeyInput::Row2Col10 => 38,
            RukeyInput::Row2Col11 => 39,
            RukeyInput::Row2Col12 => 40,
            RukeyInput::Row2Col13 => 41,
            RukeyInput::Row3Col0 => 42,
            RukeyInput::Row3Col1 => 43,
            RukeyInput::Row3Col2 => 44,
            RukeyInput::Row3Col3 => 45,
            RukeyInput::Row3Col4 => 46,
            RukeyInput::Row3Col5 => 47,
            RukeyInput::Row3Col6 => 48,
            RukeyInput::Row3Col7 => 49,
            RukeyInput::Row3Col8 => 50,
            RukeyInput::Row3Col9 => 51,
            RukeyInput::Row3Col10 => 52,
            RukeyInput::Row3Col11 => 53,
            RukeyInput::Row3Col12 => 54,
            RukeyInput::Row3Col13 => 55,
            RukeyInput::Row4Col0 => 56,
            RukeyInput::Row4Col1 => 57,
            RukeyInput::Row4Col2 => 58,
            RukeyInput::Row4Col3 => 59,
            RukeyInput::Row4Col4 => 60,
            RukeyInput::Row4Col5 => 61,
            RukeyInput::Row4Col6 => 62,
            RukeyInput::Row4Col7 => 63,
            RukeyInput::Row4Col8 => 64,
            RukeyInput::Row4Col9 => 65,
            RukeyInput::Row4Col10 => 66,
            RukeyInput::Row4Col11 => 67,
            RukeyInput::Row4Col12 => 68,
            RukeyInput::Row4Col13 => 69,
            RukeyInput::Row5Col0 => 70,
            RukeyInput::Row5Col1 => 71,
            RukeyInput::Row5Col2 => 72,
            RukeyInput::Row5Col3 => 73,
            RukeyInput::Row5Col4 => 74,
            RukeyInput::Row5Col5 => 75,
            RukeyInput::Row5Col6 => 76,
            RukeyInput::Row5Col7 => 77,
            RukeyInput::Row5Col8 => 78,
            RukeyInput::Row5Col9 => 79,
            RukeyInput::Row5Col10 => 80,
            RukeyInput::Row5Col11 => 81,
            RukeyInput::Row5Col12 => 82,
            RukeyInput::Row5Col13 => 83,
        }
    }

    pub open spec fn row_number(self) -> nat {
        (self.matrix_index() / 14) as nat
    }

    pub open spec fn col_number(self) -> nat {
        (self.matrix_index() % 14) as nat
    }

    /// The name the configuration file uses for this input: `row{row}-col{col}`.
    pub open spec fn kebab_name(self) -> Seq<char> {
        "row"@ + decimal_text(self.row_number()) + "-col"@ + decimal_text(self.col_number())
    }

    /// Row-major position of the input in the key matrix.
    pub fn index(&self) -> (r: u8)
        ensures
            r == self.matrix_index(),
    {
        match self {
            RukeyInput::Row0Col0 => 0,
            RukeyInput::Row0Col1 => 1,
            RukeyInput::Row0Col2 => 2,
            RukeyInput::Row0Col3 => 3,
            RukeyInput::Row0Col4 => 4,
            RukeyInput::Row0Col5 => 5,
            RukeyInput::Row0Col6 => 6,
            RukeyInput::Row0Col7 => 7,
            RukeyInput::Row0Col8 => 8,
            RukeyInput::Row0Col9 => 9,
            RukeyInput::Row0Col10 => 10,
            RukeyInput::Row0Col11 => 11,
            RukeyInput::Row0Col12 => 12,
            RukeyInput::Row0Col13 => 13,
            RukeyInput::Row1Col0 => 14,
            RukeyInput::Row1Col1 => 15,
            RukeyInput::Row1Col2 => 16,
            RukeyInput::Row1Col3 => 17,
            RukeyInput::Row1Col4 => 18,
            RukeyInput::Row1Col5 => 19,
            RukeyInput::Row1Col6 => 20,
            RukeyInput::Row1Col7 => 21,
            RukeyInput::Row1Col8 => 22,
            RukeyInput::Row1Col9 => 23,
            RukeyInput::Row1Col10 => 24,
            RukeyInput::Row1Col11 => 25,
            RukeyInput::Row1Col12 => 26,
            RukeyInput::Row1Col13 => 27,
            RukeyInput::Row2Col0 => 28,
            RukeyInput::Row2Col1 => 29,
            RukeyInput::Row2Col2 => 30,
            RukeyInput::Row2Col3 => 31,
            RukeyInput::Row2Col4 => 32,
            RukeyInput::Row2Col5 => 33,
            RukeyInput::Row2Col6 => 34,
            RukeyInput::Row2Col7 => 35,
            RukeyInput::Row2Col8 => 36,
            RukeyInput::Row2Col9 => 37,
            RukeyInput::Row2Col10 => 38,
            RukeyInput::Row2Col11 => 39,
            RukeyInput::Row2Col12 => 40,
            RukeyInput::Row2Col13 => 41,
            RukeyInput::Row3Col0 => 42,
            RukeyInput::Row3Col1 => 43,
            RukeyInput::Row3Col2 => 44,
            RukeyInput::Row3Col3 => 45,
            RukeyInput::Row3Col4 => 46,
            RukeyInput::Row3Col5 => 47,
            RukeyInput::Row3Col6 => 48,
            RukeyInput::Row3Col7 => 49,
            RukeyInput::Row3Col8 => 50,
            RukeyInput::Row3Col9 => 51,
            RukeyInput::Row3Col10 => 52,
            RukeyInput::Row3Col11 => 53,
            RukeyInput::Row3Col12 => 54,
            RukeyInput::Row3Col13 => 55,
            RukeyInput::Row4Col0 => 56,
            RukeyInput::Row4Col1 => 57,
            RukeyInput::Row4Col2 => 58,
            RukeyInput::Row4Col3 => 59,
            RukeyInput::Row4Col4 => 60,
            RukeyInput::Row4Col5 => 61,
            RukeyInput::Row4Col6 => 62,
            RukeyInput::Row4Col7 => 63,
            RukeyInput::Row4Col8 => 64,
            RukeyInput::Row4Col9 => 65,
            RukeyInput::Row4Col10 => 66,
            RukeyInput::Row4Col11 => 67,
            RukeyInput::Row4Col12 => 68,
            RukeyInput::Row4Col13 => 69,
            RukeyInput::Row5Col0 => 70,
            RukeyInput::Row5Col1 => 71,
            RukeyInput::Row5Col2 => 72,
            RukeyInput::Row5Col3 => 73,
            RukeyInput::Row5Col4 => 74,
            RukeyInput::Row5Col5 => 75,
            RukeyInput::Row5Col6 => 76,
            RukeyInput::Row5Col7 => 77,
            RukeyInput::Row5Col8 => 78,
            RukeyInput::Row5Col9 => 79,
            RukeyInput::Row5Col10 => 80,
            RukeyInput::Row5Col11 => 81,
            RukeyInput::Row5Col12 => 82,
            RukeyInput::Row5Col13 => 83,
        }
    }

    /// The input at row-major matrix position `i`.
    pub fn from_index(i: u8) -> (r: RukeyInput)
        requires
            i < 84,
        ensures
            r == rukey_input_at(i),
    {
        match i {
            0 => RukeyInput::Row0Col0,
            1 => RukeyInput::Row0Col1,
            2 => RukeyInput::Row0Col2,
            3 => RukeyInput::Row0Col3,
            4 => RukeyInput::Row0Col4,
            5 => RukeyInput::Row0Col5,
            6 => RukeyInput::Row0Col6,
            7 => RukeyInput::Row0Col7,
            8 => RukeyInput::Row0Col8,
            9 => RukeyInput::Row0Col9,
            10 => RukeyInput::Row0Col10,
            11 => RukeyInput::Row0Col11,
            12 => RukeyInput::Row0Col12,
            13 => RukeyInput::Row0Col13,
            14 => RukeyInput::Row1Col0,
            15 => RukeyInput::Row1Col1,
            16 => RukeyInput::Row1Col2,
            17 => RukeyInput::Row1Col3,
            18 => RukeyInput::Row1Col4,
            19 => RukeyInput::Row1Col5,
            20 => RukeyInput::Row1Col6,
            21 => RukeyInput::Row1Col7,
            22 => RukeyInput::Row1Col8,
            23 => RukeyInput::Row1Col9,
            24 => RukeyInput::Row1Col10,
            25 => RukeyInput::Row1Col11,
            26 => RukeyInput::Row1Col12,
            27 => RukeyInput::Row1Col13,
            28 => RukeyInput::Row2Col0,
            29 => RukeyInput::Row2Col1,
            30 => RukeyInput::Row2Col2,
            31 => RukeyInput::Row2Col3,
            32 => RukeyInput::Row2Col4,
            33 => RukeyInput::Row2Col5,
            34 => RukeyInput::Row2Col6,
            35 => RukeyInput::Row2Col7,
            36 => RukeyInput::Row2Col8,
            37 => RukeyInput::Row2Col9,
            38 => RukeyInput::Row2Col10,
            39 => RukeyInput::Row2Col11,
            40 => RukeyInput::Row2Col12,
            41 => RukeyInput::Row2Col13,
            42 => RukeyInput::Row3Col0,
            43 => RukeyInput::Row3Col1,
            44 => RukeyInput::Row3Col2,
            45 => RukeyInput::Row3Col3,
            46 => RukeyInput::Row3Col4,
            47 => RukeyInput::Row3Col5,
            48 => RukeyInput::Row3Col6,
            49 => RukeyInput::Row3Col7,
            50 => RukeyInput::Row3Col8,
            51 => RukeyInput::Row3Col9,
            52 => RukeyInput::Row3Col10,
            53 => RukeyInput::Row3Col11,
            54 => RukeyInput::Row3Col12,
            55 => RukeyInput::Row3Col13,
            56 => RukeyInput::Row4Col0,
            57 => RukeyInput::Row4Col1,
            58 => RukeyInput::Row4Col2,
            59 => RukeyInput::Row4Col3,
            60 => RukeyInput::Row4Col4,
            61 => RukeyInput::Row4Col5,
            62 => RukeyInput::Row4Col6,
            63 => RukeyInput::Row4Col7,
            64 => RukeyInput::Row4Col8,
            65 => RukeyInput::Row4Col9,
            66 => RukeyInput::Row4Col10,
            67 => RukeyInput::Row4Col11,
            68 => RukeyInput::Row4Col12,
            69 => RukeyInput::Row4Col13,
            70 => RukeyInput::Row5Col0,
            71 => RukeyInput::Row5Col1,
            72 => RukeyInput::Row5Col2,
            73 => RukeyInput::Row5Col3,
            74 => RukeyInput::Row5Col4,
            75 => RukeyInput::Row5Col5,
            76 => RukeyInput::Row5Col6,
            77 => RukeyInput::Row5Col7,
            78 => RukeyInput::Row5Col8,
            79 => RukeyInput::Row5Col9,
            80 => RukeyInput::Row5Col10,
            81 => RukeyInput::Row5Col11,
            82 => RukeyInput::Row5Col12,
            83 => RukeyInput::Row5Col13,
            _ => RukeyInput::Row0Col0,
        }
    }

    /// The row of the input, 0 to 5.
    pub fn row(&self) -> (r: u8)
        ensures
            r == self.row_number(),
            r < 6,
    {
        proof {
            lemma_rukey_input_index(*self);
        }
        self.index() / 14
    }

    /// The column of the input, 0 to 13.
    pub fn col(&self) -> (r: u8)
        ensures
            r == self.col_number(),
            r < 14,
    {
        self.index() % 14
    }

    /// The characters of `kebab_name`.
    pub fn kebab_name_chars(&self) -> (r: Vec<char>)
        ensures
            r@ == self.kebab_name(),
    {
        let mut r = chars_of("row");
        let row = small_decimal(self.row());
        extend_chars(&mut r, row.as_slice());
        let sep = chars_of("-col");
        extend_chars(&mut r, sep.as_slice());
        let col = small_decimal(self.col());
        extend_chars(&mut r, col.as_slice());
        r
    }

    /// The input whose kebab name is `s` (such as `row2-col13`).
    pub fn from_string_kebab(s: &str) -> (r: Option<Self>)
        ensures
            r == rukey_input_named(s@),
            r matches Some(x) ==> x.kebab_name() == s@,
            r is None ==> forall|x: RukeyInput| #[trigger] x.kebab_name() != s@,
    {
        let name = chars_of(s);
        Self::from_kebab_chars(name.as_slice())
    }

    /// `from_string_kebab` on the characters of the name.
    pub fn from_kebab_chars(name: &[char]) -> (r: Option<Self>)
        ensures
            r == rukey_input_named(name@),
            r matches Some(x) ==> x.kebab_name() == name@,
            r is None ==> forall|x: RukeyInput| #[trigger] x.kebab_name() != name@,
    {
        let ghost s = name@;
        let mut i: u8 = 0;
        while i < 84
            invariant
                s == name@,
                i <= 84,
                forall|j: u8| j < i ==> #[trigger] rukey_input_at(j).kebab_name() != s,
            decreases 84 - i,
        {
            let x = RukeyInput::from_index(i);
            let candidate = x.kebab_name_chars();
            if chars_equal(candidate.as_slice(), name) {
                proof {
                    let y = choose|y: RukeyInput| y.kebab_name() == s;
                    lemma_kebab_names_identify_inputs(x, y);
                }
                return Some(x);
            }
            i += 1;
        }
        proof {
            assert forall|x: RukeyInput| #[trigger] x.kebab_name() != s by {
                lemma_rukey_input_index(x);
                assert(rukey_input_at(x.matrix_index()).kebab_name() != s);
            }
        }
        None
    }
}

/// The input whose kebab name is `s`, if there is one.
pub open spec fn rukey_input_named(s: Seq<char>) -> Option<RukeyInput> {
    if exists|x: RukeyInput| x.kebab_name() == s {
        Some(choose|x: RukeyInput| x.kebab_name() == s)
    } else {
        None
    }
}

/// Every input sits at a matrix position below 84, and that position leads back to it.
pub proof fn lemma_rukey_input_index(x: RukeyInput)
    ensures
        x.matrix_index() < 84,
        rukey_input_at(x.matrix_index()) == x,
{
    match x {
        RukeyInput::Row0Col0 => {},
        RukeyInput::Row0Col1 => {},
        RukeyInput::Row0Col2 => {},
        RukeyInput::Row0Col3 => {},
        RukeyInput::Row0Col4 => {},
        RukeyInput::Row0Col5 => {},
        RukeyInput::Row0Col6 => {},
        RukeyInput::Row0Col7 => {},
        RukeyInput::Row0Col8 => {},
        RukeyInput::Row0Col9 => {},
        RukeyInput::Row0Col10 => {},
        RukeyInput::Row0Col11 => {},
        RukeyInput::Row0Col12 => {},
        RukeyInput::Row0Col13 => {},
        RukeyInput::Row1Col0 => {},
        RukeyInput::Row1Col1 => {},
        RukeyInput::Row1Col2 => {},
        RukeyInput::Row1Col3 => {},
        RukeyInput::Row1Col4 => {},
        RukeyInput::Row1Col5 => {},
        RukeyInput::Row1Col6 => {},
        RukeyInput::Row1Col7 => {},
        RukeyInput::Row1Col8 => {},
        RukeyInput::Row1Col9 => {},
        RukeyInput::Row1Col10 => {},
        RukeyInput::Row1Col11 => {},
        RukeyInput::Row1Col12 => {},
        RukeyInput::Row1Col13 => {},
        RukeyInput::Row2Col0 => {},
        RukeyInput::Row2Col1 => {},
        RukeyInput::Row2Col2 => {},
        RukeyInput::Row2Col3 => {},
        RukeyInput::Row2Col4 => {},
        RukeyInput::Row2Col5 => {},
        RukeyInput::Row2Col6 => {},
        RukeyInput::Row2Col7 => {},
        RukeyInput::Row2Col8 => {},
        RukeyInput::Row2Col9 => {},
        RukeyInput::Row2Col10 => {},
        RukeyInput::Row2Col11 => {},
        RukeyInput::Row2Col12 => {},
        RukeyInput::Row2Col13 => {},
        RukeyInput::Row3Col0 => {},
        RukeyInput::Row3Col1 => {},
        RukeyInput::Row3Col2 => {},
        RukeyInput::Row3Col3 => {},
        RukeyInput::Row3Col4 => {},
        RukeyInput::Row3Col5 => {},
        RukeyInput::Row3Col6 => {},
        RukeyInput::Row3Col7 => {},
        RukeyInput::Row3Col8 => {},
        RukeyInput::Row3Col9 => {},
        RukeyInput::Row3Col10 => {},
        RukeyInput::Row3Col11 => {},
        RukeyInput::Row3Col12 => {},
        RukeyInput::Row3Col13 => {},
        RukeyInput::Row4Col0 => {},
        RukeyInput::Row4Col1 => {},
        RukeyInput::Row4Col2 => {},
        RukeyInput::Row4Col3 => {},
        RukeyInput::Row4Col4 => {},
        RukeyInput::Row4Col5 => {},
        RukeyInput::Row4Col6 => {},
        RukeyInput::Row4Col7 => {},
        RukeyInput::Row4Col8 => {},
        RukeyInput::Row4Col9 => {},
        RukeyInput::Row4Col10 => {},
        RukeyInput::Row4Col11 => {},
        RukeyInput::Row4Col12 => {},
        RukeyInput::Row4Col13 => {},
        RukeyInput::Row5Col0 => {},
        RukeyInput::Row5Col1 => {},
        RukeyInput::Row5Col2 => {},
        RukeyInput::Row5Col3 => {},
        RukeyInput::Row5Col4 => {},
        RukeyInput::Row5Col5 => {},
        RukeyInput::Row5Col6 => {},
        RukeyInput::Row5Col7 => {},
        RukeyInput::Row5Col8 => {},
        RukeyInput::Row5Col9 => {},
        RukeyInput::Row5Col10 => {},
        RukeyInput::Row5Col11 => {},
        RukeyInput::Row5Col12 => {},
        RukeyInput::Row5Col13 => {},
    }
}

/// The variant name of each input, the name it has in the key matrix.
pub open spec fn rukey_variant_name(x: RukeyInput) -> Seq<char> {
    match x {
        RukeyInput::Row0Col0 => "Row0Col0"@,
        RukeyInput::Row0Col1 => "Row0Col1"@,
        RukeyInput::Row0Col2 => "Row0Col2"@,
        RukeyInput::Row0Col3 => "Row0Col3"@,
        RukeyInput::Row0Col4 => "Row0Col4"@,
        RukeyInput::Row0Col5 => "Row0Col5"@,
        RukeyInput::Row0Col6 => "Row0Col6"@,
        RukeyInput::Row0Col7 => "Row0Col7"@,
        RukeyInput::Row0Col8 => "Row0Col8"@,
        RukeyInput::Row0Col9 => "Row0Col9"@,
        RukeyInput::Row0Col10 => "Row0Col10"@,
        RukeyInput::Row0Col11 => "Row0Col11"@,
        RukeyInput::Row0Col12 => "Row0Col12"@,
        RukeyInput::Row0Col13 => "Row0Col13"@,
        RukeyInput::Row1Col0 => "Row1Col0"@,
        RukeyInput::Row1Col1 => "Row1Col1"@,
        RukeyInput::Row1Col2 => "Row1Col2"@,
        RukeyInput::Row1Col3 => "Row1Col3"@,
        RukeyInput::Row1Col4 => "Row1Col4"@,
        RukeyInput::Row1Col5 => "Row1Col5"@,
        RukeyInput::Row1Col6 => "Row1Col6"@,
        RukeyInput::Row1Col7 => "Row1Col7"@,
        RukeyInput::Row1Col8 => "Row1Col8"@,
        RukeyInput::Row1Col9 => "Row1Col9"@,
        RukeyInput::Row1Col10 => "Row1Col10"@,
        RukeyInput::Row1Col11 => "Row1Col11"@,
        RukeyInput::Row1Col12 => "Row1Col12"@,
        RukeyInput::Row1Col13 => "Row1Col13"@,
        RukeyInput::Row2Col0 => "Row2Col0"@,
        RukeyInput::Row2Col1 => "Row2Col1"@,
        RukeyInput::Row2Col2 => "Row2Col2"@,
        RukeyInput::Row2Col3 => "Row2Col3"@,
        RukeyInput::Row2Col4 => "Row2Col4"@,
        RukeyInput::Row2Col5 => "Row2Col5"@,
        RukeyInput::Row2Col6 => "Row2Col6"@,
        RukeyInput::Row2Col7 => "Row2Col7"@,
        RukeyInput::Row2Col8 => "Row2Col8"@,
        RukeyInput::Row2Col9 => "Row2Col9"@,
        RukeyInput::Row2Col10 => "Row2Col10"@,
        RukeyInput::Row2Col11 => "Row2Col11"@,
        RukeyInput::Row2Col12 => "Row2Col12"@,
        RukeyInput::Row2Col13 => "Row2Col13"@,
        RukeyInput::Row3Col0 => "Row3Col0"@,
        RukeyInput::Row3Col1 => "Row3Col1"@,
        RukeyInput::Row3Col2 => "Row3Col2"@,
        RukeyInput::Row3Col3 => "Row3Col3"@,
        RukeyInput::Row3Col4 => "Row3Col4"@,
        RukeyInput::Row3Col5 => "Row3Col5"@,
        RukeyInput::Row3Col6 => "Row3Col6"@,
        RukeyInput::Row3Col7 => "Row3Col7"@,
        RukeyInput::Row3Col8 => "Row3Col8"@,
        RukeyInput::Row3Col9 => "Row3Col9"@,
        RukeyInput::Row3Col10 => "Row3Col10"@,
        RukeyInput::Row3Col11 => "Row3Col11"@,
        RukeyInput::Row3Col12 => "Row3Col12"@,
        RukeyInput::Row3Col13 => "Row3Col13"@,
        RukeyInput::Row4Col0 => "Row4Col0"@,
        RukeyInput::Row4Col1 => "Row4Col1"@,
        RukeyInput::Row4Col2 => "Row4Col2"@,
        RukeyInput::Row4Col3 => "Row4Col3"@,
        RukeyInput::Row4Col4 => "Row4Col4"@,
        RukeyInput::Row4Col5 => "Row4Col5"@,
        RukeyInput::Row4Col6 => "Row4Col6"@,
        RukeyInput::Row4Col7 => "Row4Col7"@,
        RukeyInput::Row4Col8 => "Row4Col8"@,
        RukeyInput::Row4Col9 => "Row4Col9"@,
        RukeyInput::Row4Col10 => "Row4Col10"@,
        RukeyInput::Row4Col11 => "Row4Col11"@,
        RukeyInput::Row4Col12 => "Row4Col12"@,
        RukeyInput::Row4Col13 => "Row4Col13"@,
        RukeyInput::Row5Col0 => "Row5Col0"@,
        RukeyInput::Row5Col1 => "Row5Col1"@,
        RukeyInput::Row5Col2 => "Row5Col2"@,
        RukeyInput::Row5Col3 => "Row5Col3"@,
        RukeyInput::Row5Col4 => "Row5Col4"@,
        RukeyInput::Row5Col5 => "Row5Col5"@,
        RukeyInput::Row5Col6 => "Row5Col6"@,
        RukeyInput::Row5Col7 => "Row5Col7"@,
        RukeyInput::Row5Col8 => "Row5Col8"@,
        RukeyInput::Row5Col9 => "Row5Col9"@,
        RukeyInput::Row5Col10 => "Row5Col10"@,
        RukeyInput::Row5Col11 => "Row5Col11"@,
        RukeyInput::Row5Col12 => "Row5Col12"@,
        RukeyInput::Row5Col13 => "Row5Col13"@,
    }
}

/// Each input sits at the row and column its name gives: the input named
/// `Row{r}Col{c}` has row number `r` and column number `c`, and so the kebab
/// name `row{r}-col{c}`.
pub proof fn lemma_inputs_sit_where_their_names_say(x: RukeyInput)
    ensures
        rukey_variant_name(x) == "Row"@ + decimal_text(x.row_number()) + "Col"@ + decimal_text(
            x.col_number(),
        ),
{
    reveal_strlit("Row");
    reveal_strlit("Col");
    lemma_rukey_input_index(x);
    assert(decimal_text(x.row_number()) == seq![digit_char(x.row_number() as int)]);
    match x {
        RukeyInput::Row0Col0 => {
            reveal_strlit("Row0Col0");
            assert(decimal_text(0) =~= seq!['0']);
        },
        RukeyInput::Row0Col1 => {
            reveal_strlit("Row0Col1");
            assert(decimal_text(1) =~= seq!['1']);
        },
        RukeyInput::Row0Col2 => {
            reveal_strlit("Row0Col2");
            assert(decimal_text(2) =~= seq!['2']);
        },
        RukeyInput::Row0Col3 => {
            reveal_strlit("Row0Col3");
            assert(decimal_text(3) =~= seq!['3']);
        },
        RukeyInput::Row0Col4 => {
            reveal_strlit("Row0Col4");
            assert(decimal_text(4) =~= seq!['4']);
        },
        RukeyInput::Row0Col5 => {
            reveal_strlit("Row0Col5");
            assert(decimal_text(5) =~= seq!['5']);
        },
        RukeyInput::Row0Col6 => {
            reveal_strlit("Row0Col6");
            assert(decimal_text(6) =~= seq!['6']);
        },
        RukeyInput::Row0Col7 => {
            reveal_strlit("Row0Col7");
            assert(decimal_text(7) =~= seq!['7']);
        },
        RukeyInput::Row0Col8 => {
            reveal_strlit("Row0Col8");
            assert(decimal_text(8) =~= seq!['8']);
        },
        RukeyInput::Row0Col9 => {
            reveal_strlit("Row0Col9");
            assert(decimal_text(9) =~= seq!['9']);
        },
        RukeyInput::Row0Col10 => {
            reveal_strlit("Row0Col10");
            assert(decimal_text(1) =~= seq!['1']);
            assert(decimal_text(10) =~= seq!['1', '0']);
        },
        RukeyInput::Row0Col11 => {
            reveal_strlit("Row0Col11");
            assert(decimal_text(1) =~= seq!['1']);
            assert(decimal_text(11) =~= seq!['1', '1']);
        },
        RukeyInput::Row0Col12 => {
            reveal_strlit("Row0Col12");
            assert(decimal_text(1) =~= seq!['1']);
            assert(decimal_text(12) =~= seq!['1', '2']);
        },
        RukeyInput::Row0Col13 => {
            reveal_strlit("Row0Col13");
            assert(decimal_text(1) =~= seq!['1']);
            assert(decimal_text(13) =~= seq!['1', '3']);
        },
        RukeyInput::Row1Col0 => {
            reveal_strlit("Row1Col0");
            assert(decimal_text(0) =~= seq!['0']);
        },
        RukeyInput::Row1Col1 => {
            reveal_strlit("Row1Col1");
            assert(decimal_text(1) =~= seq!['1']);
        },
        RukeyInput::Row1Col2 => {
            reveal_strlit("Row1Col2");
            assert(decimal_text(2) =~= seq!['2']);
        },
        RukeyInput::Row1Col3 => {
            reveal_strlit("Row1Col3");
            assert(decimal_text(3) =~= seq!['3']);
        },
        RukeyInput::Row1Col4 => {
            reveal_strlit("Row1Col4");
            assert(decimal_text(4) =~= seq!['4']);
        },
        RukeyInput::Row1Col5 => {
            reveal_strlit("Row1Col5");
            assert(decimal_text(5) =~= seq!['5']);
        },
        RukeyInput::Row1Col6 => {
            reveal_strlit("Row1Col6");
            assert(decimal_text(6) =~= seq!['6']);
        },
        RukeyInput::Row1Col7 => {
            reveal_strlit("Row1Col7");
            assert(decimal_text(7) =~= seq!['7']);
        },
        RukeyInput::Row1Col8 => {
            reveal_strlit("Row1Col8");
            assert(decimal_text(8) =~= seq!['8']);
        },
        RukeyInput::Row1Col9 => {
            reveal_strlit("Row1Col9");
            assert(decimal_text(9) =~= seq!['9']);
        },
        RukeyInput::Row1Col10 => {
            reveal_strlit("Row1Col10");
            assert(decimal_text(1) =~= seq!['1']);
            assert(decimal_text(10) =~= seq!['1', '0']);
        },
        RukeyInput::Row1Col11 => {
            reveal_strlit("Row1Col11");
            assert(decimal_text(1) =~= seq!['1']);
            assert(decimal_text(11) =~= seq!['1', '1']);
        },
        RukeyInput::Row1Col12 => {
            reveal_strlit("Row1Col12");
            assert(decimal_text(1) =~= seq!['1']);
            assert(decimal_text(12) =~= seq!['1', '2']);
        },
        RukeyInput::Row1Col13 => {
            reveal_strlit("Row1Col13");
            assert(decimal_text(1) =~= seq!['1']);
            assert(decimal_text(13) =~= seq!['1', '3']);
        },
        RukeyInput::Row2Col0 => {
            reveal_strlit("Row2Col0");
            assert(decimal_text(0) =~= seq!['0']);
        },
        RukeyInput::Row2Col1 => {
            reveal_strlit("Row2Col1");
            assert(decimal_text(1) =~= seq!['1']);
        },
        RukeyInput::Row2Col2 => {
            reveal_strlit("Row2Col2");
            assert(decimal_text(2) =~= seq!['2']);
        },
        RukeyInput::Row2Col3 => {
            reveal_strlit("Row2Col3");
            assert(decimal_text(3) =~= seq!['3']);
        },
        RukeyInput::Row2Col4 => {
            reveal_strlit("Row2Col4");
            assert(decimal_text(4) =~= seq!['4']);
        },
        RukeyInput::Row2Col5 => {
            reveal_strlit("Row2Col5");
            assert(decimal_text(5) =~= seq!['5']);
        },
        RukeyInput::Row2Col6 => {
            reveal_strlit("Row2Col6");
            assert(decimal_text(6) =~= seq!['6']);
        },
        RukeyInput::Row2Col7 => {
            reveal_strlit("Row2Col7");
            assert(decimal_text(7) =~= seq!['7']);
        },
        RukeyInput::Row2Col8 => {
            reveal_strlit("Row2Col8");
            assert(decimal_text(8) =~= seq!['8']);
        },
        RukeyInput::Row2Col9 => {
            reveal_strlit("Row2Col9");
            assert(decimal_text(9) =~= seq!['9']);
        },
        RukeyInput::Row2Col10 => {
            reveal_strlit("Row2Col10");
            assert(decimal_text(1) =~= seq!['1']);
            assert(decimal_text(10) =~= seq!['1', '0']);
        },
        RukeyInput::Row2Col11 => {
            reveal_strlit("Row2Col11");
            assert(decimal_text(1) =~= seq!['1']);
            assert(decimal_text(11) =~= seq!['1', '1']);
        },
        RukeyInput::Row2Col12 => {
            reveal_strlit("Row2Col12");
            assert(decimal_text(1) =~= seq!['1']);
            assert(decimal_text(12) =~= seq!['1', '2']);
        },
        RukeyInput::Row2Col13 => {
            reveal_strlit("Row2Col13");
            assert(decimal_text(1) =~= seq!['1']);
            assert(decimal_text(13) =~= seq!['1', '3']);
        },
        RukeyInput::Row3Col0 => {
            reveal_strlit("Row3Col0");
            assert(decimal_text(0) =~= seq!['0']);
        },
        RukeyInput::Row3Col1 => {
            reveal_strlit("Row3Col1");
            assert(decimal_text(1) =~= seq!['1']);
        },
        RukeyInput::Row3Col2 => {
            reveal_strlit("Row3Col2");
            assert(decimal_text(2) =~= seq!['2']);
        },
        RukeyInput::Row3Col3 => {
            reveal_strlit("Row3Col3");
            assert(decimal_text(3) =~= seq!['3']);
        },
        RukeyInput::Row3Col4 => {
            reveal_strlit("Row3Col4");
            assert(decimal_text(4) =~= seq!['4']);
        },
        RukeyInput::Row3Col5 => {
            reveal_strlit("Row3Col5");
            assert(decimal_text(5) =~= seq!['5']);
        },
        RukeyInput::Row3Col6 => {
            reveal_strlit("Row3Col6");
            assert(decimal_text(6) =~= seq!['6']);
        },
        RukeyInput::Row3Col7 => {
            reveal_strlit("Row3Col7");
            assert(decimal_text(7) =~= seq!['7']);
        },
        RukeyInput::Row3Col8 => {
            reveal_strlit("Row3Col8");
            assert(decimal_text(8) =~= seq!['8']);
        },
        RukeyInput::Row3Col9 => {
            reveal_strlit("Row3Col9");
            assert(decimal_text(9) =~= seq!['9']);
        },
        RukeyInput::Row3Col10 => {
            reveal_strlit("Row3Col10");
            assert(decimal_text(1) =~= seq!['1']);
            assert(decimal_text(10) =~= seq!['1', '0']);
        },
        RukeyInput::Row3Col11 => {
            reveal_strlit("Row3Col11");
            assert(decimal_text(1) =~= seq!['1']);
            assert(decimal_text(11) =~= seq!['1', '1']);
        },
        RukeyInput::Row3Col12 => {
            reveal_strlit("Row3Col12");
            assert(decimal_text(1) =~= seq!['1']);
            assert(decimal_text(12) =~= seq!['1', '2']);
        },
        RukeyInput::Row3Col13 => {
            reveal_strlit("Row3Col13");
            assert(decimal_text(1) =~= seq!['1']);
            assert(decimal_text(13) =~= seq!['1', '3']);
        },
        RukeyInput::Row4Col0 => {
            reveal_strlit("Row4Col0");
            assert(decimal_text(0) =~= seq!['0']);
        },
        RukeyInput::Row4Col1 => {
            reveal_strlit("Row4Col1");
            assert(decimal_text(1) =~= seq!['1']);
        },
        RukeyInput::Row4Col2 => {
            reveal_strlit("Row4Col2");
            assert(decimal_text(2) =~= seq!['2']);
        },
        RukeyInput::Row4Col3 => {
            reveal_strlit("Row4Col3");
            assert(decimal_text(3) =~= seq!['3']);
        },
        RukeyInput::Row4Col4 => {
            reveal_strlit("Row4Col4");
            assert(decimal_text(4) =~= seq!['4']);
        },
        RukeyInput::Row4Col5 => {
            reveal_strlit("Row4Col5");
            assert(decimal_text(5) =~= seq!['5']);
        },
        RukeyInput::Row4Col6 => {
            reveal_strlit("Row4Col6");
            assert(decimal_text(6) =~= seq!['6']);
        },
        RukeyInput::Row4Col7 => {
            reveal_strlit("Row4Col7");
            assert(decimal_text(7) =~= seq!['7']);
        },
        RukeyInput::Row4Col8 => {
            reveal_strlit("Row4Col8");
            assert(decimal_text(8) =~= seq!['8']);
        },
        RukeyInput::Row4Col9 => {
            reveal_strlit("Row4Col9");
            assert(decimal_text(9) =~= seq!['9']);
        },
        RukeyInput::Row4Col10 => {
            reveal_strlit("Row4Col10");
            assert(decimal_text(1) =~= seq!['1']);
            assert(decimal_text(10) =~= seq!['1', '0']);
        },
        RukeyInput::Row4Col11 => {
            reveal_strlit("Row4Col11");
            assert(decimal_text(1) =~= seq!['1']);
            assert(decimal_text(11) =~= seq!['1', '1']);
        },
        RukeyInput::Row4Col12 => {
            reveal_strlit("Row4Col12");
            assert(decimal_text(1) =~= seq!['1']);
            assert(decimal_text(12) =~= seq!['1', '2']);
        },
        RukeyInput::Row4Col13 => {
            reveal_strlit("Row4Col13");
            assert(decimal_text(1) =~= seq!['1']);
            assert(decimal_text(13) =~= seq!['1', '3']);
        },
        RukeyInput::Row5Col0 => {
            reveal_strlit("Row5Col0");
            assert(decimal_text(0) =~= seq!['0']);
        },
        RukeyInput::Row5Col1 => {
            reveal_strlit("Row5Col1");
            assert(decimal_text(1) =~= seq!['1']);
        },
        RukeyInput::Row5Col2 => {
            reveal_strlit("Row5Col2");
            assert(decimal_text(2) =~= seq!['2']);
        },
        RukeyInput::Row5Col3 => {
            reveal_strlit("Row5Col3");
            assert(decimal_text(3) =~= seq!['3']);
        },
        RukeyInput::Row5Col4 => {
            reveal_strlit("Row5Col4");
            assert(decimal_text(4) =~= seq!['4']);
        },
        RukeyInput::Row5Col5 => {
            reveal_strlit("Row5Col5");
            assert(decimal_text(5) =~= seq!['5']);
        },
        RukeyInput::Row5Col6 => {
            reveal_strlit("Row5Col6");
            assert(decimal_text(6) =~= seq!['6']);
        },
        RukeyInput::Row5Col7 => {
            reveal_strlit("Row5Col7");
            assert(decimal_text(7) =~= seq!['7']);
        },
        RukeyInput::Row5Col8 => {
            reveal_strlit("Row5Col8");
            assert(decimal_text(8) =~= seq!['8']);
        },
        RukeyInput::Row5Col9 => {
            reveal_strlit("Row5Col9");
            assert(decimal_text(9) =~= seq!['9']);
        },
        RukeyInput::Row5Col10 => {
            reveal_strlit("Row5Col10");
            assert(decimal_text(1) =~= seq!['1']);
            assert(decimal_text(10) =~= seq!['1', '0']);
        },
        RukeyInput::Row5Col11 => {
            reveal_strlit("Row5Col11");
            assert(decimal_text(1) =~= seq!['1']);
            assert(decimal_text(11) =~= seq!['1', '1']);
        },
        RukeyInput::Row5Col12 => {
            reveal_strlit("Row5Col12");
            assert(decimal_text(1) =~= seq!['1']);
            assert(decimal_text(12) =~= seq!['1', '2']);
        },
        RukeyInput::Row5Col13 => {
            reveal_strlit("Row5Col13");
            assert(decimal_text(1) =~= seq!['1']);
            assert(decimal_text(13) =~= seq!['1', '3']);
        },
    }
}

/// Distinct inputs have distinct kebab names, so reading an input's kebab
/// name back gives that input.
pub proof fn lemma_kebab_names_identify_inputs(a: RukeyInput, b: RukeyInput)
    requires
        a.kebab_name() == b.kebab_name(),
    ensures
        a == b,
{
    lemma_rukey_input_index(a);
    lemma_rukey_input_index(b);
    reveal_strlit("row");
    reveal_strlit("-col");
    let na = a.kebab_name();
    let nb = b.kebab_name();
    let ra = a.row_number();
    let rb = b.row_number();
    let ca = a.col_number();
    let cb = b.col_number();
    assert(decimal_text(ra) == seq![digit_char(ra as int)]);
    assert(decimal_text(rb) == seq![digit_char(rb as int)]);
    assert(na[3] == digit_char(ra as int));
    assert(nb[3] == digit_char(rb as int));
    assert(ra == rb);
    if ca < 10 {
        assert(decimal_text(ca) == seq![digit_char(ca as int)]);
    } else {
        assert(decimal_text(ca / 10) == seq![digit_char((ca / 10) as int)]);
        assert(decimal_text(ca) == seq![digit_char(1), digit_char((ca % 10) as int)]);
    }
    if cb < 10 {
        assert(decimal_text(cb) == seq![digit_char(cb as int)]);
    } else {
        assert(decimal_text(cb / 10) == seq![digit_char((cb / 10) as int)]);
        assert(decimal_text(cb) == seq![digit_char(1), digit_char((cb % 10) as int)]);
    }
    assert(na.len() == nb.len());
    assert(na[8] == nb[8]);
    if na.len() == 10 {
        assert(na[9] == nb[9]);
    }
    assert(ca == cb);
    assert(a.matrix_index() == b.matrix_index());
}

/// An output: a mouse action, a key, or a control of the keyboard itself.
#[derive(Debug, Clone, Copy, PartialEq, Eq, Structural)]
pub enum ComputerInput {
    Mouse(MouseInput),
    Keyboard(KeyboardInput),
    Control(RukeyControl),
}

/// A mouse action; the movement variants give a speed in pixels per second.
#[derive(Debug, Clone, Copy, PartialEq, Eq, Structural)]
pub enum MouseInput {
    /// The mouse will scroll up by this many pixels per second
    ScrollUp(i16),
    /// The mouse will scroll down by this many pixels per second
    ScrollDown(i16),
    /// The mouse will scroll right by this many pixels per second
    ScrollRight(i16),
    /// The mouse will scroll left by this many pixels per second
    ScrollLeft(i16),
    /// The cursor will move up by this many pixels per second
    MoveUp(i16),
    /// The cursor will move down by this many pixels per second
    MoveDown(i16),
    /// The cursor will move right by this many pixels per second
    MoveRight(i16),
    /// The cursor will move left by this many pixels per second
    MoveLeft(i16),
    ClickLeft,
    ClickMiddle,
    ClickRight,
}

impl Default for MouseInput {
    fn default() -> (r: MouseInput)
        ensures
            r == MouseInput::ClickLeft,
    {
        MouseInput::ClickLeft
    }
}

/// The mouse action named `s` (in either spelling), with its speed read from `value`.
pub open spec fn mouse_input_named(s: Seq<char>, value: Seq<char>) -> Option<MouseInput> {
    if s == "ScrollUp"@ || s == "scroll-up"@ {
        match parsed_i16(value) {
            Some(v) => Some(MouseInput::ScrollUp(v)),
            None => None,
        }
    } else if s == "ScrollDown"@ || s == "scroll-down"@ {
        match parsed_i16(value) {
            Some(v) => Some(MouseInput::ScrollDown(v)),
            None => None,
        }
    } else if s == "ScrollRight"@ || s == "scroll-right"@ {
        match parsed_i16(value) {
            Some(v) => Some(MouseInput::ScrollRight(v)),
            None => None,
        }
    } else if s == "ScrollLeft"@ || s == "scroll-left"@ {
        match parsed_i16(value) {
            Some(v) => Some(MouseInput::ScrollLeft(v)),
            None => None,
        }
    } else if s == "MoveUp"@ || s == "move-up"@ {
        match parsed_i16(value) {
            Some(v) => Some(MouseInput::MoveUp(v)),
            None => None,
        }
    } else if s == "MoveDown"@ || s == "move-down"@ {
        match parsed_i16(value) {
            Some(v) => Some(MouseInput::MoveDown(v)),
            None => None,
        }
    } else if s == "MoveRight"@ || s == "move-right"@ {
        match parsed_i16(value) {
            Some(v) => Some(MouseInput::MoveRight(v)),
            None => None,
        }
    } else if s == "MoveLeft"@ || s == "move-left"@ {
        match parsed_i16(value) {
            Some(v) => Some(MouseInput::MoveLeft(v)),
            None => None,
        }
    } else if s == "ClickLeft"@ || s == "click-left"@ {
        Some(MouseInput::ClickLeft)
    } else if s == "ClickMiddle"@ || s == "click-middle "@ {
        Some(MouseInput::ClickMiddle)
    } else if s == "ClickRight"@ || s == "click-right"@ {
        Some(MouseInput::ClickRight)
    } else {
        None
    }
}

/// The Pascal-case name of each mouse action.
pub open spec fn mouse_pascal_name(m: MouseInput) -> Seq<char> {
    match m {
        MouseInput::ScrollUp(_) => "ScrollUp"@,
        MouseInput::ScrollDown(_) => "ScrollDown"@,
        MouseInput::ScrollRight(_) => "ScrollRight"@,
        MouseInput::ScrollLeft(_) => "ScrollLeft"@,
        MouseInput::MoveUp(_) => "MoveUp"@,
        MouseInput::MoveDown(_) => "MoveDown"@,
        MouseInput::MoveRight(_) => "MoveRight"@,
        MouseInput::MoveLeft(_) => "MoveLeft"@,
        MouseInput::ClickLeft => "ClickLeft"@,
        MouseInput::ClickMiddle => "ClickMiddle"@,
        MouseInput::ClickRight => "ClickRight"@,
    }
}

/// The kebab-case name of each mouse action. The middle click's name ends in
/// a space, as the configurator has always matched it.
pub open spec fn mouse_kebab_name(m: MouseInput) -> Seq<char> {
    match m {
        MouseInput::ScrollUp(_) => "scroll-up"@,
        MouseInput::ScrollDown(_) => "scroll-down"@,
        MouseInput::ScrollRight(_) => "scroll-right"@,
        MouseInput::ScrollLeft(_) => "scroll-left"@,
        MouseInput::MoveUp(_) => "move-up"@,
        MouseInput::MoveDown(_) => "move-down"@,
        MouseInput::MoveRight(_) => "move-right"@,
        MouseInput::MoveLeft(_) => "move-left"@,
        MouseInput::ClickLeft => "click-left"@,
        MouseInput::ClickMiddle => "click-middle "@,
        MouseInput::ClickRight => "click-right"@,
    }
}

/// The speed of a movement or scroll action; clicks have none.
pub open spec fn mouse_speed(m: MouseInput) -> Option<i16> {
    match m {
        MouseInput::ScrollUp(v) => Some(v),
        MouseInput::ScrollDown(v) => Some(v),
        MouseInput::ScrollRight(v) => Some(v),
        MouseInput::ScrollLeft(v) => Some(v),
        MouseInput::MoveUp(v) => Some(v),
        MouseInput::MoveDown(v) => Some(v),
        MouseInput::MoveRight(v) => Some(v),
        MouseInput::MoveLeft(v) => Some(v),
        _ => None,
    }
}

proof fn lemma_speed_text_reads_back(v: i16)
    ensures
        parsed_i16(integer_text(v as int)) == Some(v),
{
    lemma_integer_text_reads_back(v as int);
}

/// Every mouse action reads back from either of its names: a movement or
/// scroll action with the decimal text of its speed, a click with any value.
pub proof fn lemma_mouse_names_read_back(m: MouseInput, value: Seq<char>)
    ensures
        match mouse_speed(m) {
            Some(v) => mouse_input_named(mouse_pascal_name(m), integer_text(v as int)) == Some(m)
                && mouse_input_named(mouse_kebab_name(m), integer_text(v as int)) == Some(m),
            None => mouse_input_named(mouse_pascal_name(m), value) == Some(m) && mouse_input_named(
                mouse_kebab_name(m),
                value,
            ) == Some(m),
        },
{
    reveal_strlit("ScrollUp");
    reveal_strlit("scroll-up");
    reveal_strlit("ScrollDown");
    reveal_strlit("scroll-down");
    reveal_strlit("ScrollRight");
    reveal_strlit("scroll-right");
    reveal_strlit("ScrollLeft");
    reveal_strlit("scroll-left");
    reveal_strlit("MoveUp");
    reveal_strlit("move-up");
    reveal_strlit("MoveDown");
    reveal_strlit("move-down");
    reveal_strlit("MoveRight");
    reveal_strlit("move-right");
    reveal_strlit("MoveLeft");
    reveal_strlit("move-left");
    reveal_strlit("ClickLeft");
    reveal_strlit("click-left");
    reveal_strlit("ClickMiddle");
    reveal_strlit("click-middle ");
    reveal_strlit("ClickRight");
    reveal_strlit("click-right");
    // each name is spelled out, so that it can be told from the names before it
    match m {
        MouseInput::ScrollUp(v) => {
            lemma_speed_text_reads_back(v);
            assert("ScrollUp"@.len() == 8 && "ScrollUp"@[0] == 'S' && "ScrollUp"@[1] == 'c' && "ScrollUp"@[2] == 'r' && "ScrollUp"@[3] == 'o' && "ScrollUp"@[4] == 'l' && "ScrollUp"@[5] == 'l' && "ScrollUp"@[6] == 'U' && "ScrollUp"@[7] == 'p');
            assert("scroll-up"@.len() == 9 && "scroll-up"@[0] == 's' && "scroll-up"@[1] == 'c' && "scroll-up"@[2] == 'r' && "scroll-up"@[3] == 'o' && "scroll-up"@[4] == 'l' && "scroll-up"@[5] == 'l' && "scroll-up"@[6] == '-' && "scroll-up"@[7] == 'u' && "scroll-up"@[8] == 'p');
        },
        MouseInput::ScrollDown(v) => {
            lemma_speed_text_reads_back(v);
            assert("ScrollDown"@.len() == 10 && "ScrollDown"@[0] == 'S' && "ScrollDown"@[1] == 'c' && "ScrollDown"@[2] == 'r' && "ScrollDown"@[3] == 'o' && "ScrollDown"@[4] == 'l' && "ScrollDown"@[5] == 'l' && "ScrollDown"@[6] == 'D' && "ScrollDown"@[7] == 'o' && "ScrollDown"@[8] == 'w' && "ScrollDown"@[9] == 'n');
            assert("scroll-down"@.len() == 11 && "scroll-down"@[0] == 's' && "scroll-down"@[1] == 'c' && "scroll-down"@[2] == 'r' && "scroll-down"@[3] == 'o' && "scroll-down"@[4] == 'l' && "scroll-down"@[5] == 'l' && "scroll-down"@[6] == '-' && "scroll-down"@[7] == 'd' && "scroll-down"@[8] == 'o' && "scroll-down"@[9] == 'w' && "scroll-down"@[10] == 'n');
        },
        MouseInput::ScrollRight(v) => {
            lemma_speed_text_reads_back(v);
            assert("ScrollRight"@.len() == 11 && "ScrollRight"@[0] == 'S' && "ScrollRight"@[1] == 'c' && "ScrollRight"@[2] == 'r' && "ScrollRight"@[3] == 'o' && "ScrollRight"@[4] == 'l' && "ScrollRight"@[5] == 'l' && "ScrollRight"@[6] == 'R' && "ScrollRight"@[7] == 'i' && "ScrollRight"@[8] == 'g' && "ScrollRight"@[9] == 'h' && "ScrollRight"@[10] == 't');
            assert("scroll-right"@.len() == 12 && "scroll-right"@[0] == 's' && "scroll-right"@[1] == 'c' && "scroll-right"@[2] == 'r' && "scroll-right"@[3] == 'o' && "scroll-right"@[4] == 'l' && "scroll-right"@[5] == 'l' && "scroll-right"@[6] == '-' && "scroll-right"@[7] == 'r' && "scroll-right"@[8] == 'i' && "scroll-right"@[9] == 'g' && "scroll-right"@[10] == 'h' && "scroll-right"@[11] == 't');
        },
        MouseInput::ScrollLeft(v) => {
            lemma_speed_text_reads_back(v);
            assert("ScrollLeft"@.len() == 10 && "ScrollLeft"@[0] == 'S' && "ScrollLeft"@[1] == 'c' && "ScrollLeft"@[2] == 'r' && "ScrollLeft"@[3] == 'o' && "ScrollLeft"@[4] == 'l' && "ScrollLeft"@[5] == 'l' && "ScrollLeft"@[6] == 'L' && "ScrollLeft"@[7] == 'e' && "ScrollLeft"@[8] == 'f' && "ScrollLeft"@[9] == 't');
            assert("scroll-left"@.len() == 11 && "scroll-left"@[0] == 's' && "scroll-left"@[1] == 'c' && "scroll-left"@[2] == 'r' && "scroll-left"@[3] == 'o' && "scroll-left"@[4] == 'l' && "scroll-left"@[5] == 'l' && "scroll-left"@[6] == '-' && "scroll-left"@[7] == 'l' && "scroll-left"@[8] == 'e' && "scroll-left"@[9] == 'f' && "scroll-left"@[10] == 't');
        },
        MouseInput::MoveUp(v) => {
            lemma_speed_text_reads_back(v);
            assert("MoveUp"@.len() == 6 && "MoveUp"@[0] == 'M' && "MoveUp"@[1] == 'o' && "MoveUp"@[2] == 'v' && "MoveUp"@[3] == 'e' && "MoveUp"@[4] == 'U' && "MoveUp"@[5] == 'p');
            assert("move-up"@.len() == 7 && "move-up"@[0] == 'm' && "move-up"@[1] == 'o' && "move-up"@[2] == 'v' && "move-up"@[3] == 'e' && "move-up"@[4] == '-' && "move-up"@[5] == 'u' && "move-up"@[6] == 'p');
        },
        MouseInput::MoveDown(v) => {
            lemma_speed_text_reads_back(v);
            assert("MoveDown"@.len() == 8 && "MoveDown"@[0] == 'M' && "MoveDown"@[1] == 'o' && "MoveDown"@[2] == 'v' && "MoveDown"@[3] == 'e' && "MoveDown"@[4] == 'D' && "MoveDown"@[5] == 'o' && "MoveDown"@[6] == 'w' && "MoveDown"@[7] == 'n');
            assert("move-down"@.len() == 9 && "move-down"@[0] == 'm' && "move-down"@[1] == 'o' && "move-down"@[2] == 'v' && "move-down"@[3] == 'e' && "move-down"@[4] == '-' && "move-down"@[5] == 'd' && "move-down"@[6] == 'o' && "move-down"@[7] == 'w' && "move-down"@[8] == 'n');
        },
        MouseInput::MoveRight(v) => {
            lemma_speed_text_reads_back(v);
            assert("MoveRight"@.len() == 9 && "MoveRight"@[0] == 'M' && "MoveRight"@[1] == 'o' && "MoveRight"@[2] == 'v' && "MoveRight"@[3] == 'e' && "MoveRight"@[4] == 'R' && "MoveRight"@[5] == 'i' && "MoveRight"@[6] == 'g' && "MoveRight"@[7] == 'h' && "MoveRight"@[8] == 't');
            assert("move-right"@.len() == 10 && "move-right"@[0] == 'm' && "move-right"@[1] == 'o' && "move-right"@[2] == 'v' && "move-right"@[3] == 'e' && "move-right"@[4] == '-' && "move-right"@[5] == 'r' && "move-right"@[6] == 'i' && "move-right"@[7] == 'g' && "move-right"@[8] == 'h' && "move-right"@[9] == 't');
        },
        MouseInput::MoveLeft(v) => {
            lemma_speed_text_reads_back(v);
            assert("MoveLeft"@.len() == 8 && "MoveLeft"@[0] == 'M' && "MoveLeft"@[1] == 'o' && "MoveLeft"@[2] == 'v' && "MoveLeft"@[3] == 'e' && "MoveLeft"@[4] == 'L' && "MoveLeft"@[5] == 'e' && "MoveLeft"@[6] == 'f' && "MoveLeft"@[7] == 't');
            assert("move-left"@.len() == 9 && "move-left"@[0] == 'm' && "move-left"@[1] == 'o' && "move-left"@[2] == 'v' && "move-left"@[3] == 'e' && "move-left"@[4] == '-' && "move-left"@[5] == 'l' && "move-left"@[6] == 'e' && "move-left"@[7] == 'f' && "move-left"@[8] == 't');
        },
        MouseInput::ClickLeft => {
            assert("ClickLeft"@.len() == 9 && "ClickLeft"@[0] == 'C' && "ClickLeft"@[1] == 'l' && "ClickLeft"@[2] == 'i' && "ClickLeft"@[3] == 'c' && "ClickLeft"@[4] == 'k' && "ClickLeft"@[5] == 'L' && "ClickLeft"@[6] == 'e' && "ClickLeft"@[7] == 'f' && "ClickLeft"@[8] == 't');
            assert("click-left"@.len() == 10 && "click-left"@[0] == 'c' && "click-left"@[1] == 'l' && "click-left"@[2] == 'i' && "click-left"@[3] == 'c' && "click-left"@[4] == 'k' && "click-left"@[5] == '-' && "click-left"@[6] == 'l' && "click-left"@[7] == 'e' && "click-left"@[8] == 'f' && "click-left"@[9] == 't');
        },
        MouseInput::ClickMiddle => {
            assert("ClickMiddle"@.len() == 11 && "ClickMiddle"@[0] == 'C' && "ClickMiddle"@[1] == 'l' && "ClickMiddle"@[2] == 'i' && "ClickMiddle"@[3] == 'c' && "ClickMiddle"@[4] == 'k' && "ClickMiddle"@[5] == 'M' && "ClickMiddle"@[6] == 'i' && "ClickMiddle"@[7] == 'd' && "ClickMiddle"@[8] == 'd' && "ClickMiddle"@[9] == 'l' && "ClickMiddle"@[10] == 'e');
            assert("click-middle "@.len() == 13 && "click-middle "@[0] == 'c' && "click-middle "@[1] == 'l' && "click-middle "@[2] == 'i' && "click-middle "@[3] == 'c' && "click-middle "@[4] == 'k' && "click-middle "@[5] == '-' && "click-middle "@[6] == 'm' && "click-middle "@[7] == 'i' && "click-middle "@[8] == 'd' && "click-middle "@[9] == 'd' && "click-middle "@[10] == 'l' && "click-middle "@[11] == 'e' && "click-middle "@[12] == ' ');
        },
        MouseInput::ClickRight => {
            assert("ClickRight"@.len() == 10 && "ClickRight"@[0] == 'C' && "ClickRight"@[1] == 'l' && "ClickRight"@[2] == 'i' && "ClickRight"@[3] == 'c' && "ClickRight"@[4] == 'k' && "ClickRight"@[5] == 'R' && "ClickRight"@[6] == 'i' && "ClickRight"@[7] == 'g' && "ClickRight"@[8] == 'h' && "ClickRight"@[9] == 't');
            assert("click-right"@.len() == 11 && "click-right"@[0] == 'c' && "click-right"@[1] == 'l' && "click-right"@[2] == 'i' && "click-right"@[3] == 'c' && "click-right"@[4] == 'k' && "click-right"@[5] == '-' && "click-right"@[6] == 'r' && "click-right"@[7] == 'i' && "click-right"@[8] == 'g' && "click-right"@[9] == 'h' && "click-right"@[10] == 't');
        },
    }
}

impl MouseInput {
    /// The mouse action named `s`; `value` gives the speed of the movement actions.
    pub fn from_string(s: &str, value: &str) -> (r: Option<Self>)
        ensures
            r == mouse_input_named(s@, value@),
    {
        let name = chars_of(s);
        let value = chars_of(value);
        Self::from_chars(name.as_slice(), value.as_slice())
    }

    /// `from_string` on the characters of the name and of the value.
    pub fn from_chars(name: &[char], value: &[char]) -> (r: Option<Self>)
        ensures
            r == mouse_input_named(name@, value@),
    {
        if is_text(name, "ScrollUp") || is_text(name, "scroll-up") {
            match parse_i16(value) {
                Some(v) => Some(MouseInput::ScrollUp(v)),
                None => None,
            }
        } else if is_text(name, "ScrollDown") || is_text(name, "scroll-down") {
            match parse_i16(value) {
                Some(v) => Some(MouseInput::ScrollDown(v)),
                None => None,
            }
        } else if is_text(name, "ScrollRight") || is_text(name, "scroll-right") {
            match parse_i16(value) {
                Some(v) => Some(MouseInput::ScrollRight(v)),
                None => None,
            }
        } else if is_text(name, "ScrollLeft") || is_text(name, "scroll-left") {
            match parse_i16(value) {
                Some(v) => Some(MouseInput::ScrollLeft(v)),
                None => None,
            }
        } else if is_text(name, "MoveUp") || is_text(name, "move-up") {
            match parse_i16(value) {
                Some(v) => Some(MouseInput::MoveUp(v)),
                None => None,
            }
        } else if is_text(name, "MoveDown") || is_text(name, "move-down") {
            match parse_i16(value) {
                Some(v) => Some(MouseInput::MoveDown(v)),
                None => None,
            }
        } else if is_text(name, "MoveRight") || is_text(name, "move-right") {
            match parse_i16(value) {
                Some(v) => Some(MouseInput::MoveRight(v)),
                None => None,
            }
        } else if is_text(name, "MoveLeft") || is_text(name, "move-left") {
            match parse_i16(value) {
                Some(v) => Some(MouseInput::MoveLeft(v)),
                None => None,
            }
        } else if is_text(name, "ClickLeft") || is_text(name, "click-left") {
            Some(MouseInput::ClickLeft)
        } else if is_text(name, "ClickMiddle") || is_text(name, "click-middle ") {
            Some(MouseInput::ClickMiddle)
        } else if is_text(name, "ClickRight") || is_text(name, "click-right") {
            Some(MouseInput::ClickRight)
        } else {
            None
        }
    }
}

/// A key of a USB HID keyboard.
#[derive(Debug, Clone, Copy, PartialEq, Eq, Structural)]
pub enum KeyboardInput {
    A,
    B,
    C,
    D,
    E,
    F,
    G,
    H,
    I,
    J,
    K,
    L,
    M,
    N,
    O,
    P,
    Q,
    R,
    S,
    T,
    U,
    V,
    W,
    X,
    Y,
    Z,
    TopRow1Exclamation,
    TopRow2At,
    TopRow3Hash,
    TopRow4Dollar,
    TopRow5Percent,
    TopRow6Caret,
    TopRow7Ampersand,
    TopRow8Asterisk,
    TopRow9OpenParens,
    TopRow0CloseParens,
    Enter,
    Escape,
    Backspace,
    Tab,
    Spacebar,
    DashUnderscore,
    EqualPlus,
    OpenBracketBrace,
    CloseBracketBrace,
    BackslashBar,
    NonUSHash,
    SemiColon,
    SingleDoubleQuote,
    BacktickTilde,
    CommaLessThan,
    PeriodGreaterThan,
    SlashQuestion,
    CapsLock,
    F1,
    F2,
    F3,
    F4,
    F5,
    F6,
    F7,
    F8,
    F9,
    F10,
    F11,
    F12,
    PrintScreen,
    ScrollLock,
    Pause,
    Insert,
    Home,
    PageUp,
    Delete,
    End,
    PageDown,
    RightArrow,
    LeftArrow,
    DownArrow,
    UpArrow,
    KeypadNumLock,
    KeypadDivide,
    KeypadMultiply,
    KeypadMinus,
    KeypadPlus,
    KeypadEnter,
    Keypad1End,
    Keypad2DownArrow,
    Keypad3PageDown,
    Keypad4LeftArrow,
    Keypad5,
    Keypad6RightArrow,
    Keypad7Home,
    Keypad8UpArrow,
    Keypad9PageUp,
    Keypad0Insert,
    KeypadPeriodDelete,
    NonUSSlash,
    Application,
    Power,
    KeypadEqual,
    F13,
    F14,
    F15,
    F16,
    F17,
    F18,
    F19,
    F20,
    F21,
    F22,
    F23,
    F24,
    Execute,
    Help,
    Menu,
    Select,
    Stop,
    Again,
    Undo,
    Cut,
    Copy,
    Paste,
    Find,
    Mute,
    VolumeUp,
    VolumeDown,
    LockingCapsLock,
    LockingNumLock,
    LockingScrollLock,
    KeypadComma,
    KeypadEqualSign,
    International1,
    International2,
    International3,
    International4,
    International5,
    International6,
    International7,
    International8,
    International9,
    LANG1,
    LANG2,
    LANG3,
    LANG4,
    LANG5,
    LANG6,
    LANG7,
    LANG8,
    LANG9,
    AlternateErase,
    SysReqAttention,
    Cancel,
    Clear,
    Prior,
    Return,
    Separator,
    Out,
    Oper,
    ClearAgain,
    CrSelProps,
    ExSel,
    LeftControl,
    LeftShift,
    LeftAlt,
    LeftWindows,
    RightControl,
    RightShift,
    RightAlt,
    RightWindows,
    MediaPlayPause,
    MediaPreviousSong,
    MediaNextSong,
}

impl Default for KeyboardInput {
    fn default() -> (r: KeyboardInput)
        ensures
            r == KeyboardInput::A,
    {
        KeyboardInput::A
    }
}

/// The key at position `i` in declaration order.
pub open spec fn keyboard_input_at(i: u8) -> KeyboardInput {
    match i {
        0 => KeyboardInput::A,
        1 => KeyboardInput::B,
        2 => KeyboardInput::C,
        3 => KeyboardInput::D,
        4 => KeyboardInput::E,
        5 => KeyboardInput::F,
        6 => KeyboardInput::G,
        7 => KeyboardInput::H,
        8 => KeyboardInput::I,
        9 => KeyboardInput::J,
        10 => KeyboardInput::K,
        11 => KeyboardInput::L,
        12 => KeyboardInput::M,
        13 => KeyboardInput::N,
        14 => KeyboardInput::O,
        15 => KeyboardInput::P,
        16 => KeyboardInput::Q,
        17 => KeyboardInput::R,
        18 => KeyboardInput::S,
        19 => KeyboardInput::T,
        20 => KeyboardInput::U,
        21 => KeyboardInput::V,
        22 => KeyboardInput::W,
        23 => KeyboardInput::X,
        24 => KeyboardInput::Y,
        25 => KeyboardInput::Z,
        26 => KeyboardInput::TopRow1Exclamation,
        27 => KeyboardInput::TopRow2At,
        28 => KeyboardInput::TopRow3Hash,
        29 => KeyboardInput::TopRow4Dollar,
        30 => KeyboardInput::TopRow5Percent,
        31 => KeyboardInput::TopRow6Caret,
        32 => KeyboardInput::TopRow7Ampersand,
        33 => KeyboardInput::TopRow8Asterisk,
        34 => KeyboardInput::TopRow9OpenParens,
        35 => KeyboardInput::TopRow0CloseParens,
        36 => KeyboardInput::Enter,
        37 => KeyboardInput::Escape,
        38 => KeyboardInput::Backspace,
        39 => KeyboardInput::Tab,
        40 => KeyboardInput::Spacebar,
        41 => KeyboardInput::DashUnderscore,
        42 => KeyboardInput::EqualPlus,
        43 => KeyboardInput::OpenBracketBrace,
        44 => KeyboardInput::CloseBracketBrace,
        45 => KeyboardInput::BackslashBar,
        46 => KeyboardInput::NonUSHash,
        47 => KeyboardInput::SemiColon,
        48 => KeyboardInput::SingleDoubleQuote,
        49 => KeyboardInput::BacktickTilde,
        50 => KeyboardInput::CommaLessThan,
        51 => KeyboardInput::PeriodGreaterThan,
        52 => KeyboardInput::SlashQuestion,
        53 => KeyboardInput::CapsLock,
        54 => KeyboardInput::F1,
        55 => KeyboardInput::F2,
        56 => KeyboardInput::F3,
        57 => KeyboardInput::F4,
        58 => KeyboardInput::F5,
        59 => KeyboardInput::F6,
        60 => KeyboardInput::F7,
        61 => KeyboardInput::F8,
        62 => KeyboardInput::F9,
        63 => KeyboardInput::F10,
        64 => KeyboardInput::F11,
        65 => KeyboardInput::F12,
        66 => KeyboardInput::PrintScreen,
        67 => KeyboardInput::ScrollLock,
        68 => KeyboardInput::Pause,
        69 => KeyboardInput::Insert,
        70 => KeyboardInput::Home,
        71 => KeyboardInput::PageUp,
        72 => KeyboardInput::Delete,
        73 => KeyboardInput::End,
        74 => KeyboardInput::PageDown,
        75 => KeyboardInput::RightArrow,
        76 => KeyboardInput::LeftArrow,
        77 => KeyboardInput::DownArrow,
        78 => KeyboardInput::UpArrow,
        79 => KeyboardInput::KeypadNumLock,
        80 => KeyboardInput::KeypadDivide,
        81 => KeyboardInput::KeypadMultiply,
        82 => KeyboardInput::KeypadMinus,
        83 => KeyboardInput::KeypadPlus,
        84 => KeyboardInput::KeypadEnter,
        85 => KeyboardInput::Keypad1End,
        86 => KeyboardInput::Keypad2DownArrow,
        87 => KeyboardInput::Keypad3PageDown,
        88 => KeyboardInput::Keypad4LeftArrow,
        89 => KeyboardInput::Keypad5,
        90 => KeyboardInput::Keypad6RightArrow,
        91 => KeyboardInput::Keypad7Home,
        92 => KeyboardInput::Keypad8UpArrow,
        93 => KeyboardInput::Keypad9PageUp,
        94 => KeyboardInput::Keypad0Insert,
        95 => KeyboardInput::KeypadPeriodDelete,
        96 => KeyboardInput::NonUSSlash,
        97 => KeyboardInput::Application,
        98 => KeyboardInput::Power,
        99 => KeyboardInput::KeypadEqual,
        100 => KeyboardInput::F13,
        101 => KeyboardInput::F14,
        102 => KeyboardInput::F15,
        103 => KeyboardInput::F16,
        104 => KeyboardInput::F17,
        105 => KeyboardInput::F18,
        106 => KeyboardInput::F19,
        107 => KeyboardInput::F20,
        108 => KeyboardInput::F21,
        109 => KeyboardInput::F22,
        110 => KeyboardInput::F23,
        111 => KeyboardInput::F24,
        112 => KeyboardInput::Execute,
        113 => KeyboardInput::Help,
        114 => KeyboardInput::Menu,
        115 => KeyboardInput::Select,
        116 => KeyboardInput::Stop,
        117 => KeyboardInput::Again,
        118 => KeyboardInput::Undo,
        119 => KeyboardInput::Cut,
        120 => KeyboardInput::Copy,
        121 => KeyboardInput::Paste,
        122 => KeyboardInput::Find,
        123 => KeyboardInput::Mute,
        124 => KeyboardInput::VolumeUp,
        125 => KeyboardInput::VolumeDown,
        126 => KeyboardInput::LockingCapsLock,
        127 => KeyboardInput::LockingNumLock,
        128 => KeyboardInput::LockingScrollLock,
        129 => KeyboardInput::KeypadComma,
        130 => KeyboardInput::KeypadEqualSign,
        131 => KeyboardInput::International1,
        132 => KeyboardInput::International2,
        133 => KeyboardInput::International3,
        134 => KeyboardInput::International4,
        135 => KeyboardInput::International5,
        136 => KeyboardInput::International6,
        137 => KeyboardInput::International7,
        138 => KeyboardInput::International8,
        139 => KeyboardInput::International9,
        140 => KeyboardInput::LANG1,
        141 => KeyboardInput::LANG2,
        142 => KeyboardInput::LANG3,
        143 => KeyboardInput::LANG4,
        144 => KeyboardInput::LANG5,
        145 => KeyboardInput::LANG6,
        146 => KeyboardInput::LANG7,
        147 => KeyboardInput::LANG8,
        148 => KeyboardInput::LANG9,
        149 => KeyboardInput::AlternateErase,
        150 => KeyboardInput::SysReqAttention,
        151 => KeyboardInput::Cancel,
        152 => KeyboardInput::Clear,
        153 => KeyboardInput::Prior,
        154 => KeyboardInput::Return,
        155 => KeyboardInput::Separator,
        156 => KeyboardInput::Out,
        157 => KeyboardInput::Oper,
        158 => KeyboardInput::ClearAgain,
        159 => KeyboardInput::CrSelProps,
        160 => KeyboardInput::ExSel,
        161 => KeyboardInput::LeftControl,
        162 => KeyboardInput::LeftShift,
        163 => KeyboardInput::LeftAlt,
        164 => KeyboardInput::LeftWindows,
        165 => KeyboardInput::RightControl,
        166 => KeyboardInput::RightShift,
        167 => KeyboardInput::RightAlt,
        168 => KeyboardInput::RightWindows,
        169 => KeyboardInput::MediaPlayPause,
        170 => KeyboardInput::MediaPreviousSong,
        171 => KeyboardInput::MediaNextSong,
        _ => KeyboardInput::A,
    }
}

/// Number of keyboard keys.
pub const KEYBOARD_INPUT_COUNT: u8 = 172;

/// Every key, in declaration order.
pub open spec fn all_keyboard_inputs() -> Seq<KeyboardInput> {
    Seq::new(KEYBOARD_INPUT_COUNT as nat, |i: int| keyboard_input_at(i as u8))
}

/// The keys offered first when configuring the keyboard.
pub open spec fn common_keyboard_inputs() -> Seq<KeyboardInput> {
    seq![
        KeyboardInput::RightArrow,
        KeyboardInput::LeftArrow,
        KeyboardInput::DownArrow,
        KeyboardInput::UpArrow,
        KeyboardInput::PageUp,
        KeyboardInput::PageDown,
        KeyboardInput::Tab,
        KeyboardInput::Escape,
        KeyboardInput::A,
        KeyboardInput::B,
        KeyboardInput::C,
        KeyboardInput::D,
        KeyboardInput::E,
        KeyboardInput::F,
        KeyboardInput::G,
        KeyboardInput::H,
        KeyboardInput::I,
        KeyboardInput::J,
        KeyboardInput::K,
        KeyboardInput::L,
        KeyboardInput::M,
        KeyboardInput::N,
        KeyboardInput::O,
        KeyboardInput::P,
        KeyboardInput::Q,
        KeyboardInput::R,
        KeyboardInput::S,
        KeyboardInput::T,
        KeyboardInput::U,
        KeyboardInput::V,
        KeyboardInput::W,
        KeyboardInput::X,
        KeyboardInput::Y,
        KeyboardInput::Z,
        KeyboardInput::TopRow1Exclamation,
        KeyboardInput::TopRow2At,
        KeyboardInput::TopRow3Hash,
        KeyboardInput::TopRow4Dollar,
        KeyboardInput::TopRow5Percent,
        KeyboardInput::TopRow6Caret,
        KeyboardInput::TopRow7Ampersand,
        KeyboardInput::TopRow8Asterisk,
        KeyboardInput::TopRow9OpenParens,
        KeyboardInput::TopRow0CloseParens,
        KeyboardInput::Enter,
        KeyboardInput::Backspace,
        KeyboardInput::Delete,
        KeyboardInput::Spacebar,
        KeyboardInput::DashUnderscore,
        KeyboardInput::EqualPlus,
        KeyboardInput::OpenBracketBrace,
        KeyboardInput::CloseBracketBrace,
        KeyboardInput::BackslashBar,
        KeyboardInput::NonUSHash,
        KeyboardInput::SemiColon,
        KeyboardInput::SingleDoubleQuote,
        KeyboardInput::BacktickTilde,
        KeyboardInput::CommaLessThan,
        KeyboardInput::PeriodGreaterThan,
        KeyboardInput::SlashQuestion,
        KeyboardInput::F1,
        KeyboardInput::F2,
        KeyboardInput::F3,
        KeyboardInput::F4,
        KeyboardInput::F5,
        KeyboardInput::F6,
        KeyboardInput::F7,
        KeyboardInput::F8,
        KeyboardInput::F9,
        KeyboardInput::F10,
        KeyboardInput::F11,
        KeyboardInput::F12,
        KeyboardInput::LeftControl,
        KeyboardInput::LeftShift,
        KeyboardInput::LeftAlt,
        KeyboardInput::LeftWindows,
        KeyboardInput::RightControl,
        KeyboardInput::RightShift,
        KeyboardInput::RightAlt,
        KeyboardInput::RightWindows,
        KeyboardInput::PrintScreen,
        KeyboardInput::Pause,
        KeyboardInput::Insert,
        KeyboardInput::Home,
        KeyboardInput::End,
        KeyboardInput::Power,
        KeyboardInput::Cut,
        KeyboardInput::Copy,
        KeyboardInput::Paste,
        KeyboardInput::Find,
        KeyboardInput::Mute,
        KeyboardInput::VolumeUp,
        KeyboardInput::VolumeDown,
    ]
}

/// The first key, in declaration order from position `i`, whose variant name is `s`.
pub open spec fn keyboard_input_named_from(s: Seq<char>, i: nat) -> Option<KeyboardInput>
    decreases KEYBOARD_INPUT_COUNT - i,
{
    if i >= KEYBOARD_INPUT_COUNT {
        None
    } else if keyboard_input_at(i as u8).variant_name() == s {
        Some(keyboard_input_at(i as u8))
    } else {
        keyboard_input_named_from(s, i + 1)
    }
}

/// The key whose variant name is `s`, if there is one.
pub open spec fn keyboard_input_named(s: Seq<char>) -> Option<KeyboardInput> {
    keyboard_input_named_from(s, 0)
}

impl KeyboardInput {
    /// Position of the key in declaration order.
    pub open spec fn declaration_index(self) -> u8 {
        match self {
            KeyboardInput::A => 0,
            KeyboardInput::B => 1,
            KeyboardInput::C => 2,
            KeyboardInput::D => 3,
            KeyboardInput::E => 4,
            KeyboardInput::F => 5,
            KeyboardInput::G => 6,
            KeyboardInput::H => 7,
            KeyboardInput::I => 8,
            KeyboardInput::J => 9,
            KeyboardInput::K => 10,
            KeyboardInput::L => 11,
            KeyboardInput::M => 12,
            KeyboardInput::N => 13,
            KeyboardInput::O => 14,
            KeyboardInput::P => 15,
            KeyboardInput::Q => 16,
            KeyboardInput::R => 17,
            KeyboardInput::S => 18,
            KeyboardInput::T => 19,
            KeyboardInput::U => 20,
            KeyboardInput::V => 21,
            KeyboardInput::W => 22,
            KeyboardInput::X => 23,
            KeyboardInput::Y => 24,
            KeyboardInput::Z => 25,
            KeyboardInput::TopRow1Exclamation => 26,
            KeyboardInput::TopRow2At => 27,
            KeyboardInput::TopRow3Hash => 28,
            KeyboardInput::TopRow4Dollar => 29,
            KeyboardInput::TopRow5Percent => 30,
            KeyboardInput::TopRow6Caret => 31,
            KeyboardInput::TopRow7Ampersand => 32,
            KeyboardInput::TopRow8Asterisk => 33,
            KeyboardInput::TopRow9OpenParens => 34,
            KeyboardInput::TopRow0CloseParens => 35,
            KeyboardInput::Enter => 36,
            KeyboardInput::Escape => 37,
            KeyboardInput::Backspace => 38,
            KeyboardInput::Tab => 39,
            KeyboardInput::Spacebar => 40,
            KeyboardInput::DashUnderscore => 41,
            KeyboardInput::EqualPlus => 42,
            KeyboardInput::OpenBracketBrace => 43,
            KeyboardInput::CloseBracketBrace => 44,
            KeyboardInput::BackslashBar => 45,
            KeyboardInput::NonUSHash => 46,
            KeyboardInput::SemiColon => 47,
            KeyboardInput::SingleDoubleQuote => 48,
            KeyboardInput::BacktickTilde => 49,
            KeyboardInput::CommaLessThan => 50,
            KeyboardInput::PeriodGreaterThan => 51,
            KeyboardInput::SlashQuestion => 52,
            KeyboardInput::CapsLock => 53,
            KeyboardInput::F1 => 54,
            KeyboardInput::F2 => 55,
            KeyboardInput::F3 => 56,
            KeyboardInput::F4 => 57,
            KeyboardInput::F5 => 58,
            KeyboardInput::F6 => 59,
            KeyboardInput::F7 => 60,
            KeyboardInput::F8 => 61,
            KeyboardInput::F9 => 62,
            KeyboardInput::F10 => 63,
            KeyboardInput::F11 => 64,
            KeyboardInput::F12 => 65,
            KeyboardInput::PrintScreen => 66,
            KeyboardInput::ScrollLock => 67,
            KeyboardInput::Pause => 68,
            KeyboardInput::Insert => 69,
            KeyboardInput::Home => 70,
            KeyboardInput::PageUp => 71,
            KeyboardInput::Delete => 72,
            KeyboardInput::End => 73,
            KeyboardInput::PageDown => 74,
            KeyboardInput::RightArrow => 75,
            KeyboardInput::LeftArrow => 76,
            KeyboardInput::DownArrow => 77,
            KeyboardInput::UpArrow => 78,
            KeyboardInput::KeypadNumLock => 79,
            KeyboardInput::KeypadDivide => 80,
            KeyboardInput::KeypadMultiply => 81,
            KeyboardInput::KeypadMinus => 82,
            KeyboardInput::KeypadPlus => 83,
            KeyboardInput::KeypadEnter => 84,
            KeyboardInput::Keypad1End => 85,
            KeyboardInput::Keypad2DownArrow => 86,
            KeyboardInput::Keypad3PageDown => 87,
            KeyboardInput::Keypad4LeftArrow => 88,
            KeyboardInput::Keypad5 => 89,
            KeyboardInput::Keypad6RightArrow => 90,
            KeyboardInput::Keypad7Home => 91,
            KeyboardInput::Keypad8UpArrow => 92,
            KeyboardInput::Keypad9PageUp => 93,
            KeyboardInput::Keypad0Insert => 94,
            KeyboardInput::KeypadPeriodDelete => 95,
            KeyboardInput::NonUSSlash => 96,
            KeyboardInput::Application => 97,
            KeyboardInput::Power => 98,
            KeyboardInput::KeypadEqual => 99,
            KeyboardInput::F13 => 100,
            KeyboardInput::F14 => 101,
            KeyboardInput::F15 => 102,
            KeyboardInput::F16 => 103,
            KeyboardInput::F17 => 104,
            KeyboardInput::F18 => 105,
            KeyboardInput::F19 => 106,
            KeyboardInput::F20 => 107,
            KeyboardInput::F21 => 108,
            KeyboardInput::F22 => 109,
            KeyboardInput::F23 => 110,
            KeyboardInput::F24 => 111,
            KeyboardInput::Execute => 112,
            KeyboardInput::Help => 113,
            KeyboardInput::Menu => 114,
            KeyboardInput::Select => 115,
            KeyboardInput::Stop => 116,
            KeyboardInput::Again => 117,
            KeyboardInput::Undo => 118,
            KeyboardInput::Cut => 119,
            KeyboardInput::Copy => 120,
            KeyboardInput::Paste => 121,
            KeyboardInput::Find => 122,
            KeyboardInput::Mute => 123,
            KeyboardInput::VolumeUp => 124,
            KeyboardInput::VolumeDown => 125,
            KeyboardInput::LockingCapsLock => 126,
            KeyboardInput::LockingNumLock => 127,
            KeyboardInput::LockingScrollLock => 128,
            KeyboardInput::KeypadComma => 129,
            KeyboardInput::KeypadEqualSign => 130,
            KeyboardInput::International1 => 131,
            KeyboardInput::International2 => 132,
            KeyboardInput::International3 => 133,
            KeyboardInput::International4 => 134,
            KeyboardInput::International5 => 135,
            KeyboardInput::International6 => 136,
            KeyboardInput::International7 => 137,
            KeyboardInput::International8 => 138,
            KeyboardInput::International9 => 139,
            KeyboardInput::LANG1 => 140,
            KeyboardInput::LANG2 => 141,
            KeyboardInput::LANG3 => 142,
            KeyboardInput::LANG4 => 143,
            KeyboardInput::LANG5 => 144,
            KeyboardInput::LANG6 => 145,
            KeyboardInput::LANG7 => 146,
            KeyboardInput::LANG8 => 147,
            KeyboardInput::LANG9 => 148,
            KeyboardInput::AlternateErase => 149,
            KeyboardInput::SysReqAttention => 150,
            KeyboardInput::Cancel => 151,
            KeyboardInput::Clear => 152,
            KeyboardInput::Prior => 153,
            KeyboardInput::Return => 154,
            KeyboardInput::Separator => 155,
            KeyboardInput::Out => 156,
            KeyboardInput::Oper => 157,
            KeyboardInput::ClearAgain => 158,
            KeyboardInput::CrSelProps => 159,
            KeyboardInput::ExSel => 160,
            KeyboardInput::LeftControl => 161,
            KeyboardInput::LeftShift => 162,
            KeyboardInput::LeftAlt => 163,
            KeyboardInput::LeftWindows => 164,
            KeyboardInput::RightControl => 165,
            KeyboardInput::RightShift => 166,
            KeyboardInput::RightAlt => 167,
            KeyboardInput::RightWindows => 168,
            KeyboardInput::MediaPlayPause => 169,
            KeyboardInput::MediaPreviousSong => 170,
            KeyboardInput::MediaNextSong => 171,
        }
    }

    /// The HID usage code of the key.
    pub open spec fn usage_code_value(self) -> u8 {
        match self {
            KeyboardInput::A => 0x04,
            KeyboardInput::B => 0x05,
            KeyboardInput::C => 0x06,
            KeyboardInput::D => 0x07,
            KeyboardInput::E => 0x08,
            KeyboardInput::F => 0x09,
            KeyboardInput::G => 0x0A,
            KeyboardInput::H => 0x0B,
            KeyboardInput::I => 0x0C,
            KeyboardInput::J => 0x0D,
            KeyboardInput::K => 0x0E,
            KeyboardInput::L => 0x0F,
            KeyboardInput::M => 0x10,
            KeyboardInput::N => 0x11,
            KeyboardInput::O => 0x12,
            KeyboardInput::P => 0x13,
            KeyboardInput::Q => 0x14,
            KeyboardInput::R => 0x15,
            KeyboardInput::S => 0x16,
            KeyboardInput::T => 0x17,
            KeyboardInput::U => 0x18,
            KeyboardInput::V => 0x19,
            KeyboardInput::W => 0x1A,
            KeyboardInput::X => 0x1B,
            KeyboardInput::Y => 0x1C,
            KeyboardInput::Z => 0x1D,
            KeyboardInput::TopRow1Exclamation => 0x1E,
            KeyboardInput::TopRow2At => 0x1F,
            KeyboardInput::TopRow3Hash => 0x20,
            KeyboardInput::TopRow4Dollar => 0x21,
            KeyboardInput::TopRow5Percent => 0x22,
            KeyboardInput::TopRow6Caret => 0x23,
            KeyboardInput::TopRow7Ampersand => 0x24,
            KeyboardInput::TopRow8Asterisk => 0x25,
            KeyboardInput::TopRow9OpenParens => 0x26,
            KeyboardInput::TopRow0CloseParens => 0x27,
            KeyboardInput::Enter => 0x28,
            KeyboardInput::Escape => 0x29,
            KeyboardInput::Backspace => 0x2A,
            KeyboardInput::Tab => 0x2B,
            KeyboardInput::Spacebar => 0x2C,
            KeyboardInput::DashUnderscore => 0x2D,
            KeyboardInput::EqualPlus => 0x2E,
            KeyboardInput::OpenBracketBrace => 0x2F,
            KeyboardInput::CloseBracketBrace => 0x30,
            KeyboardInput::BackslashBar => 0x31,
            KeyboardInput::NonUSHash => 0x32,
            KeyboardInput::SemiColon => 0x33,
            KeyboardInput::SingleDoubleQuote => 0x34,
            KeyboardInput::BacktickTilde => 0x35,
            KeyboardInput::CommaLessThan => 0x36,
            KeyboardInput::PeriodGreaterThan => 0x37,
            KeyboardInput::SlashQuestion => 0x38,
            KeyboardInput::CapsLock => 0x39,
            KeyboardInput::F1 => 0x3A,
            KeyboardInput::F2 => 0x3B,
            KeyboardInput::F3 => 0x3C,
            KeyboardInput::F4 => 0x3D,
            KeyboardInput::F5 => 0x3E,
            KeyboardInput::F6 => 0x3F,
            KeyboardInput::F7 => 0x40,
            KeyboardInput::F8 => 0x41,
            KeyboardInput::F9 => 0x42,
            KeyboardInput::F10 => 0x43,
            KeyboardInput::F11 => 0x44,
            KeyboardInput::F12 => 0x45,
            KeyboardInput::PrintScreen => 0x46,
            KeyboardInput::ScrollLock => 0x47,
            KeyboardInput::Pause => 0x48,
            KeyboardInput::Insert => 0x49,
            KeyboardInput::Home => 0x4A,
            KeyboardInput::PageUp => 0x4B,
            KeyboardInput::Delete => 0x4C,
            KeyboardInput::End => 0x4D,
            KeyboardInput::PageDown => 0x4E,
            KeyboardInput::RightArrow => 0x4F,
            KeyboardInput::LeftArrow => 0x50,
            KeyboardInput::DownArrow => 0x51,
            KeyboardInput::UpArrow => 0x52,
            KeyboardInput::KeypadNumLock => 0x53,
            KeyboardInput::KeypadDivide => 0x54,
            KeyboardInput::KeypadMultiply => 0x55,
            KeyboardInput::KeypadMinus => 0x56,
            KeyboardInput::KeypadPlus => 0x57,
            KeyboardInput::KeypadEnter => 0x58,
            KeyboardInput::Keypad1End => 0x59,
            KeyboardInput::Keypad2DownArrow => 0x5A,
            KeyboardInput::Keypad3PageDown => 0x5B,
            KeyboardInput::Keypad4LeftArrow => 0x5C,
            KeyboardInput::Keypad5 => 0x5D,
            KeyboardInput::Keypad6RightArrow => 0x5E,
            KeyboardInput::Keypad7Home => 0x5F,
            KeyboardInput::Keypad8UpArrow => 0x60,
            KeyboardInput::Keypad9PageUp => 0x61,
            KeyboardInput::Keypad0Insert => 0x62,
            KeyboardInput::KeypadPeriodDelete => 0x63,
            KeyboardInput::NonUSSlash => 0x64,
            KeyboardInput::Application => 0x65,
            KeyboardInput::Power => 0x66,
            KeyboardInput::KeypadEqual => 0x67,
            KeyboardInput::F13 => 0x68,
            KeyboardInput::F14 => 0x69,
            KeyboardInput::F15 => 0x6A,
            KeyboardInput::F16 => 0x6B,
            KeyboardInput::F17 => 0x6C,
            KeyboardInput::F18 => 0x6D,
            KeyboardInput::F19 => 0x6E,
            KeyboardInput::F20 => 0x6F,
            KeyboardInput::F21 => 0x70,
            KeyboardInput::F22 => 0x71,
            KeyboardInput::F23 => 0x72,
            KeyboardInput::F24 => 0x73,
            KeyboardInput::Execute => 0x74,
            KeyboardInput::Help => 0x75,
            KeyboardInput::Menu => 0x76,
            KeyboardInput::Select => 0x77,
            KeyboardInput::Stop => 0x78,
            KeyboardInput::Again => 0x79,
            KeyboardInput::Undo => 0x7A,
            KeyboardInput::Cut => 0x7B,
            KeyboardInput::Copy => 0x7C,
            KeyboardInput::Paste => 0x7D,
            KeyboardInput::Find => 0x7E,
            KeyboardInput::Mute => 0x7F,
            KeyboardInput::VolumeUp => 0x80,
            KeyboardInput::VolumeDown => 0x81,
            KeyboardInput::LockingCapsLock => 0x82,
            KeyboardInput::LockingNumLock => 0x83,
            KeyboardInput::LockingScrollLock => 0x84,
            KeyboardInput::KeypadComma => 0x85,
            KeyboardInput::KeypadEqualSign => 0x86,
            KeyboardInput::International1 => 0x87,
            KeyboardInput::International2 => 0x88,
            KeyboardInput::International3 => 0x89,
            KeyboardInput::International4 => 0x8A,
            KeyboardInput::International5 => 0x8B,
            KeyboardInput::International6 => 0x8C,
            KeyboardInput::International7 => 0x8D,
            KeyboardInput::International8 => 0x8E,
            KeyboardInput::International9 => 0x8F,
            KeyboardInput::LANG1 => 0x90,
            KeyboardInput::LANG2 => 0x91,
            KeyboardInput::LANG3 => 0x92,
            KeyboardInput::LANG4 => 0x93,
            KeyboardInput::LANG5 => 0x94,
            KeyboardInput::LANG6 => 0x95,
            KeyboardInput::LANG7 => 0x96,
            KeyboardInput::LANG8 => 0x97,
            KeyboardInput::LANG9 => 0x98,
            KeyboardInput::AlternateErase => 0x99,
            KeyboardInput::SysReqAttention => 0x9A,
            KeyboardInput::Cancel => 0x9B,
            KeyboardInput::Clear => 0x9C,
            KeyboardInput::Prior => 0x9D,
            KeyboardInput::Return => 0x9E,
            KeyboardInput::Separator => 0x9F,
            KeyboardInput::Out => 0xA0,
            KeyboardInput::Oper => 0xA1,
            KeyboardInput::ClearAgain => 0xA2,
            KeyboardInput::CrSelProps => 0xA3,
            KeyboardInput::ExSel => 0xA4,
            KeyboardInput::LeftControl => 0xE0,
            KeyboardInput::LeftShift => 0xE1,
            KeyboardInput::LeftAlt => 0xE2,
            KeyboardInput::LeftWindows => 0xE3,
            KeyboardInput::RightControl => 0xE4,
            KeyboardInput::RightShift => 0xE5,
            KeyboardInput::RightAlt => 0xE6,
            KeyboardInput::RightWindows => 0xE7,
            KeyboardInput::MediaPlayPause => 0xE8,
            KeyboardInput::MediaPreviousSong => 0xEA,
            KeyboardInput::MediaNextSong => 0xEB,
        }
    }

    /// The name of the variant, which is also the key's name in configuration text.
    pub open spec fn variant_name(self) -> Seq<char> {
        match self {
            KeyboardInput::A => "A"@,
            KeyboardInput::B => "B"@,
            KeyboardInput::C => "C"@,
            KeyboardInput::D => "D"@,
            KeyboardInput::E => "E"@,
            KeyboardInput::F => "F"@,
            KeyboardInput::G => "G"@,
            KeyboardInput::H => "H"@,
            KeyboardInput::I => "I"@,
            KeyboardInput::J => "J"@,
            KeyboardInput::K => "K"@,
            KeyboardInput::L => "L"@,
            KeyboardInput::M => "M"@,
            KeyboardInput::N => "N"@,
            KeyboardInput::O => "O"@,
            KeyboardInput::P => "P"@,
            KeyboardInput::Q => "Q"@,
            KeyboardInput::R => "R"@,
            KeyboardInput::S => "S"@,
            KeyboardInput::T => "T"@,
            KeyboardInput::U => "U"@,
            KeyboardInput::V => "V"@,
            KeyboardInput::W => "W"@,
            KeyboardInput::X => "X"@,
            KeyboardInput::Y => "Y"@,
            KeyboardInput::Z => "Z"@,
            KeyboardInput::TopRow1Exclamation => "TopRow1Exclamation"@,
            KeyboardInput::TopRow2At => "TopRow2At"@,
            KeyboardInput::TopRow3Hash => "TopRow3Hash"@,
            KeyboardInput::TopRow4Dollar => "TopRow4Dollar"@,
            KeyboardInput::TopRow5Percent => "TopRow5Percent"@,
            KeyboardInput::TopRow6Caret => "TopRow6Caret"@,
            KeyboardInput::TopRow7Ampersand => "TopRow7Ampersand"@,
            KeyboardInput::TopRow8Asterisk => "TopRow8Asterisk"@,
            KeyboardInput::TopRow9OpenParens => "TopRow9OpenParens"@,
            KeyboardInput::TopRow0CloseParens => "TopRow0CloseParens"@,
            KeyboardInput::Enter => "Enter"@,
            KeyboardInput::Escape => "Escape"@,
            KeyboardInput::Backspace => "Backspace"@,
            KeyboardInput::Tab => "Tab"@,
            KeyboardInput::Spacebar => "Spacebar"@,
            KeyboardInput::DashUnderscore => "DashUnderscore"@,
            KeyboardInput::EqualPlus => "EqualPlus"@,
            KeyboardInput::OpenBracketBrace => "OpenBracketBrace"@,
            KeyboardInput::CloseBracketBrace => "CloseBracketBrace"@,
            KeyboardInput::BackslashBar => "BackslashBar"@,
            KeyboardInput::NonUSHash => "NonUSHash"@,
            KeyboardInput::SemiColon => "SemiColon"@,
            KeyboardInput::SingleDoubleQuote => "SingleDoubleQuote"@,
            KeyboardInput::BacktickTilde => "BacktickTilde"@,
            KeyboardInput::CommaLessThan => "CommaLessThan"@,
            KeyboardInput::PeriodGreaterThan => "PeriodGreaterThan"@,
            KeyboardInput::SlashQuestion => "SlashQuestion"@,
            KeyboardInput::CapsLock => "CapsLock"@,
            KeyboardInput::F1 => "F1"@,
            KeyboardInput::F2 => "F2"@,
            KeyboardInput::F3 => "F3"@,
            KeyboardInput::F4 => "F4"@,
            KeyboardInput::F5 => "F5"@,
            KeyboardInput::F6 => "F6"@,
            KeyboardInput::F7 => "F7"@,
            KeyboardInput::F8 => "F8"@,
            KeyboardInput::F9 => "F9"@,
            KeyboardInput::F10 => "F10"@,
            KeyboardInput::F11 => "F11"@,
            KeyboardInput::F12 => "F12"@,
            KeyboardInput::PrintScreen => "PrintScreen"@,
            KeyboardInput::ScrollLock => "ScrollLock"@,
            KeyboardInput::Pause => "Pause"@,
            KeyboardInput::Insert => "Insert"@,
            KeyboardInput::Home => "Home"@,
            KeyboardInput::PageUp => "PageUp"@,
            KeyboardInput::Delete => "Delete"@,
            KeyboardInput::End => "End"@,
            KeyboardInput::PageDown => "PageDown"@,
            KeyboardInput::RightArrow => "RightArrow"@,
            KeyboardInput::LeftArrow => "LeftArrow"@,
            KeyboardInput::DownArrow => "DownArrow"@,
            KeyboardInput::UpArrow => "UpArrow"@,
            KeyboardInput::KeypadNumLock => "KeypadNumLock"@,
            KeyboardInput::KeypadDivide => "KeypadDivide"@,
            KeyboardInput::KeypadMultiply => "KeypadMultiply"@,
            KeyboardInput::KeypadMinus => "KeypadMinus"@,
            KeyboardInput::KeypadPlus => "KeypadPlus"@,
            KeyboardInput::KeypadEnter => "KeypadEnter"@,
            KeyboardInput::Keypad1End => "Keypad1End"@,
            KeyboardInput::Keypad2DownArrow => "Keypad2DownArrow"@,
            KeyboardInput::Keypad3PageDown => "Keypad3PageDown"@,
            KeyboardInput::Keypad4LeftArrow => "Keypad4LeftArrow"@,
            KeyboardInput::Keypad5 => "Keypad5"@,
            KeyboardInput::Keypad6RightArrow => "Keypad6RightArrow"@,
            KeyboardInput::Keypad7Home => "Keypad7Home"@,
            KeyboardInput::Keypad8UpArrow => "Keypad8UpArrow"@,
            KeyboardInput::Keypad9PageUp => "Keypad9PageUp"@,
            KeyboardInput::Keypad0Insert => "Keypad0Insert"@,
            KeyboardInput::KeypadPeriodDelete => "KeypadPeriodDelete"@,
            KeyboardInput::NonUSSlash => "NonUSSlash"@,
            KeyboardInput::Application => "Application"@,
            KeyboardInput::Power => "Power"@,
            KeyboardInput::KeypadEqual => "KeypadEqual"@,
            KeyboardInput::F13 => "F13"@,
            KeyboardInput::F14 => "F14"@,
            KeyboardInput::F15 => "F15"@,
            KeyboardInput::F16 => "F16"@,
            KeyboardInput::F17 => "F17"@,
            KeyboardInput::F18 => "F18"@,
            KeyboardInput::F19 => "F19"@,
            KeyboardInput::F20 => "F20"@,
            KeyboardInput::F21 => "F21"@,
            KeyboardInput::F22 => "F22"@,
            KeyboardInput::F23 => "F23"@,
            KeyboardInput::F24 => "F24"@,
            KeyboardInput::Execute => "Execute"@,
            KeyboardInput::Help => "Help"@,
            KeyboardInput::Menu => "Menu"@,
            KeyboardInput::Select => "Select"@,
            KeyboardInput::Stop => "Stop"@,
            KeyboardInput::Again => "Again"@,
            KeyboardInput::Undo => "Undo"@,
            KeyboardInput::Cut => "Cut"@,
            KeyboardInput::Copy => "Copy"@,
            KeyboardInput::Paste => "Paste"@,
            KeyboardInput::Find => "Find"@,
            KeyboardInput::Mute => "Mute"@,
            KeyboardInput::VolumeUp => "VolumeUp"@,
            KeyboardInput::VolumeDown => "VolumeDown"@,
            KeyboardInput::LockingCapsLock => "LockingCapsLock"@,
            KeyboardInput::LockingNumLock => "LockingNumLock"@,
            KeyboardInput::LockingScrollLock => "LockingScrollLock"@,
            KeyboardInput::KeypadComma => "KeypadComma"@,
            KeyboardInput::KeypadEqualSign => "KeypadEqualSign"@,
            KeyboardInput::International1 => "International1"@,
            KeyboardInput::International2 => "International2"@,
            KeyboardInput::International3 => "International3"@,
            KeyboardInput::International4 => "International4"@,
            KeyboardInput::International5 => "International5"@,
            KeyboardInput::International6 => "International6"@,
            KeyboardInput::International7 => "International7"@,
            KeyboardInput::International8 => "International8"@,
            KeyboardInput::International9 => "International9"@,
            KeyboardInput::LANG1 => "LANG1"@,
            KeyboardInput::LANG2 => "LANG2"@,
            KeyboardInput::LANG3 => "LANG3"@,
            KeyboardInput::LANG4 => "LANG4"@,
            KeyboardInput::LANG5 => "LANG5"@,
            KeyboardInput::LANG6 => "LANG6"@,
            KeyboardInput::LANG7 => "LANG7"@,
            KeyboardInput::LANG8 => "LANG8"@,
            KeyboardInput::LANG9 => "LANG9"@,
            KeyboardInput::AlternateErase => "AlternateErase"@,
            KeyboardInput::SysReqAttention => "SysReqAttention"@,
            KeyboardInput::Cancel => "Cancel"@,
            KeyboardInput::Clear => "Clear"@,
            KeyboardInput::Prior => "Prior"@,
            KeyboardInput::Return => "Return"@,
            KeyboardInput::Separator => "Separator"@,
            KeyboardInput::Out => "Out"@,
            KeyboardInput::Oper => "Oper"@,
            KeyboardInput::ClearAgain => "ClearAgain"@,
            KeyboardInput::CrSelProps => "CrSelProps"@,
            KeyboardInput::ExSel => "ExSel"@,
            KeyboardInput::LeftControl => "LeftControl"@,
            KeyboardInput::LeftShift => "LeftShift"@,
            KeyboardInput::LeftAlt => "LeftAlt"@,
            KeyboardInput::LeftWindows => "LeftWindows"@,
            KeyboardInput::RightControl => "RightControl"@,
            KeyboardInput::RightShift => "RightShift"@,
            KeyboardInput::RightAlt => "RightAlt"@,
            KeyboardInput::RightWindows => "RightWindows"@,
            KeyboardInput::MediaPlayPause => "MediaPlayPause"@,
            KeyboardInput::MediaPreviousSong => "MediaPreviousSong"@,
            KeyboardInput::MediaNextSong => "MediaNextSong"@,
        }
    }

    /// The HID usage code of the key.
    pub fn usage_code(&self) -> (r: u8)
        ensures
            r == self.usage_code_value(),
    {
        match self {
            KeyboardInput::A => 0x04,
            KeyboardInput::B => 0x05,
            KeyboardInput::C => 0x06,
            KeyboardInput::D => 0x07,
            KeyboardInput::E => 0x08,
            KeyboardInput::F => 0x09,
            KeyboardInput::G => 0x0A,
            KeyboardInput::H => 0x0B,
            KeyboardInput::I => 0x0C,
            KeyboardInput::J => 0x0D,
            KeyboardInput::K => 0x0E,
            KeyboardInput::L => 0x0F,
            KeyboardInput::M => 0x10,
            KeyboardInput::N => 0x11,
            KeyboardInput::O => 0x12,
            KeyboardInput::P => 0x13,
            KeyboardInput::Q => 0x14,
            KeyboardInput::R => 0x15,
            KeyboardInput::S => 0x16,
            KeyboardInput::T => 0x17,
            KeyboardInput::U => 0x18,
            KeyboardInput::V => 0x19,
            KeyboardInput::W => 0x1A,
            KeyboardInput::X => 0x1B,
            KeyboardInput::Y => 0x1C,
            KeyboardInput::Z => 0x1D,
            KeyboardInput::TopRow1Exclamation => 0x1E,
            KeyboardInput::TopRow2At => 0x1F,
            KeyboardInput::TopRow3Hash => 0x20,
            KeyboardInput::TopRow4Dollar => 0x21,
            KeyboardInput::TopRow5Percent => 0x22,
            KeyboardInput::TopRow6Caret => 0x23,
            KeyboardInput::TopRow7Ampersand => 0x24,
            KeyboardInput::TopRow8Asterisk => 0x25,
            KeyboardInput::TopRow9OpenParens => 0x26,
            KeyboardInput::TopRow0CloseParens => 0x27,
            KeyboardInput::Enter => 0x28,
            KeyboardInput::Escape => 0x29,
            KeyboardInput::Backspace => 0x2A,
            KeyboardInput::Tab => 0x2B,
            KeyboardInput::Spacebar => 0x2C,
            KeyboardInput::DashUnderscore => 0x2D,
            KeyboardInput::EqualPlus => 0x2E,
            KeyboardInput::OpenBracketBrace => 0x2F,
            KeyboardInput::CloseBracketBrace => 0x30,
            KeyboardInput::BackslashBar => 0x31,
            KeyboardInput::NonUSHash => 0x32,
            KeyboardInput::SemiColon => 0x33,
            KeyboardInput::SingleDoubleQuote => 0x34,
            KeyboardInput::BacktickTilde => 0x35,
            KeyboardInput::CommaLessThan => 0x36,
            KeyboardInput::PeriodGreaterThan => 0x37,
            KeyboardInput::SlashQuestion => 0x38,
            KeyboardInput::CapsLock => 0x39,
            KeyboardInput::F1 => 0x3A,
            KeyboardInput::F2 => 0x3B,
            KeyboardInput::F3 => 0x3C,
            KeyboardInput::F4 => 0x3D,
            KeyboardInput::F5 => 0x3E,
            KeyboardInput::F6 => 0x3F,
            KeyboardInput::F7 => 0x40,
            KeyboardInput::F8 => 0x41,
            KeyboardInput::F9 => 0x42,
            KeyboardInput::F10 => 0x43,
            KeyboardInput::F11 => 0x44,
            KeyboardInput::F12 => 0x45,
            KeyboardInput::PrintScreen => 0x46,
            KeyboardInput::ScrollLock => 0x47,
            KeyboardInput::Pause => 0x48,
            KeyboardInput::Insert => 0x49,
            KeyboardInput::Home => 0x4A,
            KeyboardInput::PageUp => 0x4B,
            KeyboardInput::Delete => 0x4C,
            KeyboardInput::End => 0x4D,
            KeyboardInput::PageDown => 0x4E,
            KeyboardInput::RightArrow => 0x4F,
            KeyboardInput::LeftArrow => 0x50,
            KeyboardInput::DownArrow => 0x51,
            KeyboardInput::UpArrow => 0x52,
            KeyboardInput::KeypadNumLock => 0x53,
            KeyboardInput::KeypadDivide => 0x54,
            KeyboardInput::KeypadMultiply => 0x55,
            KeyboardInput::KeypadMinus => 0x56,
            KeyboardInput::KeypadPlus => 0x57,
            KeyboardInput::KeypadEnter => 0x58,
            KeyboardInput::Keypad1End => 0x59,
            KeyboardInput::Keypad2DownArrow => 0x5A,
            KeyboardInput::Keypad3PageDown => 0x5B,
            KeyboardInput::Keypad4LeftArrow => 0x5C,
            KeyboardInput::Keypad5 => 0x5D,
            KeyboardInput::Keypad6RightArrow => 0x5E,
            KeyboardInput::Keypad7Home => 0x5F,
            KeyboardInput::Keypad8UpArrow => 0x60,
            KeyboardInput::Keypad9PageUp => 0x61,
            KeyboardInput::Keypad0Insert => 0x62,
            KeyboardInput::KeypadPeriodDelete => 0x63,
            KeyboardInput::NonUSSlash => 0x64,
            KeyboardInput::Application => 0x65,
            KeyboardInput::Power => 0x66,
            KeyboardInput::KeypadEqual => 0x67,
            KeyboardInput::F13 => 0x68,
            KeyboardInput::F14 => 0x69,
            KeyboardInput::F15 => 0x6A,
            KeyboardInput::F16 => 0x6B,
            KeyboardInput::F17 => 0x6C,
            KeyboardInput::F18 => 0x6D,
            KeyboardInput::F19 => 0x6E,
            KeyboardInput::F20 => 0x6F,
            KeyboardInput::F21 => 0x70,
            KeyboardInput::F22 => 0x71,
            KeyboardInput::F23 => 0x72,
            KeyboardInput::F24 => 0x73,
            KeyboardInput::Execute => 0x74,
            KeyboardInput::Help => 0x75,
            KeyboardInput::Menu => 0x76,
            KeyboardInput::Select => 0x77,
            KeyboardInput::Stop => 0x78,
            KeyboardInput::Again => 0x79,
            KeyboardInput::Undo => 0x7A,
            KeyboardInput::Cut => 0x7B,
            KeyboardInput::Copy => 0x7C,
            KeyboardInput::Paste => 0x7D,
            KeyboardInput::Find => 0x7E,
            KeyboardInput::Mute => 0x7F,
            KeyboardInput::VolumeUp => 0x80,
            KeyboardInput::VolumeDown => 0x81,
            KeyboardInput::LockingCapsLock => 0x82,
            KeyboardInput::LockingNumLock => 0x83,
            KeyboardInput::LockingScrollLock => 0x84,
            KeyboardInput::KeypadComma => 0x85,
            KeyboardInput::KeypadEqualSign => 0x86,
            KeyboardInput::International1 => 0x87,
            KeyboardInput::International2 => 0x88,
            KeyboardInput::International3 => 0x89,
            KeyboardInput::International4 => 0x8A,
            KeyboardInput::International5 => 0x8B,
            KeyboardInput::International6 => 0x8C,
            KeyboardInput::International7 => 0x8D,
            KeyboardInput::International8 => 0x8E,
            KeyboardInput::International9 => 0x8F,
            KeyboardInput::LANG1 => 0x90,
            KeyboardInput::LANG2 => 0x91,
            KeyboardInput::LANG3 => 0x92,
            KeyboardInput::LANG4 => 0x93,
            KeyboardInput::LANG5 => 0x94,
            KeyboardInput::LANG6 => 0x95,
            KeyboardInput::LANG7 => 0x96,
            KeyboardInput::LANG8 => 0x97,
            KeyboardInput::LANG9 => 0x98,
            KeyboardInput::AlternateErase => 0x99,
            KeyboardInput::SysReqAttention => 0x9A,
            KeyboardInput::Cancel => 0x9B,
            KeyboardInput::Clear => 0x9C,
            KeyboardInput::Prior => 0x9D,
            KeyboardInput::Return => 0x9E,
            KeyboardInput::Separator => 0x9F,
            KeyboardInput::Out => 0xA0,
            KeyboardInput::Oper => 0xA1,
            KeyboardInput::ClearAgain => 0xA2,
            KeyboardInput::CrSelProps => 0xA3,
            KeyboardInput::ExSel => 0xA4,
            KeyboardInput::LeftControl => 0xE0,
            KeyboardInput::LeftShift => 0xE1,
            KeyboardInput::LeftAlt => 0xE2,
            KeyboardInput::LeftWindows => 0xE3,
            KeyboardInput::RightControl => 0xE4,
            KeyboardInput::RightShift => 0xE5,
            KeyboardInput::RightAlt => 0xE6,
            KeyboardInput::RightWindows => 0xE7,
            KeyboardInput::MediaPlayPause => 0xE8,
            KeyboardInput::MediaPreviousSong => 0xEA,
            KeyboardInput::MediaNextSong => 0xEB,
        }
    }

    /// The name of the variant.
    pub fn name(&self) -> (r: &'static str)
        ensures
            r@ == self.variant_name(),
    {
        match self {
            KeyboardInput::A => "A",
            KeyboardInput::B => "B",
            KeyboardInput::C => "C",
            KeyboardInput::D => "D",
            KeyboardInput::E => "E",
            KeyboardInput::F => "F",
            KeyboardInput::G => "G",
            KeyboardInput::H => "H",
            KeyboardInput::I => "I",
            KeyboardInput::J => "J",
            KeyboardInput::K => "K",
            KeyboardInput::L => "L",
            KeyboardInput::M => "M",
            KeyboardInput::N => "N",
            KeyboardInput::O => "O",
            KeyboardInput::P => "P",
            KeyboardInput::Q => "Q",
            KeyboardInput::R => "R",
            KeyboardInput::S => "S",
            KeyboardInput::T => "T",
            KeyboardInput::U => "U",
            KeyboardInput::V => "V",
            KeyboardInput::W => "W",
            KeyboardInput::X => "X",
            KeyboardInput::Y => "Y",
            KeyboardInput::Z => "Z",
            KeyboardInput::TopRow1Exclamation => "TopRow1Exclamation",
            KeyboardInput::TopRow2At => "TopRow2At",
            KeyboardInput::TopRow3Hash => "TopRow3Hash",
            KeyboardInput::TopRow4Dollar => "TopRow4Dollar",
            KeyboardInput::TopRow5Percent => "TopRow5Percent",
            KeyboardInput::TopRow6Caret => "TopRow6Caret",
            KeyboardInput::TopRow7Ampersand => "TopRow7Ampersand",
            KeyboardInput::TopRow8Asterisk => "TopRow8Asterisk",
            KeyboardInput::TopRow9OpenParens => "TopRow9OpenParens",
            KeyboardInput::TopRow0CloseParens => "TopRow0CloseParens",
            KeyboardInput::Enter => "Enter",
            KeyboardInput::Escape => "Escape",
            KeyboardInput::Backspace => "Backspace",
            KeyboardInput::Tab => "Tab",
            KeyboardInput::Spacebar => "Spacebar",
            KeyboardInput::DashUnderscore => "DashUnderscore",
            KeyboardInput::EqualPlus => "EqualPlus",
            KeyboardInput::OpenBracketBrace => "OpenBracketBrace",
            KeyboardInput::CloseBracketBrace => "CloseBracketBrace",
            KeyboardInput::BackslashBar => "BackslashBar",
            KeyboardInput::NonUSHash => "NonUSHash",
            KeyboardInput::SemiColon => "SemiColon",
            KeyboardInput::SingleDoubleQuote => "SingleDoubleQuote",
            KeyboardInput::BacktickTilde => "BacktickTilde",
            KeyboardInput::CommaLessThan => "CommaLessThan",
            KeyboardInput::PeriodGreaterThan => "PeriodGreaterThan",
            KeyboardInput::SlashQuestion => "SlashQuestion",
            KeyboardInput::CapsLock => "CapsLock",
            KeyboardInput::F1 => "F1",
            KeyboardInput::F2 => "F2",
            KeyboardInput::F3 => "F3",
            KeyboardInput::F4 => "F4",
            KeyboardInput::F5 => "F5",
            KeyboardInput::F6 => "F6",
            KeyboardInput::F7 => "F7",
            KeyboardInput::F8 => "F8",
            KeyboardInput::F9 => "F9",
            KeyboardInput::F10 => "F10",
            KeyboardInput::F11 => "F11",
            KeyboardInput::F12 => "F12",
            KeyboardInput::PrintScreen => "PrintScreen",
            KeyboardInput::ScrollLock => "ScrollLock",
            KeyboardInput::Pause => "Pause",
            KeyboardInput::Insert => "Insert",
            KeyboardInput::Home => "Home",
            KeyboardInput::PageUp => "PageUp",
            KeyboardInput::Delete => "Delete",
            KeyboardInput::End => "End",
            KeyboardInput::PageDown => "PageDown",
            KeyboardInput::RightArrow => "RightArrow",
            KeyboardInput::LeftArrow => "LeftArrow",
            KeyboardInput::DownArrow => "DownArrow",
            KeyboardInput::UpArrow => "UpArrow",
            KeyboardInput::KeypadNumLock => "KeypadNumLock",
            KeyboardInput::KeypadDivide => "KeypadDivide",
            KeyboardInput::KeypadMultiply => "KeypadMultiply",
            KeyboardInput::KeypadMinus => "KeypadMinus",
            KeyboardInput::KeypadPlus => "KeypadPlus",
            KeyboardInput::KeypadEnter => "KeypadEnter",
            KeyboardInput::Keypad1End => "Keypad1End",
            KeyboardInput::Keypad2DownArrow => "Keypad2DownArrow",
            KeyboardInput::Keypad3PageDown => "Keypad3PageDown",
            KeyboardInput::Keypad4LeftArrow => "Keypad4LeftArrow",
            KeyboardInput::Keypad5 => "Keypad5",
            KeyboardInput::Keypad6RightArrow => "Keypad6RightArrow",
            KeyboardInput::Keypad7Home => "Keypad7Home",
            KeyboardInput::Keypad8UpArrow => "Keypad8UpArrow",
            KeyboardInput::Keypad9PageUp => "Keypad9PageUp",
            KeyboardInput::Keypad0Insert => "Keypad0Insert",
            KeyboardInput::KeypadPeriodDelete => "KeypadPeriodDelete",
            KeyboardInput::NonUSSlash => "NonUSSlash",
            KeyboardInput::Application => "Application",
            KeyboardInput::Power => "Power",
            KeyboardInput::KeypadEqual => "KeypadEqual",
            KeyboardInput::F13 => "F13",
            KeyboardInput::F14 => "F14",
            KeyboardInput::F15 => "F15",
            KeyboardInput::F16 => "F16",
            KeyboardInput::F17 => "F17",
            KeyboardInput::F18 => "F18",
            KeyboardInput::F19 => "F19",
            KeyboardInput::F20 => "F20",
            KeyboardInput::F21 => "F21",
            KeyboardInput::F22 => "F22",
            KeyboardInput::F23 => "F23",
            KeyboardInput::F24 => "F24",
            KeyboardInput::Execute => "Execute",
            KeyboardInput::Help => "Help",
            KeyboardInput::Menu => "Menu",
            KeyboardInput::Select => "Select",
            KeyboardInput::Stop => "Stop",
            KeyboardInput::Again => "Again",
            KeyboardInput::Undo => "Undo",
            KeyboardInput::Cut => "Cut",
            KeyboardInput::Copy => "Copy",
            KeyboardInput::Paste => "Paste",
            KeyboardInput::Find => "Find",
            KeyboardInput::Mute => "Mute",
            KeyboardInput::VolumeUp => "VolumeUp",
            KeyboardInput::VolumeDown => "VolumeDown",
            KeyboardInput::LockingCapsLock => "LockingCapsLock",
            KeyboardInput::LockingNumLock => "LockingNumLock",
            KeyboardInput::LockingScrollLock => "LockingScrollLock",
            KeyboardInput::KeypadComma => "KeypadComma",
            KeyboardInput::KeypadEqualSign => "KeypadEqualSign",
            KeyboardInput::International1 => "International1",
            KeyboardInput::International2 => "International2",
            KeyboardInput::International3 => "International3",
            KeyboardInput::International4 => "International4",
            KeyboardInput::International5 => "International5",
            KeyboardInput::International6 => "International6",
            KeyboardInput::International7 => "International7",
            KeyboardInput::International8 => "International8",
            KeyboardInput::International9 => "International9",
            KeyboardInput::LANG1 => "LANG1",
            KeyboardInput::LANG2 => "LANG2",
            KeyboardInput::LANG3 => "LANG3",
            KeyboardInput::LANG4 => "LANG4",
            KeyboardInput::LANG5 => "LANG5",
            KeyboardInput::LANG6 => "LANG6",
            KeyboardInput::LANG7 => "LANG7",
            KeyboardInput::LANG8 => "LANG8",
            KeyboardInput::LANG9 => "LANG9",
            KeyboardInput::AlternateErase => "AlternateErase",
            KeyboardInput::SysReqAttention => "SysReqAttention",
            KeyboardInput::Cancel => "Cancel",
            KeyboardInput::Clear => "Clear",
            KeyboardInput::Prior => "Prior",
            KeyboardInput::Return => "Return",
            KeyboardInput::Separator => "Separator",
            KeyboardInput::Out => "Out",
            KeyboardInput::Oper => "Oper",
            KeyboardInput::ClearAgain => "ClearAgain",
            KeyboardInput::CrSelProps => "CrSelProps",
            KeyboardInput::ExSel => "ExSel",
            KeyboardInput::LeftControl => "LeftControl",
            KeyboardInput::LeftShift => "LeftShift",
            KeyboardInput::LeftAlt => "LeftAlt",
            KeyboardInput::LeftWindows => "LeftWindows",
            KeyboardInput::RightControl => "RightControl",
            KeyboardInput::RightShift => "RightShift",
            KeyboardInput::RightAlt => "RightAlt",
            KeyboardInput::RightWindows => "RightWindows",
            KeyboardInput::MediaPlayPause => "MediaPlayPause",
            KeyboardInput::MediaPreviousSong => "MediaPreviousSong",
            KeyboardInput::MediaNextSong => "MediaNextSong",
        }
    }

    /// The key at position `i` in declaration order.
    pub fn at(i: u8) -> (r: KeyboardInput)
        requires
            i < KEYBOARD_INPUT_COUNT,
        ensures
            r == keyboard_input_at(i),
    {
        match i {
            0 => KeyboardInput::A,
            1 => KeyboardInput::B,
            2 => KeyboardInput::C,
            3 => KeyboardInput::D,
            4 => KeyboardInput::E,
            5 => KeyboardInput::F,
            6 => KeyboardInput::G,
            7 => KeyboardInput::H,
            8 => KeyboardInput::I,
            9 => KeyboardInput::J,
            10 => KeyboardInput::K,
            11 => KeyboardInput::L,
            12 => KeyboardInput::M,
            13 => KeyboardInput::N,
            14 => KeyboardInput::O,
            15 => KeyboardInput::P,
            16 => KeyboardInput::Q,
            17 => KeyboardInput::R,
            18 => KeyboardInput::S,
            19 => KeyboardInput::T,
            20 => KeyboardInput::U,
            21 => KeyboardInput::V,
            22 => KeyboardInput::W,
            23 => KeyboardInput::X,
            24 => KeyboardInput::Y,
            25 => KeyboardInput::Z,
            26 => KeyboardInput::TopRow1Exclamation,
            27 => KeyboardInput::TopRow2At,
            28 => KeyboardInput::TopRow3Hash,
            29 => KeyboardInput::TopRow4Dollar,
            30 => KeyboardInput::TopRow5Percent,
            31 => KeyboardInput::TopRow6Caret,
            32 => KeyboardInput::TopRow7Ampersand,
            33 => KeyboardInput::TopRow8Asterisk,
            34 => KeyboardInput::TopRow9OpenParens,
            35 => KeyboardInput::TopRow0CloseParens,
            36 => KeyboardInput::Enter,
            37 => KeyboardInput::Escape,
            38 => KeyboardInput::Backspace,
            39 => KeyboardInput::Tab,
            40 => KeyboardInput::Spacebar,
            41 => KeyboardInput::DashUnderscore,
            42 => KeyboardInput::EqualPlus,
            43 => KeyboardInput::OpenBracketBrace,
            44 => KeyboardInput::CloseBracketBrace,
            45 => KeyboardInput::BackslashBar,
            46 => KeyboardInput::NonUSHash,
            47 => KeyboardInput::SemiColon,
            48 => KeyboardInput::SingleDoubleQuote,
            49 => KeyboardInput::BacktickTilde,
            50 => KeyboardInput::CommaLessThan,
            51 => KeyboardInput::PeriodGreaterThan,
            52 => KeyboardInput::SlashQuestion,
            53 => KeyboardInput::CapsLock,
            54 => KeyboardInput::F1,
            55 => KeyboardInput::F2,
            56 => KeyboardInput::F3,
            57 => KeyboardInput::F4,
            58 => KeyboardInput::F5,
            59 => KeyboardInput::F6,
            60 => KeyboardInput::F7,
            61 => KeyboardInput::F8,
            62 => KeyboardInput::F9,
            63 => KeyboardInput::F10,
            64 => KeyboardInput::F11,
            65 => KeyboardInput::F12,
            66 => KeyboardInput::PrintScreen,
            67 => KeyboardInput::ScrollLock,
            68 => KeyboardInput::Pause,
            69 => KeyboardInput::Insert,
            70 => KeyboardInput::Home,
            71 => KeyboardInput::PageUp,
            72 => KeyboardInput::Delete,
            73 => KeyboardInput::End,
            74 => KeyboardInput::PageDown,
            75 => KeyboardInput::RightArrow,
            76 => KeyboardInput::LeftArrow,
            77 => KeyboardInput::DownArrow,
            78 => KeyboardInput::UpArrow,
            79 => KeyboardInput::KeypadNumLock,
            80 => KeyboardInput::KeypadDivide,
            81 => KeyboardInput::KeypadMultiply,
            82 => KeyboardInput::KeypadMinus,
            83 => KeyboardInput::KeypadPlus,
            84 => KeyboardInput::KeypadEnter,
            85 => KeyboardInput::Keypad1End,
            86 => KeyboardInput::Keypad2DownArrow,
            87 => KeyboardInput::Keypad3PageDown,
            88 => KeyboardInput::Keypad4LeftArrow,
            89 => KeyboardInput::Keypad5,
            90 => KeyboardInput::Keypad6RightArrow,
            91 => KeyboardInput::Keypad7Home,
            92 => KeyboardInput::Keypad8UpArrow,
            93 => KeyboardInput::Keypad9PageUp,
            94 => KeyboardInput::Keypad0Insert,
            95 => KeyboardInput::KeypadPeriodDelete,
            96 => KeyboardInput::NonUSSlash,
            97 => KeyboardInput::Application,
            98 => KeyboardInput::Power,
            99 => KeyboardInput::KeypadEqual,
            100 => KeyboardInput::F13,
            101 => KeyboardInput::F14,
            102 => KeyboardInput::F15,
            103 => KeyboardInput::F16,
            104 => KeyboardInput::F17,
            105 => KeyboardInput::F18,
            106 => KeyboardInput::F19,
            107 => KeyboardInput::F20,
            108 => KeyboardInput::F21,
            109 => KeyboardInput::F22,
            110 => KeyboardInput::F23,
            111 => KeyboardInput::F24,
            112 => KeyboardInput::Execute,
            113 => KeyboardInput::Help,
            114 => KeyboardInput::Menu,
            115 => KeyboardInput::Select,
            116 => KeyboardInput::Stop,
            117 => KeyboardInput::Again,
            118 => KeyboardInput::Undo,
            119 => KeyboardInput::Cut,
            120 => KeyboardInput::Copy,
            121 => KeyboardInput::Paste,
            122 => KeyboardInput::Find,
            123 => KeyboardInput::Mute,
            124 => KeyboardInput::VolumeUp,
            125 => KeyboardInput::VolumeDown,
            126 => KeyboardInput::LockingCapsLock,
            127 => KeyboardInput::LockingNumLock,
            128 => KeyboardInput::LockingScrollLock,
            129 => KeyboardInput::KeypadComma,
            130 => KeyboardInput::KeypadEqualSign,
            131 => KeyboardInput::International1,
            132 => KeyboardInput::International2,
            133 => KeyboardInput::International3,
            134 => KeyboardInput::International4,
            135 => KeyboardInput::International5,
            136 => KeyboardInput::International6,
            137 => KeyboardInput::International7,
            138 => KeyboardInput::International8,
            139 => KeyboardInput::International9,
            140 => KeyboardInput::LANG1,
            141 => KeyboardInput::LANG2,
            142 => KeyboardInput::LANG3,
            143 => KeyboardInput::LANG4,
            144 => KeyboardInput::LANG5,
            145 => KeyboardInput::LANG6,
            146 => KeyboardInput::LANG7,
            147 => KeyboardInput::LANG8,
            148 => KeyboardInput::LANG9,
            149 => KeyboardInput::AlternateErase,
            150 => KeyboardInput::SysReqAttention,
            151 => KeyboardInput::Cancel,
            152 => KeyboardInput::Clear,
            153 => KeyboardInput::Prior,
            154 => KeyboardInput::Return,
            155 => KeyboardInput::Separator,
            156 => KeyboardInput::Out,
            157 => KeyboardInput::Oper,
            158 => KeyboardInput::ClearAgain,
            159 => KeyboardInput::CrSelProps,
            160 => KeyboardInput::ExSel,
            161 => KeyboardInput::LeftControl,
            162 => KeyboardInput::LeftShift,
            163 => KeyboardInput::LeftAlt,
            164 => KeyboardInput::LeftWindows,
            165 => KeyboardInput::RightControl,
            166 => KeyboardInput::RightShift,
            167 => KeyboardInput::RightAlt,
            168 => KeyboardInput::RightWindows,
            169 => KeyboardInput::MediaPlayPause,
            170 => KeyboardInput::MediaPreviousSong,
            171 => KeyboardInput::MediaNextSong,
            _ => KeyboardInput::A,
        }
    }

    /// The key whose variant name is exactly `s` (case-sensitive); the first
    /// in declaration order, and by `lemma_key_names_read_back` the only one.
    pub fn from_variant_name(s: &[char]) -> (r: Option<KeyboardInput>)
        ensures
            r == keyboard_input_named(s@),
            r matches Some(k) ==> k.variant_name() == s@,
            r is None ==> forall|k: KeyboardInput| #[trigger] k.variant_name() != s@,
    {
        let mut i: u8 = 0;
        while i < KEYBOARD_INPUT_COUNT
            invariant
                i <= KEYBOARD_INPUT_COUNT,
                forall|j: u8| j < i ==> #[trigger] keyboard_input_at(j).variant_name() != s@,
                keyboard_input_named(s@) == keyboard_input_named_from(s@, i as nat),
            decreases KEYBOARD_INPUT_COUNT - i,
        {
            let k = KeyboardInput::at(i);
            let candidate = chars_of(k.name());
            if chars_equal(candidate.as_slice(), s) {
                return Some(k);
            }
            i += 1;
            proof {
                assert(keyboard_input_named_from(s@, (i - 1) as nat) == keyboard_input_named_from(s@, i as nat));
            }
        }
        proof {
            assert forall|k: KeyboardInput| #[trigger] k.variant_name() != s@ by {
                lemma_keyboard_input_index(k);
                assert(keyboard_input_at(k.declaration_index()).variant_name() != s@);
            }
        }
        None
    }

    /// Whether `k` is among the common keys.
    fn is_common(k: KeyboardInput, common: &Vec<KeyboardInput>) -> (r: bool)
        requires
            common@ == common_keyboard_inputs(),
        ensures
            r == common_keyboard_inputs().contains(k),
    {
        let mut i: usize = 0;
        while i < common.len()
            invariant
                common@ == common_keyboard_inputs(),
                i <= common@.len(),
                forall|j: int| 0 <= j < i ==> common@[j] != k,
            decreases common@.len() - i,
        {
            if common[i] == k {
                return true;
            }
            i += 1;
        }
        false
    }

    /// The common keys, in the order the configurator offers them.
    pub fn common_iter() -> (r: Vec<KeyboardInput>)
        ensures
            r@ == common_keyboard_inputs(),
    {
        let r = vec![
            KeyboardInput::RightArrow,
            KeyboardInput::LeftArrow,
            KeyboardInput::DownArrow,
            KeyboardInput::UpArrow,
            KeyboardInput::PageUp,
            KeyboardInput::PageDown,
            KeyboardInput::Tab,
            KeyboardInput::Escape,
            KeyboardInput::A,
            KeyboardInput::B,
            KeyboardInput::C,
            KeyboardInput::D,
            KeyboardInput::E,
            KeyboardInput::F,
            KeyboardInput::G,
            KeyboardInput::H,
            KeyboardInput::I,
            KeyboardInput::J,
            KeyboardInput::K,
            KeyboardInput::L,
            KeyboardInput::M,
            KeyboardInput::N,
            KeyboardInput::O,
            KeyboardInput::P,
            KeyboardInput::Q,
            KeyboardInput::R,
            KeyboardInput::S,
            KeyboardInput::T,
            KeyboardInput::U,
            KeyboardInput::V,
            KeyboardInput::W,
            KeyboardInput::X,
            KeyboardInput::Y,
            KeyboardInput::Z,
            KeyboardInput::TopRow1Exclamation,
            KeyboardInput::TopRow2At,
            KeyboardInput::TopRow3Hash,
            KeyboardInput::TopRow4Dollar,
            KeyboardInput::TopRow5Percent,
            KeyboardInput::TopRow6Caret,
            KeyboardInput::TopRow7Ampersand,
            KeyboardInput::TopRow8Asterisk,
            KeyboardInput::TopRow9OpenParens,
            KeyboardInput::TopRow0CloseParens,
            KeyboardInput::Enter,
            KeyboardInput::Backspace,
            KeyboardInput::Delete,
            KeyboardInput::Spacebar,
            KeyboardInput::DashUnderscore,
            KeyboardInput::EqualPlus,
            KeyboardInput::OpenBracketBrace,
            KeyboardInput::CloseBracketBrace,
            KeyboardInput::BackslashBar,
            KeyboardInput::NonUSHash,
            KeyboardInput::SemiColon,
            KeyboardInput::SingleDoubleQuote,
            KeyboardInput::BacktickTilde,
            KeyboardInput::CommaLessThan,
            KeyboardInput::PeriodGreaterThan,
            KeyboardInput::SlashQuestion,
            KeyboardInput::F1,
            KeyboardInput::F2,
            KeyboardInput::F3,
            KeyboardInput::F4,
            KeyboardInput::F5,
            KeyboardInput::F6,
            KeyboardInput::F7,
            KeyboardInput::F8,
            KeyboardInput::F9,
            KeyboardInput::F10,
            KeyboardInput::F11,
            KeyboardInput::F12,
            KeyboardInput::LeftControl,
            KeyboardInput::LeftShift,
            KeyboardInput::LeftAlt,
            KeyboardInput::LeftWindows,
            KeyboardInput::RightControl,
            KeyboardInput::RightShift,
            KeyboardInput::RightAlt,
            KeyboardInput::RightWindows,
            KeyboardInput::PrintScreen,
            KeyboardInput::Pause,
            KeyboardInput::Insert,
            KeyboardInput::Home,
            KeyboardInput::End,
            KeyboardInput::Power,
            KeyboardInput::Cut,
            KeyboardInput::Copy,
            KeyboardInput::Paste,
            KeyboardInput::Find,
            KeyboardInput::Mute,
            KeyboardInput::VolumeUp,
            KeyboardInput::VolumeDown,
        ];
        assert(r@ =~= common_keyboard_inputs());
        r
    }

    /// Every other key, in declaration order.
    pub fn obscure_iter() -> (r: Vec<KeyboardInput>)
        ensures
            r@ == all_keyboard_inputs().filter(|k: KeyboardInput| !common_keyboard_inputs().contains(k)),
    {
        let common = KeyboardInput::common_iter();
        let ghost pred = |k: KeyboardInput| !common_keyboard_inputs().contains(k);
        let mut r: Vec<KeyboardInput> = Vec::new();
        let mut i: u8 = 0;
        while i < KEYBOARD_INPUT_COUNT
            invariant
                i <= KEYBOARD_INPUT_COUNT,
                common@ == common_keyboard_inputs(),
                pred == (|k: KeyboardInput| !common_keyboard_inputs().contains(k)),
                r@ == all_keyboard_inputs().take(i as int).filter(pred),
            decreases KEYBOARD_INPUT_COUNT - i,
        {
            let k = KeyboardInput::at(i);
            proof {
                assert(all_keyboard_inputs().take(i + 1).drop_last() =~= all_keyboard_inputs().take(
                    i as int,
                ));
                assert(all_keyboard_inputs().take(i + 1).last() == k);
            }
            let ghost prefix = all_keyboard_inputs().take(i + 1);
            assert(prefix.filter(pred) == if pred(k) {
                prefix.drop_last().filter(pred).push(k)
            } else {
                prefix.drop_last().filter(pred)
            }) by {
                reveal(Seq::filter);
            }
            let common_key = KeyboardInput::is_common(k, &common);
            if !common_key {
                r.push(k);
            }
            i += 1;
        }
        assert(all_keyboard_inputs().take(KEYBOARD_INPUT_COUNT as int) =~= all_keyboard_inputs());
        r
    }
}

/// Every key has a declaration position below the key count, and that position leads back to it.
pub proof fn lemma_keyboard_input_index(k: KeyboardInput)
    ensures
        k.declaration_index() < KEYBOARD_INPUT_COUNT,
        keyboard_input_at(k.declaration_index()) == k,
{
    match k {
        KeyboardInput::A => {},
        KeyboardInput::B => {},
        KeyboardInput::C => {},
        KeyboardInput::D => {},
        KeyboardInput::E => {},
        KeyboardInput::F => {},
        KeyboardInput::G => {},
        KeyboardInput::H => {},
        KeyboardInput::I => {},
        KeyboardInput::J => {},
        KeyboardInput::K => {},
        KeyboardInput::L => {},
        KeyboardInput::M => {},
        KeyboardInput::N => {},
        KeyboardInput::O => {},
        KeyboardInput::P => {},
        KeyboardInput::Q => {},
        KeyboardInput::R => {},
        KeyboardInput::S => {},
        KeyboardInput::T => {},
        KeyboardInput::U => {},
        KeyboardInput::V => {},
        KeyboardInput::W => {},
        KeyboardInput::X => {},
        KeyboardInput::Y => {},
        KeyboardInput::Z => {},
        KeyboardInput::TopRow1Exclamation => {},
        KeyboardInput::TopRow2At => {},
        KeyboardInput::TopRow3Hash => {},
        KeyboardInput::TopRow4Dollar => {},
        KeyboardInput::TopRow5Percent => {},
        KeyboardInput::TopRow6Caret => {},
        KeyboardInput::TopRow7Ampersand => {},
        KeyboardInput::TopRow8Asterisk => {},
        KeyboardInput::TopRow9OpenParens => {},
        KeyboardInput::TopRow0CloseParens => {},
        KeyboardInput::Enter => {},
        KeyboardInput::Escape => {},
        KeyboardInput::Backspace => {},
        KeyboardInput::Tab => {},
        KeyboardInput::Spacebar => {},
        KeyboardInput::DashUnderscore => {},
        KeyboardInput::EqualPlus => {},
        KeyboardInput::OpenBracketBrace => {},
        KeyboardInput::CloseBracketBrace => {},
        KeyboardInput::BackslashBar => {},
        KeyboardInput::NonUSHash => {},
        KeyboardInput::SemiColon => {},
        KeyboardInput::SingleDoubleQuote => {},
        KeyboardInput::BacktickTilde => {},
        KeyboardInput::CommaLessThan => {},
        KeyboardInput::PeriodGreaterThan => {},
        KeyboardInput::SlashQuestion => {},
        KeyboardInput::CapsLock => {},
        KeyboardInput::F1 => {},
        KeyboardInput::F2 => {},
        KeyboardInput::F3 => {},
        KeyboardInput::F4 => {},
        KeyboardInput::F5 => {},
        KeyboardInput::F6 => {},
        KeyboardInput::F7 => {},
        KeyboardInput::F8 => {},
        KeyboardInput::F9 => {},
        KeyboardInput::F10 => {},
        KeyboardInput::F11 => {},
        KeyboardInput::F12 => {},
        KeyboardInput::PrintScreen => {},
        KeyboardInput::ScrollLock => {},
        KeyboardInput::Pause => {},
        KeyboardInput::Insert => {},
        KeyboardInput::Home => {},
        KeyboardInput::PageUp => {},
        KeyboardInput::Delete => {},
        KeyboardInput::End => {},
        KeyboardInput::PageDown => {},
        KeyboardInput::RightArrow => {},
        KeyboardInput::LeftArrow => {},
        KeyboardInput::DownArrow => {},
        KeyboardInput::UpArrow => {},
        KeyboardInput::KeypadNumLock => {},
        KeyboardInput::KeypadDivide => {},
        KeyboardInput::KeypadMultiply => {},
        KeyboardInput::KeypadMinus => {},
        KeyboardInput::KeypadPlus => {},
        KeyboardInput::KeypadEnter => {},
        KeyboardInput::Keypad1End => {},
        KeyboardInput::Keypad2DownArrow => {},
        KeyboardInput::Keypad3PageDown => {},
        KeyboardInput::Keypad4LeftArrow => {},
        KeyboardInput::Keypad5 => {},
        KeyboardInput::Keypad6RightArrow => {},
        KeyboardInput::Keypad7Home => {},
        KeyboardInput::Keypad8UpArrow => {},
        KeyboardInput::Keypad9PageUp => {},
        KeyboardInput::Keypad0Insert => {},
        KeyboardInput::KeypadPeriodDelete => {},
        KeyboardInput::NonUSSlash => {},
        KeyboardInput::Application => {},
        KeyboardInput::Power => {},
        KeyboardInput::KeypadEqual => {},
        KeyboardInput::F13 => {},
        KeyboardInput::F14 => {},
        KeyboardInput::F15 => {},
        KeyboardInput::F16 => {},
        KeyboardInput::F17 => {},
        KeyboardInput::F18 => {},
        KeyboardInput::F19 => {},
        KeyboardInput::F20 => {},
        KeyboardInput::F21 => {},
        KeyboardInput::F22 => {},
        KeyboardInput::F23 => {},
        KeyboardInput::F24 => {},
        KeyboardInput::Execute => {},
        KeyboardInput::Help => {},
        KeyboardInput::Menu => {},
        KeyboardInput::Select => {},
        KeyboardInput::Stop => {},
        KeyboardInput::Again => {},
        KeyboardInput::Undo => {},
        KeyboardInput::Cut => {},
        KeyboardInput::Copy => {},
        KeyboardInput::Paste => {},
        KeyboardInput::Find => {},
        KeyboardInput::Mute => {},
        KeyboardInput::VolumeUp => {},
        KeyboardInput::VolumeDown => {},
        KeyboardInput::LockingCapsLock => {},
        KeyboardInput::LockingNumLock => {},
        KeyboardInput::LockingScrollLock => {},
        KeyboardInput::KeypadComma => {},
        KeyboardInput::KeypadEqualSign => {},
        KeyboardInput::International1 => {},
        KeyboardInput::International2 => {},
        KeyboardInput::International3 => {},
        KeyboardInput::International4 => {},
        KeyboardInput::International5 => {},
        KeyboardInput::International6 => {},
        KeyboardInput::International7 => {},
        KeyboardInput::International8 => {},
        KeyboardInput::International9 => {},
        KeyboardInput::LANG1 => {},
        KeyboardInput::LANG2 => {},
        KeyboardInput::LANG3 => {},
        KeyboardInput::LANG4 => {},
        KeyboardInput::LANG5 => {},
        KeyboardInput::LANG6 => {},
        KeyboardInput::LANG7 => {},
        KeyboardInput::LANG8 => {},
        KeyboardInput::LANG9 => {},
        KeyboardInput::AlternateErase => {},
        KeyboardInput::SysReqAttention => {},
        KeyboardInput::Cancel => {},
        KeyboardInput::Clear => {},
        KeyboardInput::Prior => {},
        KeyboardInput::Return => {},
        KeyboardInput::Separator => {},
        KeyboardInput::Out => {},
        KeyboardInput::Oper => {},
        KeyboardInput::ClearAgain => {},
        KeyboardInput::CrSelProps => {},
        KeyboardInput::ExSel => {},
        KeyboardInput::LeftControl => {},
        KeyboardInput::LeftShift => {},
        KeyboardInput::LeftAlt => {},
        KeyboardInput::LeftWindows => {},
        KeyboardInput::RightControl => {},
        KeyboardInput::RightShift => {},
        KeyboardInput::RightAlt => {},
        KeyboardInput::RightWindows => {},
        KeyboardInput::MediaPlayPause => {},
        KeyboardInput::MediaPreviousSong => {},
        KeyboardInput::MediaNextSong => {},
    }
}

/// Controls of the keyboard's own behaviour inside an output sequence.
#[derive(Debug, Clone, Copy, PartialEq, Eq, Structural)]
pub enum RukeyControl {
    /// Blocks the rest of the output_sequence until the milliseconds have passed;
    /// then all previous elements stay held and the following elements are activated.
    AfterMillisHold(u16),
    /// Blocks the rest of the output_sequence until the milliseconds have passed;
    /// then all previous elements are released and the following elements are activated.
    AfterMillisRelease(u16),
    /// Restarts this output_sequence from the beginning.
    Restart,
    /// Change the profile to the configured index; any in progress output_sequences are terminated.
    SetProfile(u8),
}

impl Default for RukeyControl {
    fn default() -> (r: RukeyControl)
        ensures
            r == RukeyControl::Restart,
    {
        RukeyControl::Restart
    }
}

/// The control named `s`, with its number read from `value`.
pub open spec fn rukey_control_named(s: Seq<char>, value: Seq<char>) -> Option<RukeyControl> {
    if s == "AfterMillisHold"@ {
        match parsed_u16(value) {
            Some(v) => Some(RukeyControl::AfterMillisHold(v)),
            None => None,
        }
    } else if s == "AfterMillisRelease"@ {
        match parsed_u16(value) {
            Some(v) => Some(RukeyControl::AfterMillisRelease(v)),
            None => None,
        }
    } else if s == "Restart"@ {
        Some(RukeyControl::Restart)
    } else if s == "SetProfile"@ {
        match parsed_u8(value) {
            Some(v) => Some(RukeyControl::SetProfile(v)),
            None => None,
        }
    } else {
        None
    }
}

impl RukeyControl {
    /// The control named `s`; `value` gives its milliseconds or profile index.
    pub fn from_string(s: &str, value: &str) -> (r: Option<Self>)
        ensures
            r == rukey_control_named(s@, value@),
    {
        let name = chars_of(s);
        let value = chars_of(value);
        Self::from_chars(name.as_slice(), value.as_slice())
    }

    /// `from_string` on the characters of the name and of the value.
    pub fn from_chars(name: &[char], value: &[char]) -> (r: Option<Self>)
        ensures
            r == rukey_control_named(name@, value@),
    {
        if is_text(name, "AfterMillisHold") {
            match parse_u16(value) {
                Some(v) => Some(RukeyControl::AfterMillisHold(v)),
                None => None,
            }
        } else if is_text(name, "AfterMillisRelease") {
            match parse_u16(value) {
                Some(v) => Some(RukeyControl::AfterMillisRelease(v)),
                None => None,
            }
        } else if is_text(name, "Restart") {
            Some(RukeyControl::Restart)
        } else if is_text(name, "SetProfile") {
            match parse_u8(value) {
                Some(v) => Some(RukeyControl::SetProfile(v)),
                None => None,
            }
        } else {
            None
        }
    }
}

/// One mapping from a set of held inputs to a sequence of outputs.
pub struct Mapping {
    /// The input_set produces a press event when (the last event was release OR there have
    /// been no events yet) AND all inputs are held, and a release event when the last event
    /// was press AND at least one input is not held.
    pub input_set: InputSet,
    /// When the output_sequence is triggered and/or terminated.
    pub mode: MappingMode,
    /// A sequence of outputs forming a simple key press or macro.
    /// Once triggered, it runs till completion or the terminate_on condition is met.
    pub output_sequence: OutputSequence,
}

impl Default for Mapping {
    fn default() -> (r: Mapping)
        ensures
            input_set_items(r.input_set) == Seq::<RukeyInput>::empty(),
            r.mode == MappingMode::OnPress,
            output_sequence_items(r.output_sequence) == Seq::<ComputerInput>::empty(),
    {
        Mapping {
            input_set: InputSet::new(),
            mode: MappingMode::OnPress,
            output_sequence: OutputSequence::new(),
        }
    }
}

/// A set of mappings that is active at one time.
pub struct Profile {
    pub mappings: MappingList,
}

impl Profile {
    /// A profile without mappings.
    pub fn empty() -> (r: Self)
        ensures
            mapping_list_items(r.mappings) == Seq::<Mapping>::empty(),
    {
        Profile { mappings: MappingList::new() }
    }
}

impl Default for Profile {
    fn default() -> (r: Profile)
        ensures
            mapping_list_items(r.mappings) == Seq::<Mapping>::empty(),
    {
        Profile { mappings: MappingList::new() }
    }
}

/// Device metadata: all config fields except profiles. It is stored apart
/// from the profiles in flash so that one profile can be loaded at a time.
pub struct Meta {
    pub version: u32,
    pub nickname: Nickname,
    pub device: Device,
    pub color: u32,
    pub pin_remappings: PinRemappingList,
}

impl Default for Meta {
    /// Version 0, the nickname "my rukey", the blue `0x1790e3`, no pin remappings.
    fn default() -> (r: Meta)
        ensures
            r.version == 0,
            nickname_text(r.nickname) == "my rukey"@,
            r.device == Device::Rukey,
            r.color == 0x1790e3,
            pin_remapping_list_items(r.pin_remappings) == Seq::<PinRemapping>::empty(),
    {
        proof {
            reveal_strlit("my rukey");
            reveal_with_fuel(utf8_len, 9);
        }
        let nickname = Nickname::from_str("my rukey");
        Meta {
            version: 0,
            nickname: nickname.unwrap(),
            device: Device::Rukey,
            color: 0x1790e3,
            pin_remappings: PinRemappingList::new(),
        }
    }
}

impl Meta {
    /// The nickname's text.
    pub fn nickname_str(&self) -> (r: &str)
        ensures
            r@ == nickname_text(self.nickname),
    {
        self.nickname.as_str()
    }
}

/// A whole device configuration.
pub struct Config {
    pub meta: Meta,
    pub profiles: ProfileList,
}

impl Default for Config {
    /// The default metadata and a single empty profile.
    fn default() -> (r: Config)
        ensures
            r.meta.version == 0,
            nickname_text(r.meta.nickname) == "my rukey"@,
            r.meta.device == Device::Rukey,
            r.meta.color == 0x1790e3,
            pin_remapping_list_items(r.meta.pin_remappings) == Seq::<PinRemapping>::empty(),
            profile_list_items(r.profiles).len() == 1,
            mapping_list_items(profile_list_items(r.profiles)[0].mappings) == Seq::<Mapping>::empty(),
    {
        let mut profiles = ProfileList::new();
        let pushed = profiles.push(Profile::default());
        Config { meta: Meta::default(), profiles }
    }
}

/// The usage codes follow the HID keyboard usage table in declaration order:
/// the keys up to `ExSel` take consecutive codes from `0x04`, the eight
/// modifiers `0xE0` to `0xE7`, and the media keys `0xE8`, `0xEA` and `0xEB`.
pub proof fn lemma_usage_codes_follow_the_usage_table(k: KeyboardInput)
    ensures
        k.declaration_index() < 161 ==> k.usage_code_value() == k.declaration_index() + 4,
        161 <= k.declaration_index() < 169 ==> k.usage_code_value() == k.declaration_index() + 63,
        k.declaration_index() == 169 ==> k.usage_code_value() == 0xE8,
        k.declaration_index() == 170 ==> k.usage_code_value() == 0xEA,
        k.declaration_index() == 171 ==> k.usage_code_value() == 0xEB,
{
}

/// Keys declared later have larger usage codes, so no two keys share one.
pub proof fn lemma_usage_codes_increase(a: KeyboardInput, b: KeyboardInput)
    requires
        a.declaration_index() < b.declaration_index(),
    ensures
        a.usage_code_value() < b.usage_code_value(),
{
    lemma_usage_codes_follow_the_usage_table(a);
    lemma_usage_codes_follow_the_usage_table(b);
    lemma_keyboard_input_index(a);
    lemma_keyboard_input_index(b);
}

/// The macro modes are exactly those whose name starts with `Macro`.
pub proof fn lemma_macro_modes_are_named_so(m: MappingMode)
    ensures
        mode_is_macro(m) == "Macro"@.is_prefix_of(mode_variant_name(m)),
{
    reveal_strlit("Macro");
    reveal_strlit("OnPress");
    reveal_strlit("OnHold");
    reveal_strlit("Toggle");
    reveal_strlit("MacroOnPress");
    reveal_strlit("MacroOnRelease");
    reveal_strlit("MacroOnTap");
    reveal_strlit("MacroOnDoubleTap");
    reveal_strlit("MacroOnHold");
    let n = mode_variant_name(m);
    if !mode_is_macro(m) {
        assert(n[0] != 'M');
        if "Macro"@.is_prefix_of(n) {
            assert(n.subrange(0, 5)[0] == "Macro"@[0]);
        }
    } else {
        assert(n.subrange(0, 5) =~= "Macro"@);
    }
}

/// The variant name of each control.
pub open spec fn control_variant_name(c: RukeyControl) -> Seq<char> {
    match c {
        RukeyControl::AfterMillisHold(_) => "AfterMillisHold"@,
        RukeyControl::AfterMillisRelease(_) => "AfterMillisRelease"@,
        RukeyControl::Restart => "Restart"@,
        RukeyControl::SetProfile(_) => "SetProfile"@,
    }
}

/// Every control reads back from its variant name: a wait with the decimal
/// text of its milliseconds, a profile switch with that of its index, and a
/// restart with any value.
pub proof fn lemma_control_names_read_back(c: RukeyControl, value: Seq<char>)
    ensures
        match c {
            RukeyControl::AfterMillisHold(ms) => rukey_control_named(
                control_variant_name(c),
                decimal_text(ms as nat),
            ) == Some(c),
            RukeyControl::AfterMillisRelease(ms) => rukey_control_named(
                control_variant_name(c),
                decimal_text(ms as nat),
            ) == Some(c),
            RukeyControl::SetProfile(p) => rukey_control_named(
                control_variant_name(c),
                decimal_text(p as nat),
            ) == Some(c),
            RukeyControl::Restart => rukey_control_named(control_variant_name(c), value) == Some(c),
        },
{
    reveal_strlit("AfterMillisHold");
    reveal_strlit("AfterMillisRelease");
    reveal_strlit("Restart");
    reveal_strlit("SetProfile");
    match c {
        RukeyControl::AfterMillisHold(ms) => {
            lemma_integer_text_reads_back(ms as int);
            assert(parsed_u16(decimal_text(ms as nat)) == Some(ms));
        },
        RukeyControl::AfterMillisRelease(ms) => {
            lemma_integer_text_reads_back(ms as int);
            assert(parsed_u16(decimal_text(ms as nat)) == Some(ms));
            assert("AfterMillisRelease"@.len() != "AfterMillisHold"@.len());
        },
        RukeyControl::SetProfile(p) => {
            lemma_integer_text_reads_back(p as int);
            assert(parsed_u8(decimal_text(p as nat)) == Some(p));
            assert("SetProfile"@[0] == 'S');
        },
        RukeyControl::Restart => {
            assert("Restart"@[0] == 'R');
        },
    }
}

} // verus!
