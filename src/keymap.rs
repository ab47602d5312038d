//! Fixed mapping from Linux evdev key codes to USB HID keyboard usages.
use vstd::prelude::*;

verus! {

/// The USB HID keyboard usage for an evdev key code, or the null usage 0
/// when the code has no entry in the table.
pub open spec fn hid_usage(code: u32) -> u8 {
    match code {
        1 => 0x29,
        2 => 0x1E,
        3 => 0x1F,
        4 => 0x20,
        5 => 0x21,
        6 => 0x22,
        7 => 0x23,
        8 => 0x24,
        9 => 0x25,
        10 => 0x26,
        11 => 0x27,
        12 => 0x2D,
        13 => 0x2E,
        14 => 0x2A,
        15 => 0x2B,
        16 => 0x14,
        17 => 0x1A,
        18 => 0x08,
        19 => 0x15,
        20 => 0x17,
        21 => 0x1C,
        22 => 0x18,
        23 => 0x0C,
        24 => 0x12,
        25 => 0x13,
        26 => 0x2F,
        27 => 0x30,
        28 => 0x28,
        29 => 0xE0,
        30 => 0x04,
        31 => 0x16,
        32 => 0x07,
        33 => 0x09,
        34 => 0x0A,
        35 => 0x0B,
        36 => 0x0D,
        37 => 0x0E,
        38 => 0x0F,
        39 => 0x33,
        40 => 0x34,
        41 => 0x35,
        42 => 0xE1,
        43 => 0x31,
        44 => 0x1D,
        45 => 0x1B,
        46 => 0x06,
        47 => 0x19,
        48 => 0x05,
        49 => 0x11,
        50 => 0x10,
        51 => 0x36,
        52 => 0x37,
        53 => 0x38,
        54 => 0xE5,
        55 => 0x55,
        56 => 0xE2,
        57 => 0x2C,
        58 => 0x39,
        59 => 0x3A,
        60 => 0x3B,
        61 => 0x3C,
        62 => 0x3D,
        63 => 0x3E,
        64 => 0x3F,
        65 => 0x40,
        66 => 0x41,
        67 => 0x42,
        68 => 0x43,
        69 => 0x53,
        70 => 0x47,
        71 => 0x5F,
        72 => 0x60,
        73 => 0x61,
        74 => 0x56,
        75 => 0x5C,
        76 => 0x5D,
        77 => 0x5E,
        78 => 0x57,
        79 => 0x59,
        80 => 0x5A,
        81 => 0x5B,
        82 => 0x62,
        83 => 0x63,
        86 => 0x64,
        87 => 0x44,
        88 => 0x45,
        89 => 0x87,
        96 => 0x58,
        97 => 0xE4,
        98 => 0x54,
        99 => 0x46,
        100 => 0xE6,
        102 => 0x4A,
        103 => 0x52,
        104 => 0x4B,
        105 => 0x50,
        106 => 0x4F,
        107 => 0x4D,
        108 => 0x51,
        109 => 0x4E,
        110 => 0x49,
        111 => 0x4C,
        113 => 0x7F,
        114 => 0x81,
        115 => 0x80,
        116 => 0x66,
        117 => 0x67,
        119 => 0x48,
        121 => 0x85,
        124 => 0x89,
        125 => 0xE3,
        126 => 0xE7,
        127 => 0x65,
        _ => 0x00,
    }
}

/// The bit that an evdev modifier key occupies in the HID modifier byte.
pub open spec fn modifier_bit(code: u32) -> Option<u8> {
    match code {
        29 => Some(0x01u8),
        42 => Some(0x02u8),
        56 => Some(0x04u8),
        125 => Some(0x08u8),
        97 => Some(0x10u8),
        54 => Some(0x20u8),
        100 => Some(0x40u8),
        126 => Some(0x80u8),
        _ => None,
    }
}

/// Translates an evdev key code into its USB HID usage; 0 means "no usage".
pub fn evdev_to_hid(evdev: u32) -> (r: u8)
    ensures
        r == hid_usage(evdev),
{
    match evdev {
        1 => 0x29,
        2 => 0x1E,
        3 => 0x1F,
        4 => 0x20,
        5 => 0x21,
        6 => 0x22,
        7 => 0x23,
        8 => 0x24,
        9 => 0x25,
        10 => 0x26,
        11 => 0x27,
        12 => 0x2D,
        13 => 0x2E,
        14 => 0x2A,
        15 => 0x2B,
        16 => 0x14,
        17 => 0x1A,
        18 => 0x08,
        19 => 0x15,
        20 => 0x17,
        21 => 0x1C,
        22 => 0x18,
        23 => 0x0C,
        24 => 0x12,
        25 => 0x13,
        26 => 0x2F,
        27 => 0x30,
        28 => 0x28,
        29 => 0xE0,
        30 => 0x04,
        31 => 0x16,
        32 => 0x07,
        33 => 0x09,
        34 => 0x0A,
        35 => 0x0B,
        36 => 0x0D,
        37 => 0x0E,
        38 => 0x0F,
        39 => 0x33,
        40 => 0x34,
        41 => 0x35,
        42 => 0xE1,
        43 => 0x31,
        44 => 0x1D,
        45 => 0x1B,
        46 => 0x06,
        47 => 0x19,
        48 => 0x05,
        49 => 0x11,
        50 => 0x10,
        51 => 0x36,
        52 => 0x37,
        53 => 0x38,
        54 => 0xE5,
        55 => 0x55,
        56 => 0xE2,
        57 => 0x2C,
        58 => 0x39,
        59 => 0x3A,
        60 => 0x3B,
        61 => 0x3C,
        62 => 0x3D,
        63 => 0x3E,
        64 => 0x3F,
        65 => 0x40,
        66 => 0x41,
        67 => 0x42,
        68 => 0x43,
        69 => 0x53,
        70 => 0x47,
        71 => 0x5F,
        72 => 0x60,
        73 => 0x61,
        74 => 0x56,
        75 => 0x5C,
        76 => 0x5D,
        77 => 0x5E,
        78 => 0x57,
        79 => 0x59,
        80 => 0x5A,
        81 => 0x5B,
        82 => 0x62,
        83 => 0x63,
        86 => 0x64,
        87 => 0x44,
        88 => 0x45,
        89 => 0x87,
        96 => 0x58,
        97 => 0xE4,
        98 => 0x54,
        99 => 0x46,
        100 => 0xE6,
        102 => 0x4A,
        103 => 0x52,
        104 => 0x4B,
        105 => 0x50,
        106 => 0x4F,
        107 => 0x4D,
        108 => 0x51,
        109 => 0x4E,
        110 => 0x49,
        111 => 0x4C,
        113 => 0x7F,
        114 => 0x81,
        115 => 0x80,
        116 => 0x66,
        117 => 0x67,
        119 => 0x48,
        121 => 0x85,
        124 => 0x89,
        125 => 0xE3,
        126 => 0xE7,
        127 => 0x65,
        _ => 0x00,
    }
}

/// The modifier bit of an evdev modifier key, or `None` for every other code.
pub fn is_modifier(evdev: u32) -> (r: Option<u8>)
    ensures
        r == modifier_bit(evdev),
{
    match evdev {
        29 => Some(0x01),
        42 => Some(0x02),
        56 => Some(0x04),
        125 => Some(0x08),
        97 => Some(0x10),
        54 => Some(0x20),
        100 => Some(0x40),
        126 => Some(0x80),
        _ => None,
    }
}

} // verus!
