//! Linux input-event key codes (`linux/input-event-codes.h`, as evdev's
//! `KeyCode` carries them) and the translation of recorded macOS chords.
use vstd::prelude::*;
use crate::action::{Chord, KeyCombo, translate_chord};

verus! {

pub const KEY_ESC: u16 = 1;
pub const KEY_TAB: u16 = 15;
pub const KEY_W: u16 = 17;
pub const KEY_R: u16 = 19;
pub const KEY_T: u16 = 20;
pub const KEY_LEFTCTRL: u16 = 29;
pub const KEY_A: u16 = 30;
pub const KEY_S: u16 = 31;
pub const KEY_F: u16 = 33;
pub const KEY_L: u16 = 38;
pub const KEY_LEFTSHIFT: u16 = 42;
pub const KEY_Z: u16 = 44;
pub const KEY_X: u16 = 45;
pub const KEY_C: u16 = 46;
pub const KEY_V: u16 = 47;
pub const KEY_LEFTALT: u16 = 56;
pub const KEY_SYSRQ: u16 = 99;
pub const KEY_LEFT: u16 = 105;
pub const KEY_RIGHT: u16 = 106;
pub const KEY_MUTE: u16 = 113;
pub const KEY_VOLUMEDOWN: u16 = 114;
pub const KEY_VOLUMEUP: u16 = 115;
pub const KEY_LEFTMETA: u16 = 125;
pub const BTN_LEFT: u16 = 0x110;
pub const BTN_RIGHT: u16 = 0x111;
pub const BTN_MIDDLE: u16 = 0x112;
pub const BTN_SIDE: u16 = 0x113;
pub const BTN_EXTRA: u16 = 0x114;
/// Relative axis of the horizontal wheel.
pub const REL_HWHEEL: u16 = 0x06;
/// Relative axis of the vertical wheel.
pub const REL_WHEEL: u16 = 0x08;

/// The Linux key code for a macOS `kVK_*` code, or `None` where the key has no
/// entry (modifiers, the numeric keypad, media keys, gaps in the kVK table).
pub open spec fn linux_key_of(key_code: u16) -> Option<u16> {
    match key_code {
        0x00u16 => Some(30u16),  // KEY_A
        0x0B => Some(48),  // KEY_B
        0x08 => Some(46),  // KEY_C
        0x02 => Some(32),  // KEY_D
        0x0E => Some(18),  // KEY_E
        0x03 => Some(33),  // KEY_F
        0x05 => Some(34),  // KEY_G
        0x04 => Some(35),  // KEY_H
        0x22 => Some(23),  // KEY_I
        0x26 => Some(36),  // KEY_J
        0x28 => Some(37),  // KEY_K
        0x25 => Some(38),  // KEY_L
        0x2E => Some(50),  // KEY_M
        0x2D => Some(49),  // KEY_N
        0x1F => Some(24),  // KEY_O
        0x23 => Some(25),  // KEY_P
        0x0C => Some(16),  // KEY_Q
        0x0F => Some(19),  // KEY_R
        0x01 => Some(31),  // KEY_S
        0x11 => Some(20),  // KEY_T
        0x20 => Some(22),  // KEY_U
        0x09 => Some(47),  // KEY_V
        0x0D => Some(17),  // KEY_W
        0x07 => Some(45),  // KEY_X
        0x10 => Some(21),  // KEY_Y
        0x06 => Some(44),  // KEY_Z
        0x1D => Some(11),  // KEY_0
        0x12 => Some(2),  // KEY_1
        0x13 => Some(3),  // KEY_2
        0x14 => Some(4),  // KEY_3
        0x15 => Some(5),  // KEY_4
        0x17 => Some(6),  // KEY_5
        0x16 => Some(7),  // KEY_6
        0x1A => Some(8),  // KEY_7
        0x1C => Some(9),  // KEY_8
        0x19 => Some(10),  // KEY_9
        0x1B => Some(12),  // KEY_MINUS
        0x18 => Some(13),  // KEY_EQUAL
        0x21 => Some(26),  // KEY_LEFTBRACE
        0x1E => Some(27),  // KEY_RIGHTBRACE
        0x2A => Some(43),  // KEY_BACKSLASH
        0x29 => Some(39),  // KEY_SEMICOLON
        0x27 => Some(40),  // KEY_APOSTROPHE
        0x2B => Some(51),  // KEY_COMMA
        0x2F => Some(52),  // KEY_DOT
        0x2C => Some(53),  // KEY_SLASH
        0x32 => Some(41),  // KEY_GRAVE
        0x24 => Some(28),  // KEY_ENTER
        0x30 => Some(15),  // KEY_TAB
        0x31 => Some(57),  // KEY_SPACE
        0x33 => Some(14),  // KEY_BACKSPACE
        0x35 => Some(1),  // KEY_ESC
        0x73 => Some(102),  // KEY_HOME
        0x77 => Some(107),  // KEY_END
        0x74 => Some(104),  // KEY_PAGEUP
        0x79 => Some(109),  // KEY_PAGEDOWN
        0x75 => Some(111),  // KEY_DELETE
        0x7B => Some(105),  // KEY_LEFT
        0x7C => Some(106),  // KEY_RIGHT
        0x7D => Some(108),  // KEY_DOWN
        0x7E => Some(103),  // KEY_UP
        0x7A => Some(59),  // KEY_F1
        0x78 => Some(60),  // KEY_F2
        0x63 => Some(61),  // KEY_F3
        0x76 => Some(62),  // KEY_F4
        0x60 => Some(63),  // KEY_F5
        0x61 => Some(64),  // KEY_F6
        0x62 => Some(65),  // KEY_F7
        0x64 => Some(66),  // KEY_F8
        0x65 => Some(67),  // KEY_F9
        0x6D => Some(68),  // KEY_F10
        0x67 => Some(87),  // KEY_F11
        0x6F => Some(88),  // KEY_F12
        0x69 => Some(183),  // KEY_F13
        0x6B => Some(184),  // KEY_F14
        0x71 => Some(185),  // KEY_F15
        0x6A => Some(186),  // KEY_F16
        0x40 => Some(187),  // KEY_F17
        0x4F => Some(188),  // KEY_F18
        0x50 => Some(189),  // KEY_F19
        0x5A => Some(190),  // KEY_F20
        _ => None,
    }
}

/// Translate a macOS virtual key code (`kVK_*`) to the Linux key code of the
/// same key on a US ANSI layout: letters, digits, ANSI punctuation,
/// whitespace/editing keys, navigation and F1–F20. `None` for every other
/// code.
pub fn macos_vk_to_linux(key_code: u16) -> (r: Option<u16>)
    ensures
        r == linux_key_of(key_code),
{
    let code: u16 = match key_code {
        0x00 => 30,  // KEY_A
        0x0B => 48,  // KEY_B
        0x08 => 46,  // KEY_C
        0x02 => 32,  // KEY_D
        0x0E => 18,  // KEY_E
        0x03 => 33,  // KEY_F
        0x05 => 34,  // KEY_G
        0x04 => 35,  // KEY_H
        0x22 => 23,  // KEY_I
        0x26 => 36,  // KEY_J
        0x28 => 37,  // KEY_K
        0x25 => 38,  // KEY_L
        0x2E => 50,  // KEY_M
        0x2D => 49,  // KEY_N
        0x1F => 24,  // KEY_O
        0x23 => 25,  // KEY_P
        0x0C => 16,  // KEY_Q
        0x0F => 19,  // KEY_R
        0x01 => 31,  // KEY_S
        0x11 => 20,  // KEY_T
        0x20 => 22,  // KEY_U
        0x09 => 47,  // KEY_V
        0x0D => 17,  // KEY_W
        0x07 => 45,  // KEY_X
        0x10 => 21,  // KEY_Y
        0x06 => 44,  // KEY_Z
        0x1D => 11,  // KEY_0
        0x12 => 2,  // KEY_1
        0x13 => 3,  // KEY_2
        0x14 => 4,  // KEY_3
        0x15 => 5,  // KEY_4
        0x17 => 6,  // KEY_5
        0x16 => 7,  // KEY_6
        0x1A => 8,  // KEY_7
        0x1C => 9,  // KEY_8
        0x19 => 10,  // KEY_9
        0x1B => 12,  // KEY_MINUS
        0x18 => 13,  // KEY_EQUAL
        0x21 => 26,  // KEY_LEFTBRACE
        0x1E => 27,  // KEY_RIGHTBRACE
        0x2A => 43,  // KEY_BACKSLASH
        0x29 => 39,  // KEY_SEMICOLON
        0x27 => 40,  // KEY_APOSTROPHE
        0x2B => 51,  // KEY_COMMA
        0x2F => 52,  // KEY_DOT
        0x2C => 53,  // KEY_SLASH
        0x32 => 41,  // KEY_GRAVE
        0x24 => 28,  // KEY_ENTER
        0x30 => 15,  // KEY_TAB
        0x31 => 57,  // KEY_SPACE
        0x33 => 14,  // KEY_BACKSPACE
        0x35 => 1,  // KEY_ESC
        0x73 => 102,  // KEY_HOME
        0x77 => 107,  // KEY_END
        0x74 => 104,  // KEY_PAGEUP
        0x79 => 109,  // KEY_PAGEDOWN
        0x75 => 111,  // KEY_DELETE
        0x7B => 105,  // KEY_LEFT
        0x7C => 106,  // KEY_RIGHT
        0x7D => 108,  // KEY_DOWN
        0x7E => 103,  // KEY_UP
        0x7A => 59,  // KEY_F1
        0x78 => 60,  // KEY_F2
        0x63 => 61,  // KEY_F3
        0x76 => 62,  // KEY_F4
        0x60 => 63,  // KEY_F5
        0x61 => 64,  // KEY_F6
        0x62 => 65,  // KEY_F7
        0x64 => 66,  // KEY_F8
        0x65 => 67,  // KEY_F9
        0x6D => 68,  // KEY_F10
        0x67 => 87,  // KEY_F11
        0x6F => 88,  // KEY_F12
        0x69 => 183,  // KEY_F13
        0x6B => 184,  // KEY_F14
        0x71 => 185,  // KEY_F15
        0x6A => 186,  // KEY_F16
        0x40 => 187,  // KEY_F17
        0x4F => 188,  // KEY_F18
        0x50 => 189,  // KEY_F19
        0x5A => 190,  // KEY_F20
        _ => {
            return None;
        },
    };
    Some(code)
}

/// `seq![key]` when `present`, the empty sequence otherwise.
pub open spec fn key_if(present: bool, key: u16) -> Seq<u16> {
    if present {
        seq![key]
    } else {
        Seq::empty()
    }
}

/// The modifier keys of a chord in the order they are pressed on Linux:
/// Control, Shift, Alt, Super.
pub open spec fn linux_modifier_keys(chord: Chord) -> Seq<u16> {
    key_if(chord.ctrl, KEY_LEFTCTRL) + key_if(chord.shift, KEY_LEFTSHIFT) + key_if(
        chord.alt,
        KEY_LEFTALT,
    ) + key_if(chord.meta, KEY_LEFTMETA)
}

/// The modifier keys to hold down for a chord, in the order they are pressed.
pub fn chord_modifier_keys(chord: &Chord) -> (r: Vec<u16>)
    ensures
        r@ == linux_modifier_keys(*chord),
{
    let mut keys: Vec<u16> = Vec::new();
    if chord.ctrl {
        keys.push(KEY_LEFTCTRL);
    }
    if chord.shift {
        keys.push(KEY_LEFTSHIFT);
    }
    if chord.alt {
        keys.push(KEY_LEFTALT);
    }
    if chord.meta {
        keys.push(KEY_LEFTMETA);
    }
    proof {
        assert(keys@ =~= linux_modifier_keys(*chord));
    }
    keys
}

/// The Linux modifier keys for a recorded macOS modifier mask: Command and
/// Control both give a single left Control, Shift gives left Shift, Option
/// gives left Alt, always in that order.
pub fn modifiers_to_keycodes(modifiers: u8) -> (r: Vec<u16>)
    ensures
        r@ == key_if(modifiers & 0x01u8 != 0 || modifiers & 0x08u8 != 0, KEY_LEFTCTRL) + key_if(
            modifiers & 0x02u8 != 0,
            KEY_LEFTSHIFT,
        ) + key_if(modifiers & 0x04u8 != 0, KEY_LEFTALT),
{
    let chord = translate_chord(KeyCombo { key_code: 0, modifiers }, 0);
    let r = chord_modifier_keys(&chord);
    proof {
        assert(key_if(chord.meta, KEY_LEFTMETA) =~= Seq::<u16>::empty());
        assert(r@ =~= key_if(modifiers & 0x01u8 != 0 || modifiers & 0x08u8 != 0, KEY_LEFTCTRL)
            + key_if(modifiers & 0x02u8 != 0, KEY_LEFTSHIFT) + key_if(
            modifiers & 0x04u8 != 0,
            KEY_LEFTALT,
        ));
    }
    r
}

/// The macOS key that translates to a given Linux key: the table read
/// backwards.
spec fn mac_key_for_linux_key(code: u16) -> Option<u16> {
    match code {
        30u16 => Some(0x00u16),
        48 => Some(0x0B),
        46 => Some(0x08),
        32 => Some(0x02),
        18 => Some(0x0E),
        33 => Some(0x03),
        34 => Some(0x05),
        35 => Some(0x04),
        23 => Some(0x22),
        36 => Some(0x26),
        37 => Some(0x28),
        38 => Some(0x25),
        50 => Some(0x2E),
        49 => Some(0x2D),
        24 => Some(0x1F),
        25 => Some(0x23),
        16 => Some(0x0C),
        19 => Some(0x0F),
        31 => Some(0x01),
        20 => Some(0x11),
        22 => Some(0x20),
        47 => Some(0x09),
        17 => Some(0x0D),
        45 => Some(0x07),
        21 => Some(0x10),
        44 => Some(0x06),
        11 => Some(0x1D),
        2 => Some(0x12),
        3 => Some(0x13),
        4 => Some(0x14),
        5 => Some(0x15),
        6 => Some(0x17),
        7 => Some(0x16),
        8 => Some(0x1A),
        9 => Some(0x1C),
        10 => Some(0x19),
        12 => Some(0x1B),
        13 => Some(0x18),
        26 => Some(0x21),
        27 => Some(0x1E),
        43 => Some(0x2A),
        39 => Some(0x29),
        40 => Some(0x27),
        51 => Some(0x2B),
        52 => Some(0x2F),
        53 => Some(0x2C),
        41 => Some(0x32),
        28 => Some(0x24),
        15 => Some(0x30),
        57 => Some(0x31),
        14 => Some(0x33),
        1 => Some(0x35),
        102 => Some(0x73),
        107 => Some(0x77),
        104 => Some(0x74),
        109 => Some(0x79),
        111 => Some(0x75),
        105 => Some(0x7B),
        106 => Some(0x7C),
        108 => Some(0x7D),
        103 => Some(0x7E),
        59 => Some(0x7A),
        60 => Some(0x78),
        61 => Some(0x63),
        62 => Some(0x76),
        63 => Some(0x60),
        64 => Some(0x61),
        65 => Some(0x62),
        66 => Some(0x64),
        67 => Some(0x65),
        68 => Some(0x6D),
        87 => Some(0x67),
        88 => Some(0x6F),
        183 => Some(0x69),
        184 => Some(0x6B),
        185 => Some(0x71),
        186 => Some(0x6A),
        187 => Some(0x40),
        188 => Some(0x4F),
        189 => Some(0x50),
        190 => Some(0x5A),
        _ => None,
    }
}

proof fn lemma_linux_table_inverts(key_code: u16)
    ensures
        linux_key_of(key_code) matches Some(code) ==> mac_key_for_linux_key(code) == Some(key_code),
{
}

/// Two macOS keys that translate at all never translate to the same Linux key.
pub proof fn lemma_linux_translation_injective(a: u16, b: u16)
    requires
        linux_key_of(a) is Some,
        linux_key_of(a) == linux_key_of(b),
    ensures
        a == b,
{
    lemma_linux_table_inverts(a);
    lemma_linux_table_inverts(b);
}

/// Modifier keys, keypad keys and media keys have no Linux translation.
pub proof fn lemma_linux_translation_skips_excluded_keys(key_code: u16)
    requires
        crate::mac_keys::is_excluded_key(key_code),
    ensures
        linux_key_of(key_code) is None,
{
}

} // verus!

verus! {

/// The Linux key code of the key a Win32 virtual-key code names, for the keys
/// a recorded shortcut can carry: letters, digits, OEM punctuation,
/// whitespace/editing, navigation and F1–F20 (`VK_A` is `KEY_A`, `VK_OEM_4`
/// is `KEY_LEFTBRACE`, `VK_F13` is `KEY_F13`, ...).
pub open spec fn linux_key_for_windows_vk(vk: u16) -> Option<u16> {
    match vk {
        0x08u16 => Some(14u16),  // KEY_BACKSPACE
        0x09 => Some(15),  // KEY_TAB
        0x0D => Some(28),  // KEY_ENTER
        0x1B => Some(1),  // KEY_ESC
        0x20 => Some(57),  // KEY_SPACE
        0x21 => Some(104),  // KEY_PAGEUP
        0x22 => Some(109),  // KEY_PAGEDOWN
        0x23 => Some(107),  // KEY_END
        0x24 => Some(102),  // KEY_HOME
        0x25 => Some(105),  // KEY_LEFT
        0x26 => Some(103),  // KEY_UP
        0x27 => Some(106),  // KEY_RIGHT
        0x28 => Some(108),  // KEY_DOWN
        0x2E => Some(111),  // KEY_DELETE
        0x30 => Some(11),  // KEY_0
        0x31 => Some(2),  // KEY_1
        0x32 => Some(3),  // KEY_2
        0x33 => Some(4),  // KEY_3
        0x34 => Some(5),  // KEY_4
        0x35 => Some(6),  // KEY_5
        0x36 => Some(7),  // KEY_6
        0x37 => Some(8),  // KEY_7
        0x38 => Some(9),  // KEY_8
        0x39 => Some(10),  // KEY_9
        0x41 => Some(30),  // KEY_A
        0x42 => Some(48),  // KEY_B
        0x43 => Some(46),  // KEY_C
        0x44 => Some(32),  // KEY_D
        0x45 => Some(18),  // KEY_E
        0x46 => Some(33),  // KEY_F
        0x47 => Some(34),  // KEY_G
        0x48 => Some(35),  // KEY_H
        0x49 => Some(23),  // KEY_I
        0x4A => Some(36),  // KEY_J
        0x4B => Some(37),  // KEY_K
        0x4C => Some(38),  // KEY_L
        0x4D => Some(50),  // KEY_M
        0x4E => Some(49),  // KEY_N
        0x4F => Some(24),  // KEY_O
        0x50 => Some(25),  // KEY_P
        0x51 => Some(16),  // KEY_Q
        0x52 => Some(19),  // KEY_R
        0x53 => Some(31),  // KEY_S
        0x54 => Some(20),  // KEY_T
        0x55 => Some(22),  // KEY_U
        0x56 => Some(47),  // KEY_V
        0x57 => Some(17),  // KEY_W
        0x58 => Some(45),  // KEY_X
        0x59 => Some(21),  // KEY_Y
        0x5A => Some(44),  // KEY_Z
        0x70 => Some(59),  // KEY_F1
        0x71 => Some(60),  // KEY_F2
        0x72 => Some(61),  // KEY_F3
        0x73 => Some(62),  // KEY_F4
        0x74 => Some(63),  // KEY_F5
        0x75 => Some(64),  // KEY_F6
        0x76 => Some(65),  // KEY_F7
        0x77 => Some(66),  // KEY_F8
        0x78 => Some(67),  // KEY_F9
        0x79 => Some(68),  // KEY_F10
        0x7A => Some(87),  // KEY_F11
        0x7B => Some(88),  // KEY_F12
        0x7C => Some(183),  // KEY_F13
        0x7D => Some(184),  // KEY_F14
        0x7E => Some(185),  // KEY_F15
        0x7F => Some(186),  // KEY_F16
        0x80 => Some(187),  // KEY_F17
        0x81 => Some(188),  // KEY_F18
        0x82 => Some(189),  // KEY_F19
        0x83 => Some(190),  // KEY_F20
        0xBA => Some(39),  // KEY_SEMICOLON
        0xBB => Some(13),  // KEY_EQUAL
        0xBC => Some(51),  // KEY_COMMA
        0xBD => Some(12),  // KEY_MINUS
        0xBE => Some(52),  // KEY_DOT
        0xBF => Some(53),  // KEY_SLASH
        0xC0 => Some(41),  // KEY_GRAVE
        0xDB => Some(26),  // KEY_LEFTBRACE
        0xDC => Some(43),  // KEY_BACKSLASH
        0xDD => Some(27),  // KEY_RIGHTBRACE
        0xDE => Some(40),  // KEY_APOSTROPHE
        _ => None,
    }
}

/// The Linux and Windows tables translate exactly the same macOS keys, and
/// to the same key: every recorded key that fires on Windows fires on Linux
/// too (every letter, digit, punctuation, editing, navigation and function
/// key), as the Linux key of the same name as its Windows translation.
pub proof fn lemma_linux_and_windows_tables_agree(key_code: u16)
    ensures
        linux_key_of(key_code) == (match crate::windows_keys::windows_vk_of(key_code) {
            Some(vk) => linux_key_for_windows_vk(vk),
            None => None,
        }),
        linux_key_of(key_code) is Some <==> crate::windows_keys::windows_vk_of(key_code) is Some,
{
}

} // verus!
