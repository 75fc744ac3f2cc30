//! Translation of macOS virtual key codes (`kVK_*`) to Win32 virtual-key codes.
use vstd::prelude::*;

verus! {

/// The Win32 virtual-key code for a macOS `kVK_*` code, or `None` where the
/// key has no entry (modifiers, the numeric keypad, media keys, gaps).
pub open spec fn windows_vk_of(key_code: u16) -> Option<u16> {
    match key_code {
        0x00u16 => Some(0x41u16),
        0x0B => Some(0x42),
        0x08 => Some(0x43),
        0x02 => Some(0x44),
        0x0E => Some(0x45),
        0x03 => Some(0x46),
        0x05 => Some(0x47),
        0x04 => Some(0x48),
        0x22 => Some(0x49),
        0x26 => Some(0x4A),
        0x28 => Some(0x4B),
        0x25 => Some(0x4C),
        0x2E => Some(0x4D),
        0x2D => Some(0x4E),
        0x1F => Some(0x4F),
        0x23 => Some(0x50),
        0x0C => Some(0x51),
        0x0F => Some(0x52),
        0x01 => Some(0x53),
        0x11 => Some(0x54),
        0x20 => Some(0x55),
        0x09 => Some(0x56),
        0x0D => Some(0x57),
        0x07 => Some(0x58),
        0x10 => Some(0x59),
        0x06 => Some(0x5A),
        0x1D => Some(0x30),
        0x12 => Some(0x31),
        0x13 => Some(0x32),
        0x14 => Some(0x33),
        0x15 => Some(0x34),
        0x17 => Some(0x35),
        0x16 => Some(0x36),
        0x1A => Some(0x37),
        0x1C => Some(0x38),
        0x19 => Some(0x39),
        0x1B => Some(0xBD),
        0x18 => Some(0xBB),
        0x21 => Some(0xDB),
        0x1E => Some(0xDD),
        0x2A => Some(0xDC),
        0x29 => Some(0xBA),
        0x27 => Some(0xDE),
        0x2B => Some(0xBC),
        0x2F => Some(0xBE),
        0x2C => Some(0xBF),
        0x32 => Some(0xC0),
        0x24 => Some(0x0D),
        0x30 => Some(0x09),
        0x31 => Some(0x20),
        0x33 => Some(0x08),
        0x35 => Some(0x1B),
        0x73 => Some(0x24),
        0x77 => Some(0x23),
        0x74 => Some(0x21),
        0x79 => Some(0x22),
        0x75 => Some(0x2E),
        0x7B => Some(0x25),
        0x7C => Some(0x27),
        0x7D => Some(0x28),
        0x7E => Some(0x26),
        0x7A => Some(0x70),
        0x78 => Some(0x71),
        0x63 => Some(0x72),
        0x76 => Some(0x73),
        0x60 => Some(0x74),
        0x61 => Some(0x75),
        0x62 => Some(0x76),
        0x64 => Some(0x77),
        0x65 => Some(0x78),
        0x6D => Some(0x79),
        0x67 => Some(0x7A),
        0x6F => Some(0x7B),
        0x69 => Some(0x7C),
        0x6B => Some(0x7D),
        0x71 => Some(0x7E),
        0x6A => Some(0x7F),
        0x40 => Some(0x80),
        0x4F => Some(0x81),
        0x50 => Some(0x82),
        0x5A => Some(0x83),
        _ => None,
    }
}

/// Translate a macOS virtual key code (`kVK_*`, captured when a shortcut was
/// recorded on a Mac) to the equivalent Windows virtual-key code.
///
/// Letters and digits become their ASCII codes, the ANSI punctuation keys the
/// `VK_OEM_*` codes, and F1–F20 the sequential `VK_F1 = 0x70` range;
/// whitespace/editing and navigation keys map to their `VK_*` names.
/// Modifier keys, the numeric keypad and the media/volume keys give `None`.
pub fn mac_virtual_key_to_windows(key_code: u16) -> (r: Option<u16>)
    ensures
        r == windows_vk_of(key_code),
{
    let vk: u16 = match key_code {
        // Letters (Windows VK_A..VK_Z = ASCII 'A'..'Z')
        0x00 => 0x41,
        0x0B => 0x42,
        0x08 => 0x43,
        0x02 => 0x44,
        0x0E => 0x45,
        0x03 => 0x46,
        0x05 => 0x47,
        0x04 => 0x48,
        0x22 => 0x49,
        0x26 => 0x4A,
        0x28 => 0x4B,
        0x25 => 0x4C,
        0x2E => 0x4D,
        0x2D => 0x4E,
        0x1F => 0x4F,
        0x23 => 0x50,
        0x0C => 0x51,
        0x0F => 0x52,
        0x01 => 0x53,
        0x11 => 0x54,
        0x20 => 0x55,
        0x09 => 0x56,
        0x0D => 0x57,
        0x07 => 0x58,
        0x10 => 0x59,
        0x06 => 0x5A,
        // Digits (Windows VK_0..VK_9 = ASCII '0'..'9')
        0x1D => 0x30,
        0x12 => 0x31,
        0x13 => 0x32,
        0x14 => 0x33,
        0x15 => 0x34,
        0x17 => 0x35,
        0x16 => 0x36,
        0x1A => 0x37,
        0x1C => 0x38,
        0x19 => 0x39,
        // ANSI punctuation (VK_OEM_*)
        0x1B => 0xBD,
        0x18 => 0xBB,
        0x21 => 0xDB,
        0x1E => 0xDD,
        0x2A => 0xDC,
        0x29 => 0xBA,
        0x27 => 0xDE,
        0x2B => 0xBC,
        0x2F => 0xBE,
        0x2C => 0xBF,
        0x32 => 0xC0,
        // Whitespace / editing
        0x24 => 0x0D,
        0x30 => 0x09,
        0x31 => 0x20,
        0x33 => 0x08,
        0x35 => 0x1B,
        // Navigation
        0x73 => 0x24,
        0x77 => 0x23,
        0x74 => 0x21,
        0x79 => 0x22,
        0x75 => 0x2E,
        0x7B => 0x25,
        0x7C => 0x27,
        0x7D => 0x28,
        0x7E => 0x26,
        // Function keys (VK_F1 = 0x70, sequential)
        0x7A => 0x70,
        0x78 => 0x71,
        0x63 => 0x72,
        0x76 => 0x73,
        0x60 => 0x74,
        0x61 => 0x75,
        0x62 => 0x76,
        0x64 => 0x77,
        0x65 => 0x78,
        0x6D => 0x79,
        0x67 => 0x7A,
        0x6F => 0x7B,
        0x69 => 0x7C,
        0x6B => 0x7D,
        0x71 => 0x7E,
        0x6A => 0x7F,
        0x40 => 0x80,
        0x4F => 0x81,
        0x50 => 0x82,
        0x5A => 0x83,
        _ => {
            return None;
        },
    };
    Some(vk)
}

} // verus!

verus! {

/// The macOS key that translates to a given Windows key: the table above read
/// backwards.
spec fn mac_key_for_windows_vk(vk: u16) -> Option<u16> {
    match vk {
        0x41u16 => Some(0x00u16),
        0x42 => Some(0x0B),
        0x43 => Some(0x08),
        0x44 => Some(0x02),
        0x45 => Some(0x0E),
        0x46 => Some(0x03),
        0x47 => Some(0x05),
        0x48 => Some(0x04),
        0x49 => Some(0x22),
        0x4A => Some(0x26),
        0x4B => Some(0x28),
        0x4C => Some(0x25),
        0x4D => Some(0x2E),
        0x4E => Some(0x2D),
        0x4F => Some(0x1F),
        0x50 => Some(0x23),
        0x51 => Some(0x0C),
        0x52 => Some(0x0F),
        0x53 => Some(0x01),
        0x54 => Some(0x11),
        0x55 => Some(0x20),
        0x56 => Some(0x09),
        0x57 => Some(0x0D),
        0x58 => Some(0x07),
        0x59 => Some(0x10),
        0x5A => Some(0x06),
        0x30 => Some(0x1D),
        0x31 => Some(0x12),
        0x32 => Some(0x13),
        0x33 => Some(0x14),
        0x34 => Some(0x15),
        0x35 => Some(0x17),
        0x36 => Some(0x16),
        0x37 => Some(0x1A),
        0x38 => Some(0x1C),
        0x39 => Some(0x19),
        0xBD => Some(0x1B),
        0xBB => Some(0x18),
        0xDB => Some(0x21),
        0xDD => Some(0x1E),
        0xDC => Some(0x2A),
        0xBA => Some(0x29),
        0xDE => Some(0x27),
        0xBC => Some(0x2B),
        0xBE => Some(0x2F),
        0xBF => Some(0x2C),
        0xC0 => Some(0x32),
        0x0D => Some(0x24),
        0x09 => Some(0x30),
        0x20 => Some(0x31),
        0x08 => Some(0x33),
        0x1B => Some(0x35),
        0x24 => Some(0x73),
        0x23 => Some(0x77),
        0x21 => Some(0x74),
        0x22 => Some(0x79),
        0x2E => Some(0x75),
        0x25 => Some(0x7B),
        0x27 => Some(0x7C),
        0x28 => Some(0x7D),
        0x26 => Some(0x7E),
        0x70 => Some(0x7A),
        0x71 => Some(0x78),
        0x72 => Some(0x63),
        0x73 => Some(0x76),
        0x74 => Some(0x60),
        0x75 => Some(0x61),
        0x76 => Some(0x62),
        0x77 => Some(0x64),
        0x78 => Some(0x65),
        0x79 => Some(0x6D),
        0x7A => Some(0x67),
        0x7B => Some(0x6F),
        0x7C => Some(0x69),
        0x7D => Some(0x6B),
        0x7E => Some(0x71),
        0x7F => Some(0x6A),
        0x80 => Some(0x40),
        0x81 => Some(0x4F),
        0x82 => Some(0x50),
        0x83 => Some(0x5A),
        _ => None,
    }
}

proof fn lemma_windows_table_inverts(key_code: u16)
    ensures
        windows_vk_of(key_code) matches Some(vk) ==> mac_key_for_windows_vk(vk) == Some(key_code),
{
}

proof fn lemma_windows_table_reverse_inverts(vk: u16)
    ensures
        mac_key_for_windows_vk(vk) matches Some(k) ==> windows_vk_of(k) == Some(vk),
{
}

/// Two macOS keys that translate at all never translate to the same Windows
/// key: the table loses no distinction between recorded keys.
pub proof fn lemma_windows_translation_injective(a: u16, b: u16)
    requires
        windows_vk_of(a) is Some,
        windows_vk_of(a) == windows_vk_of(b),
    ensures
        a == b,
{
    lemma_windows_table_inverts(a);
    lemma_windows_table_inverts(b);
}

/// Every Windows digit key (`VK_0..VK_9`), letter key (`VK_A..VK_Z`) and
/// function key F1–F20 (`0x70..=0x83`) is the translation of some macOS key.
pub proof fn lemma_windows_translation_covers_alphanumerics_and_f_keys(vk: u16)
    requires
        0x30 <= vk <= 0x39 || 0x41 <= vk <= 0x5A || 0x70 <= vk <= 0x83,
    ensures
        exists|key_code: u16| windows_vk_of(key_code) == Some(vk),
{
    lemma_windows_table_reverse_inverts(vk);
    let k = mac_key_for_windows_vk(vk)->0;
    assert(windows_vk_of(k) == Some(vk));
}

/// Modifier keys, keypad keys and media keys have no Windows translation.
pub proof fn lemma_windows_translation_skips_excluded_keys(key_code: u16)
    requires
        crate::mac_keys::is_excluded_key(key_code),
    ensures
        windows_vk_of(key_code) is None,
{
}

} // verus!
