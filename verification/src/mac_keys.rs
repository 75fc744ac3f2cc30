//! Classes of macOS virtual key codes (`kVK_*` in `<HIToolbox/Events.h>`)
//! that the shortcut tables deliberately leave out.
use vstd::prelude::*;

verus! {

/// The modifier keys: right Command (0x36), Command, Shift, Caps Lock,
/// Option, Control, right Shift, right Option, right Control, Fn (0x3F).
/// A shortcut carries these in its modifier bits, never as its key.
pub open spec fn is_modifier_key(key_code: u16) -> bool {
    0x36 <= key_code <= 0x3F
}

/// The numeric keypad: decimal, multiply, plus, clear, divide, enter, minus,
/// equals and the digits 0–9.
pub open spec fn is_keypad_key(key_code: u16) -> bool {
    ||| key_code == 0x41
    ||| key_code == 0x43
    ||| key_code == 0x45
    ||| key_code == 0x47
    ||| key_code == 0x4B
    ||| key_code == 0x4C
    ||| key_code == 0x4E
    ||| 0x51 <= key_code <= 0x59
    ||| key_code == 0x5B
    ||| key_code == 0x5C
}

/// The volume keys: volume up (0x48), volume down (0x49), mute (0x4A).
pub open spec fn is_media_key(key_code: u16) -> bool {
    0x48 <= key_code <= 0x4A
}

/// A key the shortcut tables leave out on purpose: a modifier, a keypad key
/// or a media key (those have dedicated actions).
pub open spec fn is_excluded_key(key_code: u16) -> bool {
    is_modifier_key(key_code) || is_keypad_key(key_code) || is_media_key(key_code)
}

} // verus!
