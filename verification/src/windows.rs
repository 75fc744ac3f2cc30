//! What each action becomes on Windows, where events are synthesised with
//! `SendInput`.
use vstd::prelude::*;
use crate::action::{Action, Chord, KeyCombo, ScrollDirection, Skip, plain, translate_chord, translated_chord};
use crate::linux_keys::key_if;
use crate::windows_keys::{mac_virtual_key_to_windows, windows_vk_of};

verus! {

// Win32 virtual-key codes.
pub const VK_TAB: u16 = 0x09;
pub const VK_SHIFT: u16 = 0x10;
pub const VK_CONTROL: u16 = 0x11;
pub const VK_MENU: u16 = 0x12;
pub const VK_LEFT: u16 = 0x25;
pub const VK_RIGHT: u16 = 0x27;
pub const VK_A: u16 = 0x41;
pub const VK_C: u16 = 0x43;
pub const VK_D: u16 = 0x44;
pub const VK_F: u16 = 0x46;
pub const VK_L: u16 = 0x4C;
pub const VK_R: u16 = 0x52;
pub const VK_S: u16 = 0x53;
pub const VK_T: u16 = 0x54;
pub const VK_V: u16 = 0x56;
pub const VK_W: u16 = 0x57;
pub const VK_X: u16 = 0x58;
pub const VK_Y: u16 = 0x59;
pub const VK_Z: u16 = 0x5A;
pub const VK_LWIN: u16 = 0x5B;
pub const VK_BROWSER_BACK: u16 = 0xA6;
pub const VK_BROWSER_FORWARD: u16 = 0xA7;
pub const VK_VOLUME_MUTE: u16 = 0xAD;
pub const VK_VOLUME_DOWN: u16 = 0xAE;
pub const VK_VOLUME_UP: u16 = 0xAF;
pub const VK_MEDIA_NEXT_TRACK: u16 = 0xB0;
pub const VK_MEDIA_PREV_TRACK: u16 = 0xB1;
pub const VK_MEDIA_PLAY_PAUSE: u16 = 0xB3;

/// A mouse button synthesised as a click.
#[derive(Clone, Copy, Debug, PartialEq, Eq, Structural)]
pub enum WinButton {
    Left,
    Right,
    Middle,
    Back,
    Forward,
}

/// The event an action becomes on Windows.
#[derive(Clone, Copy, Debug, PartialEq, Eq, Structural)]
pub enum WindowsInput {
    Click(WinButton),
    /// Press a chord: its modifiers in order, then the key (a `VK_*` code).
    /// The chord's `meta` is the left Windows key.
    Key(Chord),
    Scroll(ScrollDirection),
    /// Drop the press and log why.
    Ignored(Skip),
    /// Do nothing at all.
    Nothing,
}

/// Control plus a key.
pub open spec fn ctrl(key: u16) -> Chord {
    Chord { ctrl: true, ..plain(key) }
}

/// The Windows key plus a key.
pub open spec fn win(key: u16) -> Chord {
    Chord { meta: true, ..plain(key) }
}

/// What a recorded custom shortcut becomes on Windows: nothing for the
/// placeholder key 0 or a key with no Windows code, else the translated key
/// with Command and Control as Control, Shift as Shift, Option as Alt.
pub open spec fn windows_shortcut_input(combo: KeyCombo) -> WindowsInput {
    if combo.key_code == 0 {
        WindowsInput::Ignored(Skip::EmptyShortcut)
    } else {
        match windows_vk_of(combo.key_code) {
            Some(vk) => WindowsInput::Key(translated_chord(combo, vk)),
            None => WindowsInput::Ignored(Skip::UnmappedKey),
        }
    }
}

/// The event each action becomes on Windows.
pub open spec fn windows_input_of(action: Action) -> WindowsInput {
    match action {
        Action::LeftClick => WindowsInput::Click(WinButton::Left),
        Action::RightClick => WindowsInput::Click(WinButton::Right),
        Action::MiddleClick => WindowsInput::Click(WinButton::Middle),
        Action::MouseBack => WindowsInput::Click(WinButton::Back),
        Action::MouseForward => WindowsInput::Click(WinButton::Forward),
        Action::Copy => WindowsInput::Key(ctrl(VK_C)),
        Action::Paste => WindowsInput::Key(ctrl(VK_V)),
        Action::Cut => WindowsInput::Key(ctrl(VK_X)),
        Action::Undo => WindowsInput::Key(ctrl(VK_Z)),
        Action::Redo => WindowsInput::Key(ctrl(VK_Y)),
        Action::SelectAll => WindowsInput::Key(ctrl(VK_A)),
        Action::Find => WindowsInput::Key(ctrl(VK_F)),
        Action::Save => WindowsInput::Key(ctrl(VK_S)),
        Action::BrowserBack => WindowsInput::Key(plain(VK_BROWSER_BACK)),
        Action::BrowserForward => WindowsInput::Key(plain(VK_BROWSER_FORWARD)),
        Action::NewTab => WindowsInput::Key(ctrl(VK_T)),
        Action::CloseTab => WindowsInput::Key(ctrl(VK_W)),
        Action::ReopenTab => WindowsInput::Key(Chord { shift: true, ..ctrl(VK_T) }),
        Action::NextTab => WindowsInput::Key(ctrl(VK_TAB)),
        Action::PrevTab => WindowsInput::Key(Chord { shift: true, ..ctrl(VK_TAB) }),
        Action::ReloadPage => WindowsInput::Key(ctrl(VK_R)),
        Action::MissionControl | Action::AppExpose => WindowsInput::Key(win(VK_TAB)),
        Action::PreviousDesktop => WindowsInput::Key(Chord { ctrl: true, ..win(VK_LEFT) }),
        Action::NextDesktop => WindowsInput::Key(Chord { ctrl: true, ..win(VK_RIGHT) }),
        Action::ShowDesktop => WindowsInput::Key(win(VK_D)),
        Action::LaunchpadShow => WindowsInput::Key(plain(VK_LWIN)),
        Action::LockScreen => WindowsInput::Key(win(VK_L)),
        Action::Screenshot | Action::CaptureRegion => WindowsInput::Key(
            Chord { shift: true, ..win(VK_S) },
        ),
        Action::PlayPause => WindowsInput::Key(plain(VK_MEDIA_PLAY_PAUSE)),
        Action::NextTrack => WindowsInput::Key(plain(VK_MEDIA_NEXT_TRACK)),
        Action::PrevTrack => WindowsInput::Key(plain(VK_MEDIA_PREV_TRACK)),
        Action::VolumeUp => WindowsInput::Key(plain(VK_VOLUME_UP)),
        Action::VolumeDown => WindowsInput::Key(plain(VK_VOLUME_DOWN)),
        Action::MuteVolume => WindowsInput::Key(plain(VK_VOLUME_MUTE)),
        Action::CycleDpiPresets | Action::SetDpiPreset(_) | Action::ToggleSmartShift => {
            WindowsInput::Ignored(Skip::DeviceAction)
        },
        Action::ScrollUp => WindowsInput::Scroll(ScrollDirection::Up),
        Action::ScrollDown => WindowsInput::Scroll(ScrollDirection::Down),
        Action::HorizontalScrollLeft => WindowsInput::Scroll(ScrollDirection::Left),
        Action::HorizontalScrollRight => WindowsInput::Scroll(ScrollDirection::Right),
        Action::CustomShortcut(combo) => windows_shortcut_input(combo),
        Action::NoOp => WindowsInput::Nothing,
    }
}

fn press(meta: bool, ctrl: bool, shift: bool, code: u16) -> (r: WindowsInput)
    ensures
        r == WindowsInput::Key(Chord { ctrl, shift, alt: false, meta, key: code }),
{
    WindowsInput::Key(Chord { ctrl, shift, alt: false, meta, key: code })
}

/// The event an action becomes on Windows.
///
/// Editing and tab shortcuts use Control (Redo is Ctrl+Y); browser
/// navigation, media and volume use their dedicated `VK_*` keys; the macOS
/// window-manager actions map to their Windows equivalents (Mission Control
/// and App Exposé → Win+Tab, desktop switching → Win+Ctrl+←/→, Show Desktop →
/// Win+D, Launchpad → Win); lock is Win+L and both screenshot actions open the
/// Win+Shift+S snip overlay. DPI/SmartShift actions are skipped (the HID layer
/// handles them). A custom shortcut's macOS key is translated with
/// [`mac_virtual_key_to_windows`], Command becoming Control.
pub fn windows_input_for(action: &Action) -> (r: WindowsInput)
    ensures
        r == windows_input_of(*action),
{
    match action {
        Action::LeftClick => WindowsInput::Click(WinButton::Left),
        Action::RightClick => WindowsInput::Click(WinButton::Right),
        Action::MiddleClick => WindowsInput::Click(WinButton::Middle),
        Action::MouseBack => WindowsInput::Click(WinButton::Back),
        Action::MouseForward => WindowsInput::Click(WinButton::Forward),
        Action::Copy => press(false, true, false, VK_C),
        Action::Paste => press(false, true, false, VK_V),
        Action::Cut => press(false, true, false, VK_X),
        Action::Undo => press(false, true, false, VK_Z),
        Action::Redo => press(false, true, false, VK_Y),
        Action::SelectAll => press(false, true, false, VK_A),
        Action::Find => press(false, true, false, VK_F),
        Action::Save => press(false, true, false, VK_S),
        Action::BrowserBack => press(false, false, false, VK_BROWSER_BACK),
        Action::BrowserForward => press(false, false, false, VK_BROWSER_FORWARD),
        Action::NewTab => press(false, true, false, VK_T),
        Action::CloseTab => press(false, true, false, VK_W),
        Action::ReopenTab => press(false, true, true, VK_T),
        Action::NextTab => press(false, true, false, VK_TAB),
        Action::PrevTab => press(false, true, true, VK_TAB),
        Action::ReloadPage => press(false, true, false, VK_R),
        Action::MissionControl | Action::AppExpose => press(true, false, false, VK_TAB),
        Action::PreviousDesktop => press(true, true, false, VK_LEFT),
        Action::NextDesktop => press(true, true, false, VK_RIGHT),
        Action::ShowDesktop => press(true, false, false, VK_D),
        Action::LaunchpadShow => press(false, false, false, VK_LWIN),
        Action::LockScreen => press(true, false, false, VK_L),
        // Win+Shift+S opens the snip overlay, which serves both captures.
        Action::Screenshot | Action::CaptureRegion => press(true, false, true, VK_S),
        Action::PlayPause => press(false, false, false, VK_MEDIA_PLAY_PAUSE),
        Action::NextTrack => press(false, false, false, VK_MEDIA_NEXT_TRACK),
        Action::PrevTrack => press(false, false, false, VK_MEDIA_PREV_TRACK),
        Action::VolumeUp => press(false, false, false, VK_VOLUME_UP),
        Action::VolumeDown => press(false, false, false, VK_VOLUME_DOWN),
        Action::MuteVolume => press(false, false, false, VK_VOLUME_MUTE),
        Action::CycleDpiPresets | Action::SetDpiPreset(_) | Action::ToggleSmartShift => {
            WindowsInput::Ignored(Skip::DeviceAction)
        },
        Action::ScrollUp => WindowsInput::Scroll(ScrollDirection::Up),
        Action::ScrollDown => WindowsInput::Scroll(ScrollDirection::Down),
        Action::HorizontalScrollLeft => WindowsInput::Scroll(ScrollDirection::Left),
        Action::HorizontalScrollRight => WindowsInput::Scroll(ScrollDirection::Right),
        Action::CustomShortcut(combo) => {
            if combo.key_code == 0 {
                return WindowsInput::Ignored(Skip::EmptyShortcut);
            }
            match mac_virtual_key_to_windows(combo.key_code) {
                Some(vk) => WindowsInput::Key(translate_chord(*combo, vk)),
                None => WindowsInput::Ignored(Skip::UnmappedKey),
            }
        },
        Action::NoOp => WindowsInput::Nothing,
    }
}

/// The modifier keys of a chord in the order they are pressed on Windows:
/// Windows key, Control, Shift, Alt.
pub open spec fn windows_modifier_keys(chord: Chord) -> Seq<u16> {
    key_if(chord.meta, VK_LWIN) + key_if(chord.ctrl, VK_CONTROL) + key_if(chord.shift, VK_SHIFT)
        + key_if(chord.alt, VK_MENU)
}

/// The modifier keys to hold down for a chord on Windows, in order.
pub fn chord_modifier_vks(chord: &Chord) -> (r: Vec<u16>)
    ensures
        r@ == windows_modifier_keys(*chord),
{
    let mut keys: Vec<u16> = Vec::new();
    if chord.meta {
        keys.push(VK_LWIN);
    }
    if chord.ctrl {
        keys.push(VK_CONTROL);
    }
    if chord.shift {
        keys.push(VK_SHIFT);
    }
    if chord.alt {
        keys.push(VK_MENU);
    }
    proof {
        assert(keys@ =~= windows_modifier_keys(*chord));
    }
    keys
}

/// One wheel notch in `SendInput` wheel units (`WHEEL_DELTA`).
pub const WHEEL_DELTA: i32 = 120;

/// The wheel movement of a scroll action as `SendInput` wheel data
/// `(vertical, horizontal)`: three notches of `WHEEL_DELTA` (360 units), as on the other platforms, with
/// the vertical wheel positive up (`MOUSEEVENTF_WHEEL`) and the horizontal
/// wheel positive right (`MOUSEEVENTF_HWHEEL`).
pub fn wheel_deltas(direction: ScrollDirection) -> (r: (i32, i32))
    ensures
        r == (match direction {
            ScrollDirection::Up => (360i32, 0i32),
            ScrollDirection::Down => (-360i32, 0i32),
            ScrollDirection::Left => (0i32, -360i32),
            ScrollDirection::Right => (0i32, 360i32),
        }),
{
    match direction {
        ScrollDirection::Up => (3 * WHEEL_DELTA, 0),
        ScrollDirection::Down => (-3 * WHEEL_DELTA, 0),
        ScrollDirection::Left => (0, -3 * WHEEL_DELTA),
        ScrollDirection::Right => (0, 3 * WHEEL_DELTA),
    }
}

} // verus!
