//! What each action becomes on Linux, where events are injected through a
//! `uinput` virtual device and media/lock requests go over D-Bus.
use vstd::prelude::*;
use crate::action::{Action, Chord, KeyCombo, Skip, plain, translate_chord, translated_chord};
use crate::linux_keys::{
    BTN_EXTRA, BTN_LEFT, BTN_MIDDLE, BTN_RIGHT, BTN_SIDE, KEY_A, KEY_C, KEY_F, KEY_L, KEY_LEFT, KEY_MUTE,
    KEY_R, KEY_RIGHT, KEY_S, KEY_SYSRQ, KEY_T, KEY_TAB, KEY_V, KEY_VOLUMEDOWN, KEY_VOLUMEUP, KEY_W,
    KEY_X, KEY_Z, REL_HWHEEL, REL_WHEEL, linux_key_of, macos_vk_to_linux,
};

verus! {

/// An MPRIS player request, sent to the running media player.
#[derive(Clone, Copy, Debug, PartialEq, Eq, Structural)]
pub enum MprisCommand {
    PlayPause,
    Next,
    Previous,
}

/// The MPRIS `Player` method a command calls.
pub open spec fn mpris_method_name(command: MprisCommand) -> Seq<char> {
    match command {
        MprisCommand::PlayPause => "PlayPause"@,
        MprisCommand::Next => "Next"@,
        MprisCommand::Previous => "Previous"@,
    }
}

impl MprisCommand {
    /// The name of the `org.mpris.MediaPlayer2.Player` method to call.
    pub fn method_name(&self) -> (r: &'static str)
        ensures
            r@ == mpris_method_name(*self),
    {
        match self {
            MprisCommand::PlayPause => "PlayPause",
            MprisCommand::Next => "Next",
            MprisCommand::Previous => "Previous",
        }
    }
}

/// The event an action becomes on Linux.
#[derive(Clone, Copy, Debug, PartialEq, Eq, Structural)]
pub enum LinuxInput {
    /// Press and release a mouse button (a `BTN_*` code).
    Click(u16),
    /// Press a chord: its modifiers in order, then the key.
    Key(Chord),
    /// Move a relative axis (`REL_WHEEL` / `REL_HWHEEL`) by this many detents.
    Scroll(u16, i32),
    /// Ask the running media player to act.
    Mpris(MprisCommand),
    /// Lock the session through logind, falling back to Super+L.
    LockScreen,
    /// Drop the press and log why.
    Ignored(Skip),
    /// Do nothing at all.
    Nothing,
}

/// The chord of Control plus a key.
pub open spec fn ctrl(key: u16) -> Chord {
    Chord { ctrl: true, ..plain(key) }
}

/// The chord of Control, Shift and a key.
pub open spec fn ctrl_shift(key: u16) -> Chord {
    Chord { ctrl: true, shift: true, ..plain(key) }
}

/// What a recorded custom shortcut becomes on Linux: nothing for the
/// placeholder key 0 or a key with no Linux code, else the key with Command
/// and Control as Control, Shift as Shift, Option as Alt.
pub open spec fn linux_shortcut_input(combo: KeyCombo) -> LinuxInput {
    if combo.key_code == 0 {
        LinuxInput::Ignored(Skip::EmptyShortcut)
    } else {
        match linux_key_of(combo.key_code) {
            Some(key) => LinuxInput::Key(translated_chord(combo, key)),
            None => LinuxInput::Ignored(Skip::UnmappedKey),
        }
    }
}

/// The event each action becomes on Linux.
pub open spec fn linux_input_of(action: Action) -> LinuxInput {
    match action {
        Action::LeftClick => LinuxInput::Click(BTN_LEFT),
        Action::RightClick => LinuxInput::Click(BTN_RIGHT),
        Action::MiddleClick => LinuxInput::Click(BTN_MIDDLE),
        Action::MouseBack => LinuxInput::Click(BTN_SIDE),
        Action::MouseForward => LinuxInput::Click(BTN_EXTRA),
        Action::Copy => LinuxInput::Key(ctrl(KEY_C)),
        Action::Paste => LinuxInput::Key(ctrl(KEY_V)),
        Action::Cut => LinuxInput::Key(ctrl(KEY_X)),
        Action::Undo => LinuxInput::Key(ctrl(KEY_Z)),
        Action::Redo => LinuxInput::Key(ctrl_shift(KEY_Z)),
        Action::SelectAll => LinuxInput::Key(ctrl(KEY_A)),
        Action::Find => LinuxInput::Key(ctrl(KEY_F)),
        Action::Save => LinuxInput::Key(ctrl(KEY_S)),
        Action::BrowserBack => LinuxInput::Key(Chord { alt: true, ..plain(KEY_LEFT) }),
        Action::BrowserForward => LinuxInput::Key(Chord { alt: true, ..plain(KEY_RIGHT) }),
        Action::NewTab => LinuxInput::Key(ctrl(KEY_T)),
        Action::CloseTab => LinuxInput::Key(ctrl(KEY_W)),
        Action::ReopenTab => LinuxInput::Key(ctrl_shift(KEY_T)),
        Action::NextTab => LinuxInput::Key(ctrl(KEY_TAB)),
        Action::PrevTab => LinuxInput::Key(ctrl_shift(KEY_TAB)),
        Action::ReloadPage => LinuxInput::Key(ctrl(KEY_R)),
        Action::MissionControl | Action::AppExpose | Action::ShowDesktop
        | Action::LaunchpadShow => LinuxInput::Ignored(Skip::NoEquivalent),
        Action::PreviousDesktop => LinuxInput::Key(Chord { ctrl: true, alt: true, ..plain(KEY_LEFT) }),
        Action::NextDesktop => LinuxInput::Key(Chord { ctrl: true, alt: true, ..plain(KEY_RIGHT) }),
        Action::LockScreen => LinuxInput::LockScreen,
        Action::Screenshot | Action::CaptureRegion => LinuxInput::Key(plain(KEY_SYSRQ)),
        Action::PlayPause => LinuxInput::Mpris(MprisCommand::PlayPause),
        Action::NextTrack => LinuxInput::Mpris(MprisCommand::Next),
        Action::PrevTrack => LinuxInput::Mpris(MprisCommand::Previous),
        Action::VolumeUp => LinuxInput::Key(plain(KEY_VOLUMEUP)),
        Action::VolumeDown => LinuxInput::Key(plain(KEY_VOLUMEDOWN)),
        Action::MuteVolume => LinuxInput::Key(plain(KEY_MUTE)),
        Action::CycleDpiPresets | Action::SetDpiPreset(_) | Action::ToggleSmartShift => {
            LinuxInput::Ignored(Skip::DeviceAction)
        },
        Action::ScrollUp => LinuxInput::Scroll(REL_WHEEL, 3),
        Action::ScrollDown => LinuxInput::Scroll(REL_WHEEL, -3i32),
        Action::HorizontalScrollLeft => LinuxInput::Scroll(REL_HWHEEL, -3i32),
        Action::HorizontalScrollRight => LinuxInput::Scroll(REL_HWHEEL, 3),
        Action::NoOp => LinuxInput::Nothing,
        Action::CustomShortcut(combo) => linux_shortcut_input(combo),
    }
}

fn press(ctrl: bool, shift: bool, alt: bool, code: u16) -> (r: LinuxInput)
    ensures
        r == LinuxInput::Key(Chord { ctrl, shift, alt, meta: false, key: code }),
{
    LinuxInput::Key(Chord { ctrl, shift, alt, meta: false, key: code })
}

/// The event an action becomes on Linux.
///
/// Clicks press the matching `BTN_*`; editing and tab shortcuts use Control
/// (Redo is Ctrl+Shift+Z, matching macOS ⌘⇧Z); browser back/forward are
/// Alt+←/→; desktop switching is Ctrl+Alt+←/→ (the GNOME and KDE default);
/// both screenshot actions press Print Screen; media transport goes to MPRIS
/// and volume to the XF86 volume keys; scrolling moves the wheel three
/// detents. The macOS window-manager actions have no Linux equivalent and
/// DPI/SmartShift actions belong to the HID layer: both are skipped. A custom
/// shortcut is translated key and modifiers alike, Command becoming Control.
pub fn linux_input_for(action: &Action) -> (r: LinuxInput)
    ensures
        r == linux_input_of(*action),
{
    match action {
        Action::LeftClick => LinuxInput::Click(BTN_LEFT),
        Action::RightClick => LinuxInput::Click(BTN_RIGHT),
        Action::MiddleClick => LinuxInput::Click(BTN_MIDDLE),
        // BTN_SIDE/BTN_EXTRA are the "back"/"forward" side buttons.
        Action::MouseBack => LinuxInput::Click(BTN_SIDE),
        Action::MouseForward => LinuxInput::Click(BTN_EXTRA),
        Action::Copy => press(true, false, false, KEY_C),
        Action::Paste => press(true, false, false, KEY_V),
        Action::Cut => press(true, false, false, KEY_X),
        Action::Undo => press(true, false, false, KEY_Z),
        Action::Redo => press(true, true, false, KEY_Z),
        Action::SelectAll => press(true, false, false, KEY_A),
        Action::Find => press(true, false, false, KEY_F),
        Action::Save => press(true, false, false, KEY_S),
        Action::BrowserBack => press(false, false, true, KEY_LEFT),
        Action::BrowserForward => press(false, false, true, KEY_RIGHT),
        Action::NewTab => press(true, false, false, KEY_T),
        Action::CloseTab => press(true, false, false, KEY_W),
        Action::ReopenTab => press(true, true, false, KEY_T),
        Action::NextTab => press(true, false, false, KEY_TAB),
        Action::PrevTab => press(true, true, false, KEY_TAB),
        Action::ReloadPage => press(true, false, false, KEY_R),
        // The compositor shortcut for these varies; there is no universal one.
        Action::MissionControl | Action::AppExpose | Action::ShowDesktop
        | Action::LaunchpadShow => LinuxInput::Ignored(Skip::NoEquivalent),
        Action::PreviousDesktop => press(true, false, true, KEY_LEFT),
        Action::NextDesktop => press(true, false, true, KEY_RIGHT),
        Action::LockScreen => LinuxInput::LockScreen,
        // Region vs full-screen capture is up to the desktop's Print Screen handler.
        Action::Screenshot | Action::CaptureRegion => press(false, false, false, KEY_SYSRQ),
        Action::PlayPause => LinuxInput::Mpris(MprisCommand::PlayPause),
        Action::NextTrack => LinuxInput::Mpris(MprisCommand::Next),
        Action::PrevTrack => LinuxInput::Mpris(MprisCommand::Previous),
        Action::VolumeUp => press(false, false, false, KEY_VOLUMEUP),
        Action::VolumeDown => press(false, false, false, KEY_VOLUMEDOWN),
        Action::MuteVolume => press(false, false, false, KEY_MUTE),
        Action::CycleDpiPresets | Action::SetDpiPreset(_) | Action::ToggleSmartShift => {
            LinuxInput::Ignored(Skip::DeviceAction)
        },
        Action::ScrollUp => LinuxInput::Scroll(REL_WHEEL, 3),
        Action::ScrollDown => LinuxInput::Scroll(REL_WHEEL, -3),
        Action::HorizontalScrollLeft => LinuxInput::Scroll(REL_HWHEEL, -3),
        Action::HorizontalScrollRight => LinuxInput::Scroll(REL_HWHEEL, 3),
        Action::NoOp => LinuxInput::Nothing,
        Action::CustomShortcut(combo) => {
            if combo.key_code == 0 {
                return LinuxInput::Ignored(Skip::EmptyShortcut);
            }
            match macos_vk_to_linux(combo.key_code) {
                Some(code) => LinuxInput::Key(translate_chord(*combo, code)),
                None => LinuxInput::Ignored(Skip::UnmappedKey),
            }
        },
    }
}

/// The chord the lock-screen action falls back to when logind cannot lock the
/// session: Super+L.
pub fn lock_screen_fallback() -> (r: Chord)
    ensures
        r == (Chord { meta: true, ..plain(KEY_L) }),
{
    Chord { ctrl: false, shift: false, alt: false, meta: true, key: KEY_L }
}

/// The event for a raw horizontal wheel rotation of `delta` increments: the
/// horizontal wheel moved by exactly `delta` detents, unscaled (one detent per
/// rotation increment, `REL_HWHEEL`'s own unit), unlike the fixed three
/// detents of the horizontal scroll actions.
pub fn horizontal_scroll_input(delta: i32) -> (r: LinuxInput)
    ensures
        r == LinuxInput::Scroll(REL_HWHEEL, delta),
{
    LinuxInput::Scroll(REL_HWHEEL, delta)
}

} // verus!
