//! What an injected event does for the user, read off each platform's event
//! by the meaning of its codes (Linux `input-event-codes.h`, Win32 `VK_*`,
//! macOS `kVK_*` and `CGEventFlags`), and the laws that tie each action to
//! its effect on every platform.
use vstd::prelude::*;
use crate::action::{Action, Chord, ScrollDirection};
use crate::linux::{LinuxInput, MprisCommand, linux_input_of};
use crate::macos::{DockAction, MacButton, MacInput, MediaKey, macos_input_of};
use crate::windows::{WinButton, WindowsInput, windows_input_of};

verus! {

/// A platform-independent effect of an injected event.
#[derive(Clone, Copy, Debug, PartialEq, Eq, Structural)]
pub enum Effect {
    Copy,
    Paste,
    Cut,
    Undo,
    Redo,
    SelectAll,
    Find,
    Save,
    NewTab,
    CloseTab,
    ReopenTab,
    Reload,
    LeftClick,
    RightClick,
    MiddleClick,
    /// The "back" side button.
    ButtonBack,
    /// The "forward" side button.
    ButtonForward,
    BrowserBack,
    BrowserForward,
    NextTab,
    PrevTab,
    PrevDesktop,
    NextDesktop,
    Lock,
    /// Screen capture (full screen or region, as the platform offers).
    Capture,
    VolumeUp,
    VolumeDown,
    Mute,
    PlayPause,
    NextTrack,
    PrevTrack,
    ScrollUp,
    ScrollDown,
    ScrollLeft,
    ScrollRight,
}

/// The effect each action is named for; `None` for actions outside this
/// vocabulary (window-manager and device actions, custom shortcuts, the
/// no-op).
pub open spec fn action_effect(action: Action) -> Option<Effect> {
    match action {
        Action::Copy => Some(Effect::Copy),
        Action::Paste => Some(Effect::Paste),
        Action::Cut => Some(Effect::Cut),
        Action::Undo => Some(Effect::Undo),
        Action::Redo => Some(Effect::Redo),
        Action::SelectAll => Some(Effect::SelectAll),
        Action::Find => Some(Effect::Find),
        Action::Save => Some(Effect::Save),
        Action::NewTab => Some(Effect::NewTab),
        Action::CloseTab => Some(Effect::CloseTab),
        Action::ReopenTab => Some(Effect::ReopenTab),
        Action::ReloadPage => Some(Effect::Reload),
        Action::LeftClick => Some(Effect::LeftClick),
        Action::RightClick => Some(Effect::RightClick),
        Action::MiddleClick => Some(Effect::MiddleClick),
        Action::MouseBack => Some(Effect::ButtonBack),
        Action::MouseForward => Some(Effect::ButtonForward),
        Action::BrowserBack => Some(Effect::BrowserBack),
        Action::BrowserForward => Some(Effect::BrowserForward),
        Action::NextTab => Some(Effect::NextTab),
        Action::PrevTab => Some(Effect::PrevTab),
        Action::PreviousDesktop => Some(Effect::PrevDesktop),
        Action::NextDesktop => Some(Effect::NextDesktop),
        Action::LockScreen => Some(Effect::Lock),
        Action::Screenshot | Action::CaptureRegion => Some(Effect::Capture),
        Action::VolumeUp => Some(Effect::VolumeUp),
        Action::VolumeDown => Some(Effect::VolumeDown),
        Action::MuteVolume => Some(Effect::Mute),
        Action::PlayPause => Some(Effect::PlayPause),
        Action::NextTrack => Some(Effect::NextTrack),
        Action::PrevTrack => Some(Effect::PrevTrack),
        Action::ScrollUp => Some(Effect::ScrollUp),
        Action::ScrollDown => Some(Effect::ScrollDown),
        Action::HorizontalScrollLeft => Some(Effect::ScrollLeft),
        Action::HorizontalScrollRight => Some(Effect::ScrollRight),
        _ => None,
    }
}

/// A chord from its modifier set and key.
pub open spec fn chord(ctrl: bool, shift: bool, alt: bool, meta: bool, key: u16) -> Chord {
    Chord { ctrl, shift, alt, meta, key }
}

/// What a Linux key chord does, by the kernel's key names.
pub open spec fn linux_chord_effect(c: Chord) -> Option<Effect> {
    if c == chord(true, false, false, false, 46) {
        Some(Effect::Copy)  // Ctrl+KEY_C
    } else if c == chord(true, false, false, false, 47) {
        Some(Effect::Paste)  // Ctrl+KEY_V
    } else if c == chord(true, false, false, false, 45) {
        Some(Effect::Cut)  // Ctrl+KEY_X
    } else if c == chord(true, false, false, false, 44) {
        Some(Effect::Undo)  // Ctrl+KEY_Z
    } else if c == chord(true, true, false, false, 44) {
        Some(Effect::Redo)  // Ctrl+Shift+KEY_Z
    } else if c == chord(true, false, false, false, 30) {
        Some(Effect::SelectAll)  // Ctrl+KEY_A
    } else if c == chord(true, false, false, false, 33) {
        Some(Effect::Find)  // Ctrl+KEY_F
    } else if c == chord(true, false, false, false, 31) {
        Some(Effect::Save)  // Ctrl+KEY_S
    } else if c == chord(true, false, false, false, 20) {
        Some(Effect::NewTab)  // Ctrl+KEY_T
    } else if c == chord(true, false, false, false, 17) {
        Some(Effect::CloseTab)  // Ctrl+KEY_W
    } else if c == chord(true, true, false, false, 20) {
        Some(Effect::ReopenTab)  // Ctrl+Shift+KEY_T
    } else if c == chord(true, false, false, false, 19) {
        Some(Effect::Reload)  // Ctrl+KEY_R
    } else if c == chord(false, false, true, false, 105) {
        Some(Effect::BrowserBack)  // Alt+KEY_LEFT
    } else if c == chord(false, false, true, false, 106) {
        Some(Effect::BrowserForward)  // Alt+KEY_RIGHT
    } else if c == chord(true, false, false, false, 15) {
        Some(Effect::NextTab)  // Ctrl+KEY_TAB
    } else if c == chord(true, true, false, false, 15) {
        Some(Effect::PrevTab)  // Ctrl+Shift+KEY_TAB
    } else if c == chord(true, false, true, false, 105) {
        Some(Effect::PrevDesktop)  // Ctrl+Alt+KEY_LEFT
    } else if c == chord(true, false, true, false, 106) {
        Some(Effect::NextDesktop)  // Ctrl+Alt+KEY_RIGHT
    } else if c == chord(false, false, false, false, 99) {
        Some(Effect::Capture)  // KEY_SYSRQ
    } else if c == chord(false, false, false, false, 115) {
        Some(Effect::VolumeUp)  // KEY_VOLUMEUP
    } else if c == chord(false, false, false, false, 114) {
        Some(Effect::VolumeDown)  // KEY_VOLUMEDOWN
    } else if c == chord(false, false, false, false, 113) {
        Some(Effect::Mute)  // KEY_MUTE
    } else {
        None
    }
}

/// What a Linux event does: buttons by their `BTN_*` names, wheels by the
/// kernel's sign convention (positive `REL_WHEEL` is up, positive
/// `REL_HWHEEL` is right), MPRIS methods by name.
pub open spec fn linux_effect(input: LinuxInput) -> Option<Effect> {
    match input {
        LinuxInput::Click(button) => if button == 0x110 {
            Some(Effect::LeftClick)
        } else if button == 0x111 {
            Some(Effect::RightClick)
        } else if button == 0x112 {
            Some(Effect::MiddleClick)
        } else if button == 0x113 {
            Some(Effect::ButtonBack)  // BTN_SIDE
        } else if button == 0x114 {
            Some(Effect::ButtonForward)  // BTN_EXTRA
        } else {
            None
        },
        LinuxInput::Key(c) => linux_chord_effect(c),
        LinuxInput::Scroll(axis, amount) => if axis == 0x08 && amount > 0 {
            Some(Effect::ScrollUp)
        } else if axis == 0x08 && amount < 0 {
            Some(Effect::ScrollDown)
        } else if axis == 0x06 && amount > 0 {
            Some(Effect::ScrollRight)
        } else if axis == 0x06 && amount < 0 {
            Some(Effect::ScrollLeft)
        } else {
            None
        },
        LinuxInput::Mpris(MprisCommand::PlayPause) => Some(Effect::PlayPause),
        LinuxInput::Mpris(MprisCommand::Next) => Some(Effect::NextTrack),
        LinuxInput::Mpris(MprisCommand::Previous) => Some(Effect::PrevTrack),
        LinuxInput::LockScreen => Some(Effect::Lock),
        _ => None,
    }
}

/// What a Windows key chord does, by the Win32 `VK_*` names (`meta` is the
/// Windows key).
pub open spec fn windows_chord_effect(c: Chord) -> Option<Effect> {
    if c == chord(true, false, false, false, 0x43) {
        Some(Effect::Copy)  // Ctrl+C
    } else if c == chord(true, false, false, false, 0x56) {
        Some(Effect::Paste)  // Ctrl+V
    } else if c == chord(true, false, false, false, 0x58) {
        Some(Effect::Cut)  // Ctrl+X
    } else if c == chord(true, false, false, false, 0x5A) {
        Some(Effect::Undo)  // Ctrl+Z
    } else if c == chord(true, false, false, false, 0x59) {
        Some(Effect::Redo)  // Ctrl+Y, the Windows redo
    } else if c == chord(true, false, false, false, 0x41) {
        Some(Effect::SelectAll)  // Ctrl+A
    } else if c == chord(true, false, false, false, 0x46) {
        Some(Effect::Find)  // Ctrl+F
    } else if c == chord(true, false, false, false, 0x53) {
        Some(Effect::Save)  // Ctrl+S
    } else if c == chord(true, false, false, false, 0x54) {
        Some(Effect::NewTab)  // Ctrl+T
    } else if c == chord(true, false, false, false, 0x57) {
        Some(Effect::CloseTab)  // Ctrl+W
    } else if c == chord(true, true, false, false, 0x54) {
        Some(Effect::ReopenTab)  // Ctrl+Shift+T
    } else if c == chord(true, false, false, false, 0x52) {
        Some(Effect::Reload)  // Ctrl+R
    } else if c == chord(false, false, false, false, 0xA6) {
        Some(Effect::BrowserBack)  // VK_BROWSER_BACK
    } else if c == chord(false, false, false, false, 0xA7) {
        Some(Effect::BrowserForward)  // VK_BROWSER_FORWARD
    } else if c == chord(true, false, false, false, 0x09) {
        Some(Effect::NextTab)  // Ctrl+VK_TAB
    } else if c == chord(true, true, false, false, 0x09) {
        Some(Effect::PrevTab)  // Ctrl+Shift+VK_TAB
    } else if c == chord(true, false, false, true, 0x25) {
        Some(Effect::PrevDesktop)  // Win+Ctrl+VK_LEFT
    } else if c == chord(true, false, false, true, 0x27) {
        Some(Effect::NextDesktop)  // Win+Ctrl+VK_RIGHT
    } else if c == chord(false, false, false, true, 0x4C) {
        Some(Effect::Lock)  // Win+L
    } else if c == chord(false, true, false, true, 0x53) {
        Some(Effect::Capture)  // Win+Shift+S
    } else if c == chord(false, false, false, false, 0xAF) {
        Some(Effect::VolumeUp)  // VK_VOLUME_UP
    } else if c == chord(false, false, false, false, 0xAE) {
        Some(Effect::VolumeDown)  // VK_VOLUME_DOWN
    } else if c == chord(false, false, false, false, 0xAD) {
        Some(Effect::Mute)  // VK_VOLUME_MUTE
    } else if c == chord(false, false, false, false, 0xB3) {
        Some(Effect::PlayPause)  // VK_MEDIA_PLAY_PAUSE
    } else if c == chord(false, false, false, false, 0xB0) {
        Some(Effect::NextTrack)  // VK_MEDIA_NEXT_TRACK
    } else if c == chord(false, false, false, false, 0xB1) {
        Some(Effect::PrevTrack)  // VK_MEDIA_PREV_TRACK
    } else {
        None
    }
}

/// What a scroll direction does.
pub open spec fn scroll_effect(direction: ScrollDirection) -> Effect {
    match direction {
        ScrollDirection::Up => Effect::ScrollUp,
        ScrollDirection::Down => Effect::ScrollDown,
        ScrollDirection::Left => Effect::ScrollLeft,
        ScrollDirection::Right => Effect::ScrollRight,
    }
}

/// What a Windows event does.
pub open spec fn windows_effect(input: WindowsInput) -> Option<Effect> {
    match input {
        WindowsInput::Click(WinButton::Left) => Some(Effect::LeftClick),
        WindowsInput::Click(WinButton::Right) => Some(Effect::RightClick),
        WindowsInput::Click(WinButton::Middle) => Some(Effect::MiddleClick),
        WindowsInput::Click(WinButton::Back) => Some(Effect::ButtonBack),
        WindowsInput::Click(WinButton::Forward) => Some(Effect::ButtonForward),
        WindowsInput::Key(c) => windows_chord_effect(c),
        WindowsInput::Scroll(direction) => Some(scroll_effect(direction)),
        _ => None,
    }
}

/// What a macOS key press does, by its `kVK_*` key and `CGEventFlags`
/// (Command 0x100000, Shift 0x20000, Control 0x40000).
pub open spec fn mac_key_effect(key: u16, flags: u64) -> Option<Effect> {
    if key == 0x08 && flags == 0x0010_0000 {
        Some(Effect::Copy)  // ⌘C
    } else if key == 0x09 && flags == 0x0010_0000 {
        Some(Effect::Paste)  // ⌘V
    } else if key == 0x07 && flags == 0x0010_0000 {
        Some(Effect::Cut)  // ⌘X
    } else if key == 0x06 && flags == 0x0010_0000 {
        Some(Effect::Undo)  // ⌘Z
    } else if key == 0x06 && flags == 0x0012_0000 {
        Some(Effect::Redo)  // ⌘⇧Z
    } else if key == 0x00 && flags == 0x0010_0000 {
        Some(Effect::SelectAll)  // ⌘A
    } else if key == 0x03 && flags == 0x0010_0000 {
        Some(Effect::Find)  // ⌘F
    } else if key == 0x01 && flags == 0x0010_0000 {
        Some(Effect::Save)  // ⌘S
    } else if key == 0x11 && flags == 0x0010_0000 {
        Some(Effect::NewTab)  // ⌘T
    } else if key == 0x0D && flags == 0x0010_0000 {
        Some(Effect::CloseTab)  // ⌘W
    } else if key == 0x11 && flags == 0x0012_0000 {
        Some(Effect::ReopenTab)  // ⌘⇧T
    } else if key == 0x0F && flags == 0x0010_0000 {
        Some(Effect::Reload)  // ⌘R
    } else if key == 0x21 && flags == 0x0010_0000 {
        Some(Effect::BrowserBack)  // ⌘[
    } else if key == 0x1E && flags == 0x0010_0000 {
        Some(Effect::BrowserForward)  // ⌘]
    } else if key == 0x30 && flags == 0x0004_0000 {
        Some(Effect::NextTab)  // ⌃Tab
    } else if key == 0x30 && flags == 0x0006_0000 {
        Some(Effect::PrevTab)  // ⌃⇧Tab
    } else if key == 0x0C && flags == 0x0014_0000 {
        Some(Effect::Lock)  // ⌘⌃Q
    } else if key == 0x14 && flags == 0x0012_0000 {
        Some(Effect::Capture)  // ⌘⇧3
    } else if key == 0x15 && flags == 0x0016_0000 {
        Some(Effect::Capture)  // ⌘⇧⌃4
    } else {
        None
    }
}

/// What a macOS event does: buttons (other button 3 is back, 4 forward),
/// Dock desktop switching, NX media keys by name, scroll directions.
pub open spec fn mac_effect(input: MacInput) -> Option<Effect> {
    match input {
        MacInput::Click(MacButton::Left) => Some(Effect::LeftClick),
        MacInput::Click(MacButton::Right) => Some(Effect::RightClick),
        MacInput::Click(MacButton::Center) => Some(Effect::MiddleClick),
        MacInput::OtherButton(n) => if n == 3 {
            Some(Effect::ButtonBack)
        } else if n == 4 {
            Some(Effect::ButtonForward)
        } else {
            None
        },
        MacInput::Key(key, flags) => mac_key_effect(key, flags),
        MacInput::Dock(DockAction::PreviousDesktop) => Some(Effect::PrevDesktop),
        MacInput::Dock(DockAction::NextDesktop) => Some(Effect::NextDesktop),
        MacInput::Media(MediaKey::Play) => Some(Effect::PlayPause),
        MacInput::Media(MediaKey::Next) => Some(Effect::NextTrack),
        MacInput::Media(MediaKey::Previous) => Some(Effect::PrevTrack),
        MacInput::Media(MediaKey::SoundUp) => Some(Effect::VolumeUp),
        MacInput::Media(MediaKey::SoundDown) => Some(Effect::VolumeDown),
        MacInput::Media(MediaKey::Mute) => Some(Effect::Mute),
        MacInput::Scroll(direction) => Some(scroll_effect(direction)),
        _ => None,
    }
}

/// Every built-in action does on Linux exactly what it is named for: copy
/// presses Ctrl+C, the volume-down action presses the volume-down key, next-desktop moves right,
/// previous-track asks for the previous track, and so on; an action outside
/// this vocabulary produces no event with one of these effects.
pub proof fn lemma_linux_does_what_each_action_names(action: Action)
    requires
        !(action is CustomShortcut),
    ensures
        linux_effect(linux_input_of(action)) == action_effect(action),
{
}

/// Every built-in action does on Windows exactly what it is named for.
pub proof fn lemma_windows_does_what_each_action_names(action: Action)
    requires
        !(action is CustomShortcut),
    ensures
        windows_effect(windows_input_of(action)) == action_effect(action),
{
}

/// Every built-in action does on macOS exactly what it is named for.
pub proof fn lemma_macos_does_what_each_action_names(action: Action)
    requires
        !(action is CustomShortcut),
    ensures
        mac_effect(macos_input_of(action)) == action_effect(action),
{
}

/// The three platforms agree on what each built-in action does.
pub proof fn lemma_platforms_agree_on_effects(action: Action)
    requires
        !(action is CustomShortcut),
    ensures
        linux_effect(linux_input_of(action)) == windows_effect(windows_input_of(action)),
        linux_effect(linux_input_of(action)) == mac_effect(macos_input_of(action)),
{
}

/// Two different actions with effects never do the same thing on any
/// platform, except the two screen captures: opposite directions (volume
/// up/down, next/previous track, desktop, tab, scrolling) and the editing
/// shortcuts stay distinct.
#[verifier::rlimit(50)]
pub proof fn lemma_distinct_actions_have_distinct_effects(a: Action, b: Action)
    requires
        !(a is CustomShortcut),
        !(b is CustomShortcut),
        action_effect(a) is Some,
        a != b,
        !(a == Action::Screenshot && b == Action::CaptureRegion),
        !(a == Action::CaptureRegion && b == Action::Screenshot),
    ensures
        linux_effect(linux_input_of(a)) != linux_effect(linux_input_of(b)),
        windows_effect(windows_input_of(a)) != windows_effect(windows_input_of(b)),
        mac_effect(macos_input_of(a)) != mac_effect(macos_input_of(b)),
{
    lemma_action_effects_distinct(a, b);
    lemma_linux_does_what_each_action_names(a);
    lemma_linux_does_what_each_action_names(b);
    lemma_windows_does_what_each_action_names(a);
    lemma_windows_does_what_each_action_names(b);
    lemma_macos_does_what_each_action_names(a);
    lemma_macos_does_what_each_action_names(b);
}

proof fn lemma_action_effects_distinct(a: Action, b: Action)
    requires
        action_effect(a) is Some,
        a != b,
        !(a == Action::Screenshot && b == Action::CaptureRegion),
        !(a == Action::CaptureRegion && b == Action::Screenshot),
    ensures
        action_effect(a) != action_effect(b),
{
}

} // verus!
