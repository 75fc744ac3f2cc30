//! What each action becomes on macOS, where key and mouse events are posted
//! as `CGEvent`s, window-manager actions go to the Dock and media keys are
//! posted as NX system-defined events.
use vstd::prelude::*;
use crate::action::{Action, KeyCombo, ScrollDirection, Skip};

verus! {

// macOS virtual key codes (`kVK_ANSI_*`, US ANSI layout).
pub const VK_A: u16 = 0x00;
pub const VK_S: u16 = 0x01;
pub const VK_F: u16 = 0x03;
pub const VK_Z: u16 = 0x06;
pub const VK_X: u16 = 0x07;
pub const VK_C: u16 = 0x08;
pub const VK_V: u16 = 0x09;
pub const VK_Q: u16 = 0x0C;
pub const VK_W: u16 = 0x0D;
pub const VK_R: u16 = 0x0F;
pub const VK_T: u16 = 0x11;
pub const VK_3: u16 = 0x14;
pub const VK_4: u16 = 0x15;
pub const VK_RIGHT_BRACKET: u16 = 0x1E;
pub const VK_LEFT_BRACKET: u16 = 0x21;
pub const VK_TAB: u16 = 0x30;

/// Stamped into the `EVENT_SOURCE_USER_DATA` field of every synthesised mouse
/// event so that OpenLogi's own event tap can recognise and skip its own
/// injections (real events carry 0 there). The value spells "OLGI".
pub const SYNTHETIC_EVENT_USER_DATA: i64 = 0x4F4C_4749;

// `CGEventFlags` modifier bits.
pub const FLAG_SHIFT: u64 = 0x0002_0000;
pub const FLAG_CONTROL: u64 = 0x0004_0000;
pub const FLAG_ALTERNATE: u64 = 0x0008_0000;
pub const FLAG_COMMAND: u64 = 0x0010_0000;

/// A mouse button posted as a click at the cursor.
#[derive(Clone, Copy, Debug, PartialEq, Eq, Structural)]
pub enum MacButton {
    Left,
    Right,
    Center,
}

/// A notification sent to the Dock, which fires regardless of the user's
/// keyboard settings.
#[derive(Clone, Copy, Debug, PartialEq, Eq, Structural)]
pub enum DockAction {
    MissionControl,
    AppExpose,
    PreviousDesktop,
    NextDesktop,
    ShowDesktop,
    Launchpad,
}

/// An NX system-defined media key.
#[derive(Clone, Copy, Debug, PartialEq, Eq, Structural)]
pub enum MediaKey {
    Play,
    Next,
    Previous,
    SoundUp,
    SoundDown,
    Mute,
}

/// The event an action becomes on macOS.
#[derive(Clone, Copy, Debug, PartialEq, Eq, Structural)]
pub enum MacInput {
    /// A click at the current cursor location.
    Click(MacButton),
    /// Press and release an "other" mouse button (0-indexed: 3 is back, 4 forward).
    OtherButton(u8),
    /// A key press with the given `CGEventFlags` bits.
    Key(u16, u64),
    Dock(DockAction),
    Media(MediaKey),
    Scroll(ScrollDirection),
    /// Drop the press and log why.
    Ignored(Skip),
    /// Do nothing at all.
    Nothing,
}

/// `bit` when `set`, else no bits.
pub open spec fn flag_if(set: bool, bit: u64) -> u64 {
    if set {
        bit
    } else {
        0
    }
}

/// The `CGEventFlags` of a recorded chord: one bit for each of Command,
/// Shift, Control and Option that is set, and nothing else.
pub open spec fn combo_flags(combo: KeyCombo) -> int {
    flag_if(combo.has_cmd(), FLAG_COMMAND) + flag_if(combo.has_shift(), FLAG_SHIFT) + flag_if(
        combo.has_ctrl(),
        FLAG_CONTROL,
    ) + flag_if(combo.has_option(), FLAG_ALTERNATE)
}

/// What a recorded custom shortcut becomes on macOS: nothing for the
/// placeholder key 0, else the recorded key with the recorded modifiers.
pub open spec fn macos_shortcut_input(combo: KeyCombo) -> MacInput {
    if combo.key_code == 0 {
        MacInput::Ignored(Skip::EmptyShortcut)
    } else {
        MacInput::Key(combo.key_code, combo_flags(combo) as u64)
    }
}

/// The event each action becomes on macOS.
pub open spec fn macos_input_of(action: Action) -> MacInput {
    match action {
        Action::NoOp => MacInput::Nothing,
        Action::LeftClick => MacInput::Click(MacButton::Left),
        Action::RightClick => MacInput::Click(MacButton::Right),
        Action::MiddleClick => MacInput::Click(MacButton::Center),
        Action::MouseBack => MacInput::OtherButton(3),
        Action::MouseForward => MacInput::OtherButton(4),
        Action::Copy => MacInput::Key(VK_C, FLAG_COMMAND),
        Action::Paste => MacInput::Key(VK_V, FLAG_COMMAND),
        Action::Cut => MacInput::Key(VK_X, FLAG_COMMAND),
        Action::Undo => MacInput::Key(VK_Z, FLAG_COMMAND),
        Action::Redo => MacInput::Key(VK_Z, (FLAG_COMMAND + FLAG_SHIFT) as u64),
        Action::SelectAll => MacInput::Key(VK_A, FLAG_COMMAND),
        Action::Find => MacInput::Key(VK_F, FLAG_COMMAND),
        Action::Save => MacInput::Key(VK_S, FLAG_COMMAND),
        Action::BrowserBack => MacInput::Key(VK_LEFT_BRACKET, FLAG_COMMAND),
        Action::BrowserForward => MacInput::Key(VK_RIGHT_BRACKET, FLAG_COMMAND),
        Action::NewTab => MacInput::Key(VK_T, FLAG_COMMAND),
        Action::CloseTab => MacInput::Key(VK_W, FLAG_COMMAND),
        Action::ReopenTab => MacInput::Key(VK_T, (FLAG_COMMAND + FLAG_SHIFT) as u64),
        Action::NextTab => MacInput::Key(VK_TAB, FLAG_CONTROL),
        Action::PrevTab => MacInput::Key(VK_TAB, (FLAG_CONTROL + FLAG_SHIFT) as u64),
        Action::ReloadPage => MacInput::Key(VK_R, FLAG_COMMAND),
        Action::MissionControl => MacInput::Dock(DockAction::MissionControl),
        Action::AppExpose => MacInput::Dock(DockAction::AppExpose),
        Action::PreviousDesktop => MacInput::Dock(DockAction::PreviousDesktop),
        Action::NextDesktop => MacInput::Dock(DockAction::NextDesktop),
        Action::ShowDesktop => MacInput::Dock(DockAction::ShowDesktop),
        Action::LaunchpadShow => MacInput::Dock(DockAction::Launchpad),
        Action::LockScreen => MacInput::Key(VK_Q, (FLAG_COMMAND + FLAG_CONTROL) as u64),
        Action::Screenshot => MacInput::Key(VK_3, (FLAG_COMMAND + FLAG_SHIFT) as u64),
        Action::CaptureRegion => MacInput::Key(
            VK_4,
            (FLAG_COMMAND + FLAG_SHIFT + FLAG_CONTROL) as u64,
        ),
        Action::PlayPause => MacInput::Media(MediaKey::Play),
        Action::NextTrack => MacInput::Media(MediaKey::Next),
        Action::PrevTrack => MacInput::Media(MediaKey::Previous),
        Action::VolumeUp => MacInput::Media(MediaKey::SoundUp),
        Action::VolumeDown => MacInput::Media(MediaKey::SoundDown),
        Action::MuteVolume => MacInput::Media(MediaKey::Mute),
        Action::CycleDpiPresets | Action::SetDpiPreset(_) | Action::ToggleSmartShift => {
            MacInput::Ignored(Skip::DeviceAction)
        },
        Action::ScrollUp => MacInput::Scroll(ScrollDirection::Up),
        Action::ScrollDown => MacInput::Scroll(ScrollDirection::Down),
        Action::HorizontalScrollLeft => MacInput::Scroll(ScrollDirection::Left),
        Action::HorizontalScrollRight => MacInput::Scroll(ScrollDirection::Right),
        Action::CustomShortcut(combo) => macos_shortcut_input(combo),
    }
}

/// The `CGEventFlags` for a recorded chord's modifier mask.
pub fn shortcut_flags(combo: &KeyCombo) -> (r: u64)
    ensures
        r == combo_flags(*combo),
{
    let m = combo.modifiers;
    let cmd: u64 = if m & KeyCombo::MOD_CMD != 0 { FLAG_COMMAND } else { 0 };
    let shift: u64 = if m & KeyCombo::MOD_SHIFT != 0 { FLAG_SHIFT } else { 0 };
    let ctrl: u64 = if m & KeyCombo::MOD_CTRL != 0 { FLAG_CONTROL } else { 0 };
    let option: u64 = if m & KeyCombo::MOD_OPTION != 0 { FLAG_ALTERNATE } else { 0 };
    let flags: u64 = cmd | shift | ctrl | option;
    proof {
        // The four bits are distinct, so their union is their sum.
        assert(cmd | shift | ctrl | option == cmd + shift + ctrl + option) by (bit_vector)
            requires
                cmd == 0 || cmd == 0x0010_0000u64,
                shift == 0 || shift == 0x0002_0000u64,
                ctrl == 0 || ctrl == 0x0004_0000u64,
                option == 0 || option == 0x0008_0000u64,
        ;
    }
    flags
}

fn press(key: u16, flags: u64) -> (r: MacInput)
    ensures
        r == MacInput::Key(key, flags),
{
    MacInput::Key(key, flags)
}

/// The event an action becomes on macOS.
///
/// Clicks are posted at the cursor; back/forward post mouse buttons 4 and 5;
/// editing, browser and tab shortcuts use Command (tab switching Control);
/// Mission Control, App Exposé, desktop switching, Show Desktop and Launchpad
/// go to the Dock; lock screen is ⌘⌃Q, screenshot ⌘⇧3 and region capture
/// ⌘⇧⌃4; media and volume are NX system-defined keys. DPI/SmartShift
/// actions are skipped (the HID layer handles them); a custom shortcut posts
/// its recorded key with its recorded modifiers, unless its key is the
/// placeholder 0.
pub fn macos_input_for(action: &Action) -> (r: MacInput)
    ensures
        r == macos_input_of(*action),
{
    match action {
        Action::NoOp => MacInput::Nothing,
        Action::LeftClick => MacInput::Click(MacButton::Left),
        Action::RightClick => MacInput::Click(MacButton::Right),
        Action::MiddleClick => MacInput::Click(MacButton::Center),
        Action::MouseBack => MacInput::OtherButton(3),
        Action::MouseForward => MacInput::OtherButton(4),
        Action::Copy => press(VK_C, FLAG_COMMAND),
        Action::Paste => press(VK_V, FLAG_COMMAND),
        Action::Cut => press(VK_X, FLAG_COMMAND),
        Action::Undo => press(VK_Z, FLAG_COMMAND),
        Action::Redo => press(VK_Z, FLAG_COMMAND + FLAG_SHIFT),
        Action::SelectAll => press(VK_A, FLAG_COMMAND),
        Action::Find => press(VK_F, FLAG_COMMAND),
        Action::Save => press(VK_S, FLAG_COMMAND),
        // Cmd+[ / Cmd+] as the keyboard fallback for browser navigation.
        Action::BrowserBack => press(VK_LEFT_BRACKET, FLAG_COMMAND),
        Action::BrowserForward => press(VK_RIGHT_BRACKET, FLAG_COMMAND),
        Action::NewTab => press(VK_T, FLAG_COMMAND),
        Action::CloseTab => press(VK_W, FLAG_COMMAND),
        Action::ReopenTab => press(VK_T, FLAG_COMMAND + FLAG_SHIFT),
        Action::NextTab => press(VK_TAB, FLAG_CONTROL),
        Action::PrevTab => press(VK_TAB, FLAG_CONTROL + FLAG_SHIFT),
        Action::ReloadPage => press(VK_R, FLAG_COMMAND),
        Action::MissionControl => MacInput::Dock(DockAction::MissionControl),
        Action::AppExpose => MacInput::Dock(DockAction::AppExpose),
        Action::PreviousDesktop => MacInput::Dock(DockAction::PreviousDesktop),
        Action::NextDesktop => MacInput::Dock(DockAction::NextDesktop),
        Action::ShowDesktop => MacInput::Dock(DockAction::ShowDesktop),
        Action::LaunchpadShow => MacInput::Dock(DockAction::Launchpad),
        Action::LockScreen => press(VK_Q, FLAG_COMMAND + FLAG_CONTROL),
        Action::Screenshot => press(VK_3, FLAG_COMMAND + FLAG_SHIFT),
        Action::CaptureRegion => press(VK_4, FLAG_COMMAND + FLAG_SHIFT + FLAG_CONTROL),
        Action::PlayPause => MacInput::Media(MediaKey::Play),
        Action::NextTrack => MacInput::Media(MediaKey::Next),
        Action::PrevTrack => MacInput::Media(MediaKey::Previous),
        Action::VolumeUp => MacInput::Media(MediaKey::SoundUp),
        Action::VolumeDown => MacInput::Media(MediaKey::SoundDown),
        Action::MuteVolume => MacInput::Media(MediaKey::Mute),
        Action::CycleDpiPresets | Action::SetDpiPreset(_) | Action::ToggleSmartShift => {
            MacInput::Ignored(Skip::DeviceAction)
        },
        Action::ScrollUp => MacInput::Scroll(ScrollDirection::Up),
        Action::ScrollDown => MacInput::Scroll(ScrollDirection::Down),
        Action::HorizontalScrollLeft => MacInput::Scroll(ScrollDirection::Left),
        Action::HorizontalScrollRight => MacInput::Scroll(ScrollDirection::Right),
        Action::CustomShortcut(combo) => {
            if combo.key_code == 0 {
                return MacInput::Ignored(Skip::EmptyShortcut);
            }
            MacInput::Key(combo.key_code, shortcut_flags(combo))
        },
    }
}

/// Whether an input is posted as mouse events: clicks, other buttons and
/// scroll-wheel events.
pub open spec fn is_mouse_input(input: MacInput) -> bool {
    match input {
        MacInput::Click(_) | MacInput::OtherButton(_) | MacInput::Scroll(_) => true,
        _ => false,
    }
}

/// The `EVENT_SOURCE_USER_DATA` value a posted event carries: the OpenLogi
/// marker on every synthesised mouse event (clicks, other buttons and
/// scrolling), so the event tap skips its own injections; `None` for the
/// keyboard, Dock and media events, posted without the field set.
pub open spec fn user_data_of(input: MacInput) -> Option<i64> {
    if is_mouse_input(input) {
        Some(SYNTHETIC_EVENT_USER_DATA)
    } else {
        None
    }
}

/// The `EVENT_SOURCE_USER_DATA` value to stamp on the events posted for an
/// input.
pub fn event_user_data(input: &MacInput) -> (r: Option<i64>)
    ensures
        r == user_data_of(*input),
{
    match input {
        MacInput::Click(_) | MacInput::OtherButton(_) | MacInput::Scroll(_) => Some(
            SYNTHETIC_EVENT_USER_DATA,
        ),
        _ => None,
    }
}

/// The mouse and scroll actions all become mouse events, and every mouse event
/// `execute` synthesises carries the non-zero OpenLogi marker, never the 0
/// that real events carry, so a remapped click cannot re-enter the hook as a
/// fresh press.
pub proof fn lemma_mouse_actions_are_marked(action: Action)
    requires
        action == Action::LeftClick || action == Action::RightClick || action == Action::MiddleClick
            || action == Action::MouseBack || action == Action::MouseForward || action
            == Action::ScrollUp || action == Action::ScrollDown || action
            == Action::HorizontalScrollLeft || action == Action::HorizontalScrollRight,
    ensures
        is_mouse_input(macos_input_of(action)),
        user_data_of(macos_input_of(action)) == Some(SYNTHETIC_EVENT_USER_DATA),
        SYNTHETIC_EVENT_USER_DATA != 0,
{
}

/// Of all actions, exactly the mouse events carry the marker.
pub proof fn lemma_only_mouse_events_are_marked(action: Action)
    ensures
        user_data_of(macos_input_of(action)) is Some <==> is_mouse_input(macos_input_of(action)),
{
}

/// A scroll-wheel event: the line deltas of wheel 1 (vertical, positive up)
/// and wheel 2 (horizontal, positive left), and its `EVENT_SOURCE_USER_DATA`.
#[derive(Clone, Copy, Debug, PartialEq, Eq, Structural)]
pub struct ScrollEvent {
    pub wheel1: i32,
    pub wheel2: i32,
    pub user_data: i64,
}

/// The scroll-wheel event for a raw horizontal rotation of `delta` increments
/// (the thumb wheel): `delta` lines on wheel 2, unscaled, carrying the
/// OpenLogi marker like every synthesised mouse event.
pub fn horizontal_scroll_event(delta: i32) -> (r: ScrollEvent)
    ensures
        r == (ScrollEvent { wheel1: 0, wheel2: delta, user_data: SYNTHETIC_EVENT_USER_DATA }),
{
    ScrollEvent { wheel1: 0, wheel2: delta, user_data: SYNTHETIC_EVENT_USER_DATA }
}

/// The wheel movement of a scroll action as `CGEvent` scroll-wheel deltas
/// `(wheel1, wheel2)` in lines: three lines, as on the other platforms, with
/// wheel 1 vertical (positive up) and wheel 2 horizontal (positive left).
pub fn scroll_wheel_deltas(direction: ScrollDirection) -> (r: (i32, i32))
    ensures
        r == (match direction {
            ScrollDirection::Up => (3i32, 0i32),
            ScrollDirection::Down => (-3i32, 0i32),
            ScrollDirection::Left => (0i32, 3i32),
            ScrollDirection::Right => (0i32, -3i32),
        }),
{
    match direction {
        ScrollDirection::Up => (3, 0),
        ScrollDirection::Down => (-3, 0),
        ScrollDirection::Left => (0, 3),
        ScrollDirection::Right => (0, -3),
    }
}

/// The flags of a recorded chord carry the Command bit (0x100000) exactly
/// when Command was held, Shift (0x20000) exactly when Shift was, Control
/// (0x40000) exactly when Control was, Alternate (0x80000) exactly when
/// Option was, and no other bit.
pub proof fn lemma_shortcut_flag_bits(combo: KeyCombo)
    ensures
        ((combo_flags(combo) as u64) & 0x0010_0000u64 != 0) == combo.has_cmd(),
        ((combo_flags(combo) as u64) & 0x0002_0000u64 != 0) == combo.has_shift(),
        ((combo_flags(combo) as u64) & 0x0004_0000u64 != 0) == combo.has_ctrl(),
        ((combo_flags(combo) as u64) & 0x0008_0000u64 != 0) == combo.has_option(),
        (combo_flags(combo) as u64) & !0x001E_0000u64 == 0,
{
    let a = flag_if(combo.has_cmd(), FLAG_COMMAND);
    let b = flag_if(combo.has_shift(), FLAG_SHIFT);
    let c = flag_if(combo.has_ctrl(), FLAG_CONTROL);
    let d = flag_if(combo.has_option(), FLAG_ALTERNATE);
    let f = (a + b + c + d) as u64;
    assert(combo_flags(combo) as u64 == f);
    assert(
        (f & 0x0010_0000u64 != 0) == (a != 0)
        && (f & 0x0002_0000u64 != 0) == (b != 0)
        && (f & 0x0004_0000u64 != 0) == (c != 0)
        && (f & 0x0008_0000u64 != 0) == (d != 0)
        && f & !0x001E_0000u64 == 0
    ) by (bit_vector)
        requires
            a == 0 || a == 0x0010_0000u64,
            b == 0 || b == 0x0002_0000u64,
            c == 0 || c == 0x0004_0000u64,
            d == 0 || d == 0x0008_0000u64,
            f == (a + b + c + d) as u64,
    ;
}

} // verus!
