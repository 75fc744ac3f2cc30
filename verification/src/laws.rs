//! Properties that hold across the three platforms' decisions.
use vstd::prelude::*;
use crate::action::{Action, KeyCombo, Skip, is_device_action, is_window_manager_action, translated_chord};
use crate::linux::{LinuxInput, linux_input_of};
use crate::linux_keys::{REL_HWHEEL, REL_WHEEL, linux_key_of};
use crate::macos::{MacInput, macos_input_of};
use crate::windows::{WindowsInput, windows_input_of};
use crate::windows_keys::windows_vk_of;

verus! {

/// The editing and tab actions: copy, paste, cut, undo, redo, select all,
/// find, save, new/close/reopen tab, next/previous tab and reload.
pub open spec fn is_editing_action(action: Action) -> bool {
    match action {
        Action::Copy | Action::Paste | Action::Cut | Action::Undo | Action::Redo
        | Action::SelectAll | Action::Find | Action::Save | Action::NewTab | Action::CloseTab
        | Action::ReopenTab | Action::NextTab | Action::PrevTab | Action::ReloadPage => true,
        _ => false,
    }
}

/// DPI and SmartShift actions never synthesise an OS event: every platform
/// drops them as handled by the device layer.
pub proof fn lemma_device_actions_inject_nothing(action: Action)
    requires
        is_device_action(action),
    ensures
        linux_input_of(action) == LinuxInput::Ignored(Skip::DeviceAction),
        macos_input_of(action) == MacInput::Ignored(Skip::DeviceAction),
        windows_input_of(action) == WindowsInput::Ignored(Skip::DeviceAction),
{
}

/// The macOS window-manager actions (Mission Control, App Exposé, Show
/// Desktop, Launchpad) go to the Dock on macOS, are skipped on Linux, where
/// the compositor shortcut varies, and become a chord with the Windows key on
/// Windows.
pub proof fn lemma_window_manager_actions(action: Action)
    requires
        is_window_manager_action(action),
    ensures
        macos_input_of(action) is Dock,
        linux_input_of(action) == LinuxInput::Ignored(Skip::NoEquivalent),
        windows_input_of(action) matches WindowsInput::Key(chord) && (chord.meta
            || chord.key == crate::windows::VK_LWIN),
{
}

/// The suppressing action produces nothing, silently, on every platform.
pub proof fn lemma_no_op_injects_nothing()
    ensures
        linux_input_of(Action::NoOp) == LinuxInput::Nothing,
        macos_input_of(Action::NoOp) == MacInput::Nothing,
        windows_input_of(Action::NoOp) == WindowsInput::Nothing,
{
}

/// A custom shortcut whose key is the modifier-only placeholder 0 never fires
/// bare modifier presses: every platform drops it.
pub proof fn lemma_placeholder_shortcut_never_fires(combo: KeyCombo)
    requires
        combo.key_code == 0,
    ensures
        linux_input_of(Action::CustomShortcut(combo)) == LinuxInput::Ignored(Skip::EmptyShortcut),
        macos_input_of(Action::CustomShortcut(combo)) == MacInput::Ignored(Skip::EmptyShortcut),
        windows_input_of(Action::CustomShortcut(combo)) == WindowsInput::Ignored(
            Skip::EmptyShortcut,
        ),
{
}

/// A recorded shortcut whose key exists on Linux and Windows fires, on both,
/// that key with the same modifiers: Control when Command or Control was
/// held, Shift for Shift, Alt for Option, and never the Super/Windows key.
pub proof fn lemma_shortcut_modifiers_agree_across_platforms(combo: KeyCombo)
    requires
        combo.key_code != 0,
        linux_key_of(combo.key_code) is Some,
        windows_vk_of(combo.key_code) is Some,
    ensures
        linux_input_of(Action::CustomShortcut(combo)) == LinuxInput::Key(
            translated_chord(combo, linux_key_of(combo.key_code)->0),
        ),
        windows_input_of(Action::CustomShortcut(combo)) == WindowsInput::Key(
            translated_chord(combo, windows_vk_of(combo.key_code)->0),
        ),
        translated_chord(combo, 0).ctrl == (combo.has_cmd() || combo.has_ctrl()),
        !translated_chord(combo, 0).meta,
{
}

/// On Linux an editing or tab action fires exactly what its macOS chord
/// fires when recorded as a custom shortcut: every recorded chord that gives
/// the same macOS event as the action gives the same Linux event too.
pub proof fn lemma_linux_editing_matches_recorded_macos_chord(action: Action, combo: KeyCombo)
    requires
        is_editing_action(action),
        macos_input_of(Action::CustomShortcut(combo)) == macos_input_of(action),
    ensures
        linux_input_of(Action::CustomShortcut(combo)) == linux_input_of(action),
{
}

/// The same holds on Windows for every editing and tab action but Redo,
/// which Windows binds to Ctrl+Y rather than the translated ⌘⇧Z.
pub proof fn lemma_windows_editing_matches_recorded_macos_chord(action: Action, combo: KeyCombo)
    requires
        is_editing_action(action),
        action != Action::Redo,
        macos_input_of(Action::CustomShortcut(combo)) == macos_input_of(action),
    ensures
        windows_input_of(Action::CustomShortcut(combo)) == windows_input_of(action),
{
}

/// On Linux opposite scroll actions turn the same wheel by opposite amounts:
/// up/down the vertical wheel, left/right the horizontal one.
pub proof fn lemma_linux_scrolls_are_opposite()
    ensures
        linux_input_of(Action::ScrollUp) matches LinuxInput::Scroll(axis_up, up)
            && linux_input_of(Action::ScrollDown) matches LinuxInput::Scroll(axis_down, down)
            && axis_up == REL_WHEEL && axis_down == REL_WHEEL && down == -up && up > 0,
        linux_input_of(Action::HorizontalScrollRight) matches LinuxInput::Scroll(axis_r, right)
            && linux_input_of(Action::HorizontalScrollLeft) matches LinuxInput::Scroll(axis_l, left)
            && axis_r == REL_HWHEEL && axis_l == REL_HWHEEL && left == -right && right > 0,
{
}

} // verus!
