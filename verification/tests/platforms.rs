use openlogi_inject::macos::{ScrollEvent, horizontal_scroll_event};
use openlogi_inject::windows::wheel_deltas;
use openlogi_inject::action::chord_key_events;
use openlogi_inject::macos::{SYNTHETIC_EVENT_USER_DATA, event_user_data, scroll_wheel_deltas};
use openlogi_inject::linux::horizontal_scroll_input;
use evdev::{KeyCode, RelativeAxisCode};
use openlogi_inject::action::{Action, Chord, KeyCombo, ScrollDirection, Skip, translate_chord};
use openlogi_inject::linux::{LinuxInput, MprisCommand, linux_input_for, lock_screen_fallback};
use openlogi_inject::linux_keys::chord_modifier_keys;
use openlogi_inject::macos::{
    DockAction, FLAG_ALTERNATE, FLAG_COMMAND, FLAG_CONTROL, FLAG_SHIFT, MacButton, MacInput,
    MediaKey, macos_input_for, shortcut_flags,
};
use openlogi_inject::windows::{WinButton, WindowsInput, chord_modifier_vks, windows_input_for};

fn chord(ctrl: bool, shift: bool, alt: bool, meta: bool, key: u16) -> Chord {
    Chord { ctrl, shift, alt, meta, key }
}

fn combo(key_code: u16, modifiers: u8) -> KeyCombo {
    KeyCombo { key_code, modifiers }
}

const DEVICE_ACTIONS: [Action; 3] = [
    Action::CycleDpiPresets,
    Action::SetDpiPreset(2),
    Action::ToggleSmartShift,
];

#[test]
fn linux_editing_uses_control() {
    assert_eq!(
        linux_input_for(&Action::Copy),
        LinuxInput::Key(chord(true, false, false, false, KeyCode::KEY_C.code()))
    );
    assert_eq!(
        linux_input_for(&Action::Redo),
        LinuxInput::Key(chord(true, true, false, false, KeyCode::KEY_Z.code()))
    );
    assert_eq!(
        linux_input_for(&Action::PrevTab),
        LinuxInput::Key(chord(true, true, false, false, KeyCode::KEY_TAB.code()))
    );
}

#[test]
fn linux_navigation_and_desktops() {
    assert_eq!(
        linux_input_for(&Action::BrowserBack),
        LinuxInput::Key(chord(false, false, true, false, KeyCode::KEY_LEFT.code()))
    );
    assert_eq!(
        linux_input_for(&Action::NextDesktop),
        LinuxInput::Key(chord(true, false, true, false, KeyCode::KEY_RIGHT.code()))
    );
    assert_eq!(
        linux_input_for(&Action::MissionControl),
        LinuxInput::Ignored(Skip::NoEquivalent)
    );
    assert_eq!(
        linux_input_for(&Action::LaunchpadShow),
        LinuxInput::Ignored(Skip::NoEquivalent)
    );
}

#[test]
fn linux_clicks_media_and_system() {
    assert_eq!(linux_input_for(&Action::MouseBack), LinuxInput::Click(KeyCode::BTN_SIDE.code()));
    assert_eq!(linux_input_for(&Action::MiddleClick), LinuxInput::Click(KeyCode::BTN_MIDDLE.code()));
    assert_eq!(linux_input_for(&Action::NextTrack), LinuxInput::Mpris(MprisCommand::Next));
    assert_eq!(linux_input_for(&Action::LockScreen), LinuxInput::LockScreen);
    assert_eq!(
        linux_input_for(&Action::CaptureRegion),
        LinuxInput::Key(chord(false, false, false, false, KeyCode::KEY_SYSRQ.code()))
    );
    assert_eq!(
        linux_input_for(&Action::VolumeUp),
        LinuxInput::Key(chord(false, false, false, false, KeyCode::KEY_VOLUMEUP.code()))
    );
    assert_eq!(MprisCommand::PlayPause.method_name(), "PlayPause");
    assert_eq!(MprisCommand::Next.method_name(), "Next");
    assert_eq!(MprisCommand::Previous.method_name(), "Previous");
    assert_eq!(
        lock_screen_fallback(),
        chord(false, false, false, true, KeyCode::KEY_L.code())
    );
}

#[test]
fn linux_scrolls_three_detents() {
    let wheel = RelativeAxisCode::REL_WHEEL.0;
    let hwheel = RelativeAxisCode::REL_HWHEEL.0;
    assert_eq!(linux_input_for(&Action::ScrollUp), LinuxInput::Scroll(wheel, 3));
    assert_eq!(linux_input_for(&Action::ScrollDown), LinuxInput::Scroll(wheel, -3));
    assert_eq!(linux_input_for(&Action::HorizontalScrollLeft), LinuxInput::Scroll(hwheel, -3));
    assert_eq!(linux_input_for(&Action::HorizontalScrollRight), LinuxInput::Scroll(hwheel, 3));
}

#[test]
fn linux_custom_shortcuts() {
    // ⌘⇧T recorded on a Mac fires Ctrl+Shift+T.
    assert_eq!(
        linux_input_for(&Action::CustomShortcut(combo(0x11, KeyCombo::MOD_CMD | KeyCombo::MOD_SHIFT))),
        LinuxInput::Key(chord(true, true, false, false, KeyCode::KEY_T.code()))
    );
    assert_eq!(
        linux_input_for(&Action::CustomShortcut(combo(0, KeyCombo::MOD_CMD))),
        LinuxInput::Ignored(Skip::EmptyShortcut)
    );
    assert_eq!(
        linux_input_for(&Action::CustomShortcut(combo(0x48, 0))),
        LinuxInput::Ignored(Skip::UnmappedKey)
    );
}

#[test]
fn linux_chord_modifiers_press_in_order() {
    let keys = chord_modifier_keys(&chord(true, true, true, true, KeyCode::KEY_A.code()));
    assert_eq!(
        keys,
        vec![
            KeyCode::KEY_LEFTCTRL.code(),
            KeyCode::KEY_LEFTSHIFT.code(),
            KeyCode::KEY_LEFTALT.code(),
            KeyCode::KEY_LEFTMETA.code()
        ]
    );
    assert!(chord_modifier_keys(&chord(false, false, false, false, 1)).is_empty());
}

#[test]
fn macos_events() {
    assert_eq!(macos_input_for(&Action::Copy), MacInput::Key(0x08, FLAG_COMMAND));
    assert_eq!(macos_input_for(&Action::Redo), MacInput::Key(0x06, FLAG_COMMAND | FLAG_SHIFT));
    assert_eq!(macos_input_for(&Action::BrowserBack), MacInput::Key(0x21, FLAG_COMMAND));
    assert_eq!(macos_input_for(&Action::NextTab), MacInput::Key(0x30, FLAG_CONTROL));
    assert_eq!(macos_input_for(&Action::LockScreen), MacInput::Key(0x0C, FLAG_COMMAND | FLAG_CONTROL));
    assert_eq!(macos_input_for(&Action::Screenshot), MacInput::Key(0x14, FLAG_COMMAND | FLAG_SHIFT));
    assert_eq!(
        macos_input_for(&Action::CaptureRegion),
        MacInput::Key(0x15, FLAG_COMMAND | FLAG_SHIFT | FLAG_CONTROL)
    );
    assert_eq!(macos_input_for(&Action::RightClick), MacInput::Click(MacButton::Right));
    assert_eq!(macos_input_for(&Action::MouseForward), MacInput::OtherButton(4));
    assert_eq!(macos_input_for(&Action::ShowDesktop), MacInput::Dock(DockAction::ShowDesktop));
    assert_eq!(macos_input_for(&Action::MuteVolume), MacInput::Media(MediaKey::Mute));
    assert_eq!(macos_input_for(&Action::ScrollUp), MacInput::Scroll(ScrollDirection::Up));
}

#[test]
fn macos_custom_shortcut_flags() {
    assert_eq!(shortcut_flags(&combo(0x01, 0)), 0);
    assert_eq!(
        shortcut_flags(&combo(0x01, KeyCombo::MOD_CMD | KeyCombo::MOD_OPTION)),
        FLAG_COMMAND | FLAG_ALTERNATE
    );
    assert_eq!(
        shortcut_flags(&combo(0x01, 0x0F)),
        FLAG_COMMAND | FLAG_SHIFT | FLAG_CONTROL | FLAG_ALTERNATE
    );
    assert_eq!(
        macos_input_for(&Action::CustomShortcut(combo(0x01, KeyCombo::MOD_CTRL))),
        MacInput::Key(0x01, FLAG_CONTROL)
    );
    assert_eq!(
        macos_input_for(&Action::CustomShortcut(combo(0, KeyCombo::MOD_CTRL))),
        MacInput::Ignored(Skip::EmptyShortcut)
    );
}

#[test]
fn windows_events() {
    // MissionControl → Win+Tab, ShowDesktop → Win+D.
    assert_eq!(windows_input_for(&Action::MissionControl), WindowsInput::Key(chord(false, false, false, true, 0x09)));
    assert_eq!(windows_input_for(&Action::AppExpose), WindowsInput::Key(chord(false, false, false, true, 0x09)));
    assert_eq!(windows_input_for(&Action::ShowDesktop), WindowsInput::Key(chord(false, false, false, true, 0x44)));
    assert_eq!(windows_input_for(&Action::Redo), WindowsInput::Key(chord(true, false, false, false, 0x59)));
    assert_eq!(windows_input_for(&Action::PreviousDesktop), WindowsInput::Key(chord(true, false, false, true, 0x25)));
    assert_eq!(windows_input_for(&Action::LaunchpadShow), WindowsInput::Key(chord(false, false, false, false, 0x5B)));
    assert_eq!(windows_input_for(&Action::Screenshot), WindowsInput::Key(chord(false, true, false, true, 0x53)));
    assert_eq!(windows_input_for(&Action::PlayPause), WindowsInput::Key(chord(false, false, false, false, 0xB3)));
    assert_eq!(windows_input_for(&Action::MouseBack), WindowsInput::Click(WinButton::Back));
    assert_eq!(windows_input_for(&Action::HorizontalScrollLeft), WindowsInput::Scroll(ScrollDirection::Left));
}

#[test]
fn windows_custom_shortcuts() {
    // ⌘C recorded on a Mac fires Ctrl+C; the key goes through the Windows table.
    assert_eq!(
        windows_input_for(&Action::CustomShortcut(combo(0x08, KeyCombo::MOD_CMD))),
        WindowsInput::Key(chord(true, false, false, false, 0x43))
    );
    assert_eq!(
        windows_input_for(&Action::CustomShortcut(combo(0x7A, KeyCombo::MOD_OPTION))),
        WindowsInput::Key(chord(false, false, true, false, 0x70))
    );
    assert_eq!(
        windows_input_for(&Action::CustomShortcut(combo(0x37, 0))),
        WindowsInput::Ignored(Skip::UnmappedKey)
    );
    assert_eq!(
        windows_input_for(&Action::CustomShortcut(combo(0, KeyCombo::MOD_SHIFT))),
        WindowsInput::Ignored(Skip::EmptyShortcut)
    );
    assert_eq!(
        chord_modifier_vks(&chord(true, true, true, true, 0x41)),
        vec![0x5B, 0x11, 0x10, 0x12]
    );
}

#[test]
fn device_actions_and_no_op_inject_nothing_anywhere() {
    for action in DEVICE_ACTIONS {
        assert_eq!(linux_input_for(&action), LinuxInput::Ignored(Skip::DeviceAction));
        assert_eq!(macos_input_for(&action), MacInput::Ignored(Skip::DeviceAction));
        assert_eq!(windows_input_for(&action), WindowsInput::Ignored(Skip::DeviceAction));
    }
    assert_eq!(linux_input_for(&Action::NoOp), LinuxInput::Nothing);
    assert_eq!(macos_input_for(&Action::NoOp), MacInput::Nothing);
    assert_eq!(windows_input_for(&Action::NoOp), WindowsInput::Nothing);
}

#[test]
fn recorded_macos_chord_of_an_editing_action_matches_it() {
    // ⌘⇧Z recorded as a shortcut behaves like Redo on macOS and Linux.
    let redo = Action::CustomShortcut(combo(0x06, KeyCombo::MOD_CMD | KeyCombo::MOD_SHIFT));
    assert_eq!(macos_input_for(&redo), macos_input_for(&Action::Redo));
    assert_eq!(linux_input_for(&redo), linux_input_for(&Action::Redo));
    // ⌘S behaves like Save on all three.
    let save = Action::CustomShortcut(combo(0x01, KeyCombo::MOD_CMD));
    assert_eq!(macos_input_for(&save), macos_input_for(&Action::Save));
    assert_eq!(linux_input_for(&save), linux_input_for(&Action::Save));
    assert_eq!(windows_input_for(&save), windows_input_for(&Action::Save));
}

#[test]
fn translated_chord_merges_command_into_control() {
    assert_eq!(
        translate_chord(combo(0x08, KeyCombo::MOD_CMD | KeyCombo::MOD_CTRL | KeyCombo::MOD_OPTION), 7),
        chord(true, false, true, false, 7)
    );
}

#[test]
fn macos_mouse_events_carry_the_marker() {
    assert_eq!(SYNTHETIC_EVENT_USER_DATA, 0x4F4C_4749);
    for action in [
        Action::LeftClick,
        Action::RightClick,
        Action::MiddleClick,
        Action::MouseBack,
        Action::MouseForward,
    ] {
        assert_eq!(event_user_data(&macos_input_for(&action)), Some(SYNTHETIC_EVENT_USER_DATA));
    }
    assert_eq!(event_user_data(&macos_input_for(&Action::Copy)), None);
    assert_eq!(scroll_wheel_deltas(ScrollDirection::Up), (3, 0));
    assert_eq!(scroll_wheel_deltas(ScrollDirection::Right), (0, -3));
}

#[test]
fn linux_horizontal_scroll_is_unscaled() {
    let hwheel = RelativeAxisCode::REL_HWHEEL.0;
    assert_eq!(horizontal_scroll_input(7), LinuxInput::Scroll(hwheel, 7));
    assert_eq!(horizontal_scroll_input(-1), LinuxInput::Scroll(hwheel, -1));
}

#[test]
fn macos_scroll_events_are_marked_too() {
    for action in [
        Action::ScrollUp,
        Action::ScrollDown,
        Action::HorizontalScrollLeft,
        Action::HorizontalScrollRight,
    ] {
        assert_eq!(event_user_data(&macos_input_for(&action)), Some(SYNTHETIC_EVENT_USER_DATA));
    }
    let thumb = horizontal_scroll_event(-4);
    assert_eq!(thumb, ScrollEvent { wheel1: 0, wheel2: -4, user_data: 0x4F4C_4749 });
    assert_eq!(event_user_data(&macos_input_for(&Action::MissionControl)), None);
}

#[test]
fn windows_scrolls_three_notches() {
    assert_eq!(wheel_deltas(ScrollDirection::Up), (360, 0));
    assert_eq!(wheel_deltas(ScrollDirection::Down), (-360, 0));
    assert_eq!(wheel_deltas(ScrollDirection::Left), (0, -360));
    assert_eq!(wheel_deltas(ScrollDirection::Right), (0, 360));
}

#[test]
fn chord_events_press_in_order_and_release_in_reverse() {
    let events = chord_key_events(&vec![29, 42], 46);
    assert_eq!(
        events,
        vec![(29, true), (42, true), (46, true), (46, false), (42, false), (29, false)]
    );
    assert_eq!(chord_key_events(&Vec::new(), 99), vec![(99, true), (99, false)]);
}
