use evdev::KeyCode;
use openlogi_inject::action::KeyCombo;
use openlogi_inject::linux_keys::{macos_vk_to_linux, modifiers_to_keycodes};
use openlogi_inject::windows_keys::mac_virtual_key_to_windows;

fn linux_keys(codes: Vec<u16>) -> Vec<KeyCode> {
    codes.into_iter().map(KeyCode::new).collect()
}

fn linux_key(key_code: u16) -> Option<KeyCode> {
    macos_vk_to_linux(key_code).map(KeyCode::new)
}

#[test]
fn custom_shortcut_keycodes_map_across_categories() {
    assert_eq!(mac_virtual_key_to_windows(0x00), Some(0x41)); // A → VK_A
    assert_eq!(mac_virtual_key_to_windows(0x12), Some(0x31)); // 1 → VK_1
    assert_eq!(mac_virtual_key_to_windows(0x7A), Some(0x70)); // F1 → VK_F1
    assert_eq!(mac_virtual_key_to_windows(0x7B), Some(0x25)); // LeftArrow → VK_LEFT
    assert_eq!(mac_virtual_key_to_windows(0x31), Some(0x20)); // Space → VK_SPACE
    assert_eq!(mac_virtual_key_to_windows(0x29), Some(0xBA)); // ; → VK_OEM_1
    assert_eq!(mac_virtual_key_to_windows(0x37), None); // Command is a modifier, not a key
}

#[test]
fn mod_cmd_alone_maps_to_ctrl() {
    assert_eq!(
        linux_keys(modifiers_to_keycodes(KeyCombo::MOD_CMD)),
        vec![KeyCode::KEY_LEFTCTRL]
    );
}

#[test]
fn mod_ctrl_alone_maps_to_ctrl() {
    assert_eq!(
        linux_keys(modifiers_to_keycodes(KeyCombo::MOD_CTRL)),
        vec![KeyCode::KEY_LEFTCTRL]
    );
}

#[test]
fn mod_cmd_and_ctrl_together_produce_single_ctrl() {
    assert_eq!(
        linux_keys(modifiers_to_keycodes(KeyCombo::MOD_CMD | KeyCombo::MOD_CTRL)),
        vec![KeyCode::KEY_LEFTCTRL]
    );
}

#[test]
fn all_modifiers_produce_canonical_order() {
    let mods = linux_keys(modifiers_to_keycodes(
        KeyCombo::MOD_CMD | KeyCombo::MOD_SHIFT | KeyCombo::MOD_OPTION,
    ));
    assert_eq!(
        mods,
        vec![
            KeyCode::KEY_LEFTCTRL,
            KeyCode::KEY_LEFTSHIFT,
            KeyCode::KEY_LEFTALT
        ]
    );
}

#[test]
fn no_modifiers_produces_empty_vec() {
    assert!(modifiers_to_keycodes(0).is_empty());
}

#[test]
fn common_letters_map_correctly() {
    assert_eq!(linux_key(0x08), Some(KeyCode::KEY_C)); // kVK_ANSI_C
    assert_eq!(linux_key(0x09), Some(KeyCode::KEY_V)); // kVK_ANSI_V
    assert_eq!(linux_key(0x07), Some(KeyCode::KEY_X)); // kVK_ANSI_X
    assert_eq!(linux_key(0x00), Some(KeyCode::KEY_A)); // kVK_ANSI_A
    assert_eq!(linux_key(0x06), Some(KeyCode::KEY_Z)); // kVK_ANSI_Z
    assert_eq!(linux_key(0x0D), Some(KeyCode::KEY_W)); // kVK_ANSI_W
}

#[test]
fn digits_map_correctly() {
    assert_eq!(linux_key(0x12), Some(KeyCode::KEY_1)); // kVK_ANSI_1
    assert_eq!(linux_key(0x1D), Some(KeyCode::KEY_0)); // kVK_ANSI_0
}

#[test]
fn arrow_keys_map_correctly() {
    assert_eq!(linux_key(0x7B), Some(KeyCode::KEY_LEFT));
    assert_eq!(linux_key(0x7C), Some(KeyCode::KEY_RIGHT));
    assert_eq!(linux_key(0x7D), Some(KeyCode::KEY_DOWN));
    assert_eq!(linux_key(0x7E), Some(KeyCode::KEY_UP));
}

#[test]
fn function_keys_map_correctly() {
    assert_eq!(linux_key(0x7A), Some(KeyCode::KEY_F1)); // kVK_F1
    assert_eq!(linux_key(0x78), Some(KeyCode::KEY_F2)); // kVK_F2
    assert_eq!(linux_key(0x76), Some(KeyCode::KEY_F4)); // kVK_F4
    assert_eq!(linux_key(0x60), Some(KeyCode::KEY_F5)); // kVK_F5
    assert_eq!(linux_key(0x6F), Some(KeyCode::KEY_F12)); // kVK_F12
}

#[test]
fn nav_keys_map_correctly() {
    assert_eq!(linux_key(0x73), Some(KeyCode::KEY_HOME));
    assert_eq!(linux_key(0x77), Some(KeyCode::KEY_END));
    assert_eq!(linux_key(0x74), Some(KeyCode::KEY_PAGEUP));
    assert_eq!(linux_key(0x79), Some(KeyCode::KEY_PAGEDOWN));
    assert_eq!(linux_key(0x75), Some(KeyCode::KEY_DELETE));
}

#[test]
fn brackets_follow_ansi_layout() {
    assert_eq!(linux_key(0x21), Some(KeyCode::KEY_LEFTBRACE));
    assert_eq!(linux_key(0x1E), Some(KeyCode::KEY_RIGHTBRACE));
}

#[test]
fn unmapped_code_returns_none() {
    assert_eq!(linux_key(0xFF), None);
    assert_eq!(linux_key(0x34), None); // gap in the kVK table
}

// ── further cases ──────────────────────────────────────────────────────────

#[test]
fn windows_table_spans_letters_digits_and_f_keys() {
    assert_eq!(mac_virtual_key_to_windows(0x06), Some(0x5A)); // Z → VK_Z
    assert_eq!(mac_virtual_key_to_windows(0x1D), Some(0x30)); // 0 → VK_0
    assert_eq!(mac_virtual_key_to_windows(0x5A), Some(0x83)); // F20 → VK_F20
    assert_eq!(mac_virtual_key_to_windows(0x6F), Some(0x7B)); // F12 → VK_F12
    assert_eq!(mac_virtual_key_to_windows(0x24), Some(0x0D)); // Return → VK_RETURN
    assert_eq!(mac_virtual_key_to_windows(0x32), Some(0xC0)); // ` → VK_OEM_3
}

#[test]
fn windows_table_skips_modifiers_keypad_and_media() {
    for code in [0x36u16, 0x37, 0x38, 0x39, 0x3A, 0x3B, 0x3C, 0x3D, 0x3E, 0x3F] {
        assert_eq!(mac_virtual_key_to_windows(code), None);
    }
    for code in [0x41u16, 0x43, 0x45, 0x47, 0x4B, 0x4C, 0x4E, 0x51, 0x59, 0x5B, 0x5C] {
        assert_eq!(mac_virtual_key_to_windows(code), None);
    }
    for code in [0x48u16, 0x49, 0x4A, 0xFFFF] {
        assert_eq!(mac_virtual_key_to_windows(code), None);
    }
}

#[test]
fn linux_table_skips_modifiers_keypad_and_media() {
    for code in [0x37u16, 0x3B, 0x3F, 0x41, 0x52, 0x5C, 0x48, 0x4A] {
        assert_eq!(linux_key(code), None);
    }
    assert_eq!(linux_key(0x5A), Some(KeyCode::KEY_F20));
    assert_eq!(linux_key(0x35), Some(KeyCode::KEY_ESC));
    assert_eq!(linux_key(0x32), Some(KeyCode::KEY_GRAVE));
}

#[test]
fn translated_keys_stay_distinct() {
    let mut windows = Vec::new();
    let mut linux = Vec::new();
    for code in 0u16..=0x7F {
        if let Some(vk) = mac_virtual_key_to_windows(code) {
            windows.push(vk);
        }
        if let Some(key) = macos_vk_to_linux(code) {
            linux.push(key);
        }
    }
    let n_windows = windows.len();
    let n_linux = linux.len();
    windows.sort_unstable();
    windows.dedup();
    linux.sort_unstable();
    linux.dedup();
    assert_eq!(windows.len(), n_windows);
    assert_eq!(linux.len(), n_linux);
}

#[test]
fn every_windows_letter_digit_and_f_key_is_reachable() {
    let targets: Vec<u16> = (0x30u16..=0x39).chain(0x41..=0x5A).chain(0x70..=0x83).collect();
    for vk in targets {
        assert!((0u16..=0x7F).any(|code| mac_virtual_key_to_windows(code) == Some(vk)));
    }
}

#[test]
fn option_and_shift_map_to_alt_and_shift() {
    assert_eq!(
        linux_keys(modifiers_to_keycodes(KeyCombo::MOD_OPTION)),
        vec![KeyCode::KEY_LEFTALT]
    );
    assert_eq!(
        linux_keys(modifiers_to_keycodes(KeyCombo::MOD_SHIFT | KeyCombo::MOD_CTRL)),
        vec![KeyCode::KEY_LEFTCTRL, KeyCode::KEY_LEFTSHIFT]
    );
}
