use openlogi_inject::detail::{
    ScrollSettings, StatusTone, decimal_text, description_rows, header_badge,
    scroll_settings_or_default, status_badge,
};
use openlogi_inject::detail::battery_percent_caption;
use openlogi_inject::detail::{header_title, shows_tab_strip};
use openlogi_inject::detail::{ConfigCounts, configuration_summary};
use openlogi_inject::detail::{invert_toggle, scrolling_description};
use openlogi_inject::detail::{
    BatteryStatus, DetailTab, active_tab_index, battery_bar_percent, battery_status_label, tab_at,
};
use openlogi_inject::device_path::action_device_path;
use openlogi_inject::widgets::{
    BatteryColor, DeviceKind, DeviceRoute, DeviceTransports, battery_color, connection_icon_path,
    kind_label, route_label,
};

#[test]
fn connection_icon_matches_route() {
    let bolt = DeviceRoute::Bolt {
        receiver_uid: "r".into(),
        slot: 1,
    };
    let uni = DeviceRoute::Unifying {
        receiver_uid: "r".into(),
        slot: 1,
    };
    let direct = DeviceRoute::Direct {
        vendor_id: 0x046d,
        product_id: 0xb019,
    };
    let wired = DeviceTransports {
        usb: true,
        ..DeviceTransports::default()
    };
    let bt = DeviceTransports {
        usb: true,
        bluetooth: true,
        ..DeviceTransports::default()
    };
    let btle = DeviceTransports {
        btle: true,
        ..DeviceTransports::default()
    };
    assert_eq!(
        connection_icon_path(Some(&bolt), None),
        "action-icons/bolt.svg"
    );
    assert_eq!(
        connection_icon_path(Some(&uni), None),
        "action-icons/unifying.svg"
    );
    assert_eq!(
        connection_icon_path(Some(&direct), Some(&wired)),
        "action-icons/usb.svg"
    );
    let equad_only = DeviceTransports {
        equad: true,
        ..DeviceTransports::default()
    };
    assert_eq!(
        connection_icon_path(Some(&direct), Some(&equad_only)),
        "action-icons/usb.svg"
    );
    assert_eq!(
        connection_icon_path(Some(&direct), Some(&DeviceTransports::default())),
        "action-icons/bluetooth.svg"
    );
    assert_eq!(
        connection_icon_path(Some(&direct), Some(&bt)),
        "action-icons/bluetooth.svg"
    );
    assert_eq!(
        connection_icon_path(Some(&direct), Some(&btle)),
        "action-icons/bluetooth.svg"
    );
    assert_eq!(
        connection_icon_path(Some(&direct), None),
        "action-icons/bluetooth.svg"
    );
    assert_eq!(
        connection_icon_path(None, None),
        "action-icons/bluetooth.svg"
    );
}

#[test]
fn receiver_glyph_ignores_transports_and_no_route_is_bluetooth() {
    let bolt = DeviceRoute::Bolt { receiver_uid: "r".into(), slot: 2 };
    let wired = DeviceTransports { usb: true, ..DeviceTransports::default() };
    assert_eq!(connection_icon_path(Some(&bolt), Some(&wired)), "action-icons/bolt.svg");
    // A card with no route falls back to Bluetooth whatever its transports.
    assert_eq!(connection_icon_path(None, Some(&wired)), "action-icons/bluetooth.svg");
}

#[test]
fn route_and_kind_labels() {
    let uni = DeviceRoute::Unifying { receiver_uid: "u".into(), slot: 3 };
    let direct = DeviceRoute::Direct { vendor_id: 1, product_id: 2 };
    assert_eq!(route_label(Some(&uni)), "Unifying receiver");
    assert_eq!(route_label(Some(&direct)), "Direct connection");
    assert_eq!(route_label(None), "Unavailable");
    assert_eq!(kind_label(DeviceKind::Trackball), "Trackball");
    assert_eq!(kind_label(DeviceKind::Unknown), "Device");
}

#[test]
fn battery_colour_bands() {
    assert_eq!(battery_color(0), BatteryColor::Alert);
    assert_eq!(battery_color(20), BatteryColor::Alert);
    assert_eq!(battery_color(21), BatteryColor::Connecting);
    assert_eq!(battery_color(50), BatteryColor::Connecting);
    assert_eq!(battery_color(51), BatteryColor::Connected);
    assert_eq!(battery_color(255), BatteryColor::Connected);
    assert_eq!(battery_color(3).fixed_rgb(), Some(0x00ef_4444));
    assert_eq!(battery_color(90).fixed_rgb(), None);
}

#[test]
fn battery_caption_and_bar() {
    assert_eq!(battery_status_label(BatteryStatus::ChargingSlow), "Charging");
    assert_eq!(battery_status_label(BatteryStatus::Full), "Full");
    assert_eq!(battery_status_label(BatteryStatus::Error), "Battery error");
    assert_eq!(battery_status_label(BatteryStatus::Unknown), "Battery");
    assert_eq!(battery_bar_percent(0), 1);
    assert_eq!(battery_bar_percent(57), 57);
    assert_eq!(battery_bar_percent(180), 100);
}

#[test]
fn selected_tab_round_trips() {
    let tabs = [DetailTab::Buttons, DetailTab::Pointer, DetailTab::Device];
    assert_eq!(active_tab_index(&tabs, DetailTab::Pointer), 1);
    assert_eq!(tab_at(&tabs, 1), DetailTab::Pointer);
    assert_eq!(active_tab_index(&tabs, DetailTab::Lighting), 0);
    assert_eq!(tab_at(&tabs, 7), DetailTab::Device);
    let repeated = [DetailTab::Lighting, DetailTab::Lighting];
    assert_eq!(active_tab_index(&repeated, DetailTab::Lighting), 0);
}

#[test]
fn device_path_is_first_listed_node() {
    assert_eq!(action_device_path(Vec::new()), None);
    assert_eq!(
        action_device_path(vec!["/dev/input/event7".to_string(), "/dev/input/event9".to_string()]),
        Some("/dev/input/event7".to_string())
    );
}

#[test]
fn battery_percent_caption_is_decimal_with_percent_sign() {
    assert_eq!(battery_percent_caption(0), "0%");
    assert_eq!(battery_percent_caption(7), "7%");
    assert_eq!(battery_percent_caption(42), "42%");
    assert_eq!(battery_percent_caption(100), "100%");
    assert_eq!(battery_percent_caption(255), "255%");
}

#[test]
fn header_strip_and_title() {
    assert!(!shows_tab_strip(1));
    assert!(!shows_tab_strip(0));
    assert!(shows_tab_strip(2));
    assert_eq!(header_title(None), "Device");
    assert_eq!(header_title(Some("MX Master 3S")), "MX Master 3S");
}

#[test]
fn configuration_card_rows() {
    let none = configuration_summary(None);
    assert_eq!(none.active_profile, "Default profile");
    assert_eq!((none.button_bindings, none.gesture_bindings, none.dpi_presets), (0, 0, 0));
    let app = configuration_summary(Some(ConfigCounts {
        button_bindings: 5,
        gesture_bindings: 2,
        dpi_presets: 3,
        app_bundle: Some("com.apple.Safari".to_string()),
    }));
    assert_eq!(app.active_profile, "com.apple.Safari");
    assert_eq!((app.button_bindings, app.gesture_bindings, app.dpi_presets), (5, 2, 3));
    let default = configuration_summary(Some(ConfigCounts {
        button_bindings: 1,
        gesture_bindings: 0,
        dpi_presets: 4,
        app_bundle: None,
    }));
    assert_eq!(default.active_profile, "Default profile");
    assert_eq!(default.dpi_presets, 4);
}

#[test]
fn scroll_inversion_card() {
    assert_eq!(
        scrolling_description(true),
        "Reverse this mouse's scroll wheel. Your trackpad keeps the system scroll direction."
    );
    assert_eq!(
        scrolling_description(false),
        "This device does not report native HID++ scroll inversion support."
    );
    let off = invert_toggle(false, true);
    assert_eq!((off.label, off.selected, off.click_commits), ("Off", false, Some(true)));
    let on = invert_toggle(true, true);
    assert_eq!((on.label, on.selected, on.click_commits), ("On", true, Some(false)));
    let inert = invert_toggle(true, false);
    assert_eq!((inert.label, inert.selected, inert.click_commits), ("Unavailable", false, None));
}

#[test]
fn status_badges() {
    let on = status_badge(true);
    assert_eq!((on.label, on.tone), ("Connected", StatusTone::Connected));
    let off = status_badge(false);
    assert_eq!((off.label, off.tone), ("Offline", StatusTone::Offline));
    assert!(header_badge(None).is_none());
    assert_eq!(header_badge(Some(false)).map(|b| b.label), Some("Offline"));
}

#[test]
fn scrolling_card_defaults_without_state() {
    assert_eq!(
        scroll_settings_or_default(None),
        ScrollSettings { inverted: false, supported: false }
    );
    let s = ScrollSettings { inverted: true, supported: true };
    assert_eq!(scroll_settings_or_default(Some(s)), s);
}

#[test]
fn description_rows_include_serial_only_when_present() {
    let bolt = DeviceRoute::Bolt { receiver_uid: "r".into(), slot: 2 };
    let rows = description_rows(Some(&bolt), 2, "mx-master".to_string(), None);
    let pairs: Vec<(&str, String)> = rows.into_iter().map(|r| (r.label, r.value)).collect();
    assert_eq!(
        pairs,
        vec![
            ("Connection", "Bolt receiver".to_string()),
            ("Slot", "2".to_string()),
            ("Device key", "mx-master".to_string()),
        ]
    );
    let rows = description_rows(None, 13, "k".to_string(), Some("ABC123".to_string()));
    assert_eq!(rows.len(), 4);
    assert_eq!((rows[0].value.as_str(), rows[1].value.as_str()), ("Unavailable", "13"));
    assert_eq!((rows[3].label, rows[3].value.as_str()), ("Serial", "ABC123"));
    assert_eq!(decimal_text(200), "200");
}
