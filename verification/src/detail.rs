//! The choices behind the device-detail screen: which section tab is shown
//! as selected, which tab a click selects, and how the battery is summarised.
use vstd::prelude::*;
use vstd::string::StringExecFns;
use crate::widgets::{DeviceRoute, route_label, route_label_text};

verus! {

/// A section of the device-detail screen.
#[derive(Clone, Copy, Debug, PartialEq, Eq, Structural)]
pub enum DetailTab {
    Buttons,
    Pointer,
    Lighting,
    Device,
}

/// Whether `tabs` holds `active`.
pub open spec fn contains_tab(tabs: Seq<DetailTab>, active: DetailTab) -> bool {
    exists|i: int| 0 <= i < tabs.len() && tabs[i] == active
}

/// Whether `ix` is the index the segmented control marks as selected: the
/// first position of the active tab, or 0 when it is not among the tabs.
pub open spec fn is_selected_index(tabs: Seq<DetailTab>, active: DetailTab, ix: int) -> bool {
    if contains_tab(tabs, active) {
        &&& 0 <= ix < tabs.len()
        &&& tabs[ix] == active
        &&& forall|j: int| 0 <= j < ix ==> tabs[j] != active
    } else {
        ix == 0
    }
}

/// The tab a click on segment `ix` selects: the tab at that position, or the
/// device-info tab when there is none.
pub open spec fn clicked_tab(order: Seq<DetailTab>, ix: int) -> DetailTab {
    if 0 <= ix < order.len() {
        order[ix]
    } else {
        DetailTab::Device
    }
}

/// The index the segmented control marks as selected.
pub fn active_tab_index(tabs: &[DetailTab], active: DetailTab) -> (r: usize)
    ensures
        is_selected_index(tabs@, active, r as int),
{
    let mut i: usize = 0;
    while i < tabs.len()
        invariant
            i <= tabs@.len(),
            forall|j: int| 0 <= j < i ==> tabs@[j] != active,
        decreases tabs@.len() - i,
    {
        if tabs[i] == active {
            return i;
        }
        i = i + 1;
    }
    0
}

/// The tab a click on segment `ix` selects.
pub fn tab_at(order: &[DetailTab], ix: usize) -> (r: DetailTab)
    ensures
        r == clicked_tab(order@, ix as int),
{
    if ix < order.len() {
        order[ix]
    } else {
        DetailTab::Device
    }
}

/// Clicking the segment that is marked selected selects the active tab
/// again, whenever the active tab is among the tabs.
pub proof fn lemma_selected_segment_round_trips(tabs: Seq<DetailTab>, active: DetailTab, ix: int)
    requires
        contains_tab(tabs, active),
        is_selected_index(tabs, active, ix),
    ensures
        clicked_tab(tabs, ix) == active,
{
}

/// How a battery is charging, as the device reports it.
#[derive(Clone, Copy, Debug, PartialEq, Eq, Structural)]
pub enum BatteryStatus {
    Discharging,
    Charging,
    ChargingSlow,
    Full,
    Error,
    Unknown,
}

/// The caption of a battery status.
pub open spec fn battery_status_text(status: BatteryStatus) -> Seq<char> {
    match status {
        BatteryStatus::Charging | BatteryStatus::ChargingSlow => "Charging"@,
        BatteryStatus::Full => "Full"@,
        BatteryStatus::Error => "Battery error"@,
        BatteryStatus::Discharging | BatteryStatus::Unknown => "Battery"@,
    }
}

/// The caption above the battery bar: "Charging" for either charging rate,
/// "Full", "Battery error", or plain "Battery".
pub fn battery_status_label(status: BatteryStatus) -> (r: &'static str)
    ensures
        r@ == battery_status_text(status),
{
    match status {
        BatteryStatus::Charging | BatteryStatus::ChargingSlow => "Charging",
        BatteryStatus::Full => "Full",
        BatteryStatus::Error => "Battery error",
        BatteryStatus::Discharging | BatteryStatus::Unknown => "Battery",
    }
}

/// Only a charging battery (at either rate) is captioned "Charging", only a
/// full one "Full", only a failing one "Battery error"; a discharging battery
/// or one of unknown status gets the plain "Battery".
pub proof fn lemma_battery_caption_by_status(status: BatteryStatus)
    ensures
        battery_status_text(status) == "Charging"@ <==> (status == BatteryStatus::Charging || status
            == BatteryStatus::ChargingSlow),
        battery_status_text(status) == "Full"@ <==> status == BatteryStatus::Full,
        battery_status_text(status) == "Battery error"@ <==> status == BatteryStatus::Error,
        battery_status_text(status) == "Battery"@ <==> (status == BatteryStatus::Discharging
            || status == BatteryStatus::Unknown),
{
    reveal_strlit("Charging");
    reveal_strlit("Full");
    reveal_strlit("Battery error");
    reveal_strlit("Battery");
    assert("Charging"@[0] != "Full"@[0]);
    assert("Charging"@[0] != "Battery error"@[0]);
    assert("Charging"@[0] != "Battery"@[0]);
    assert("Full"@[0] != "Battery error"@[0]);
    assert("Full"@[0] != "Battery"@[0]);
    assert("Battery error"@.len() != "Battery"@.len());
}

/// The filled share of the battery bar, in percent: the reported percentage
/// held to 1..=100, so an empty battery still shows a sliver.
pub fn battery_bar_percent(percentage: u8) -> (r: u8)
    ensures
        r == (if percentage < 1 {
            1
        } else if percentage > 100 {
            100
        } else {
            percentage
        }),
{
    if percentage < 1 {
        1
    } else if percentage > 100 {
        100
    } else {
        percentage
    }
}

/// The character of a decimal digit.
pub open spec fn digit_char(d: nat) -> char {
    (48 + d) as char
}

/// The decimal notation of a natural number, without leading zeros.
pub open spec fn decimal(n: nat) -> Seq<char>
    decreases n,
{
    if n < 10 {
        seq![digit_char(n)]
    } else {
        decimal(n / 10) + seq![digit_char(n % 10)]
    }
}

fn digit_text(d: u8) -> (r: &'static str)
    requires
        d < 10,
    ensures
        r@ == seq![digit_char(d as nat)],
{
    match d {
        0 => {
            proof {
                reveal_strlit("0");
            }
            "0"
        },
        1 => {
            proof {
                reveal_strlit("1");
            }
            "1"
        },
        2 => {
            proof {
                reveal_strlit("2");
            }
            "2"
        },
        3 => {
            proof {
                reveal_strlit("3");
            }
            "3"
        },
        4 => {
            proof {
                reveal_strlit("4");
            }
            "4"
        },
        5 => {
            proof {
                reveal_strlit("5");
            }
            "5"
        },
        6 => {
            proof {
                reveal_strlit("6");
            }
            "6"
        },
        7 => {
            proof {
                reveal_strlit("7");
            }
            "7"
        },
        8 => {
            proof {
                reveal_strlit("8");
            }
            "8"
        },
        _ => {
            proof {
                reveal_strlit("9");
            }
            "9"
        },
    }
}

/// The decimal notation of a byte value.
pub fn decimal_text(n: u8) -> (r: String)
    ensures
        r@ == decimal(n as nat),
{
    let mut text = String::new();
    let hundreds: u8 = n / 100;
    let tens: u8 = (n / 10) % 10;
    let ones: u8 = n % 10;
    proof {
        reveal_with_fuel(decimal, 3);
    }
    if n >= 100 {
        text.append(digit_text(hundreds));
    }
    if n >= 10 {
        text.append(digit_text(tens));
    }
    text.append(digit_text(ones));
    proof {
        let p = n as nat;
        if p >= 100 {
            assert(decimal(p) =~= seq![digit_char(hundreds as nat), digit_char(tens as nat), digit_char(ones as nat)]);
        } else if p >= 10 {
            assert(decimal(p) =~= seq![digit_char(tens as nat), digit_char(ones as nat)]);
        } else {
            assert(decimal(p) =~= seq![digit_char(ones as nat)]);
        }
    }
    text
}

/// The percentage shown beside the battery caption: the reported percentage
/// in decimal followed by `%`.
pub fn battery_percent_caption(percentage: u8) -> (r: String)
    ensures
        r@ == decimal(percentage as nat) + "%"@,
{
    let mut text = decimal_text(percentage);
    text.append("%");
    text
}

/// Whether a device is shown as connected, for the status badge.
#[derive(Clone, Copy, Debug, PartialEq, Eq, Structural)]
pub enum StatusTone {
    Connected,
    Offline,
}

/// The status badge: its caption and the colour of its dot.
#[derive(Clone, Copy, Debug, PartialEq, Eq)]
pub struct BadgeView {
    pub label: &'static str,
    pub tone: StatusTone,
}

/// The status badge of a device: "Connected" in the connected colour when it
/// is online, "Offline" in the offline colour otherwise.
pub fn status_badge(online: bool) -> (r: BadgeView)
    ensures
        r.label@ == (if online {
            "Connected"@
        } else {
            "Offline"@
        }),
        r.tone == (if online {
            StatusTone::Connected
        } else {
            StatusTone::Offline
        }),
{
    if online {
        BadgeView { label: "Connected", tone: StatusTone::Connected }
    } else {
        BadgeView { label: "Offline", tone: StatusTone::Offline }
    }
}

/// The badge in the detail header: shown only when a device record is
/// selected, for that record's online state.
pub fn header_badge(record_online: Option<bool>) -> (r: Option<BadgeView>)
    ensures
        match record_online {
            None => r is None,
            Some(online) => r matches Some(badge) && badge.label@ == (if online {
                "Connected"@
            } else {
                "Offline"@
            }) && badge.tone == (if online {
                StatusTone::Connected
            } else {
                StatusTone::Offline
            }),
        },
{
    match record_online {
        Some(online) => Some(status_badge(online)),
        None => None,
    }
}

/// The scroll-inversion settings the scrolling card reads: whether the
/// active device's wheel is inverted, and whether it supports inversion.
#[derive(Clone, Copy, Debug, PartialEq, Eq, Structural)]
pub struct ScrollSettings {
    pub inverted: bool,
    pub supported: bool,
}

/// The settings the scrolling card shows: those of the application state, or
/// not inverted and not supported when there is no state.
pub fn scroll_settings_or_default(state: Option<ScrollSettings>) -> (r: ScrollSettings)
    ensures
        r == (match state {
            Some(settings) => settings,
            None => ScrollSettings { inverted: false, supported: false },
        }),
{
    match state {
        Some(settings) => settings,
        None => ScrollSettings { inverted: false, supported: false },
    }
}

/// A row of the device description list.
pub struct DescriptionRow {
    pub label: &'static str,
    pub value: String,
}

/// The rows of the device description list: the connection, the slot, the
/// device key and, only when the device reports one, its serial number.
pub fn description_rows(
    route: Option<&DeviceRoute>,
    slot: u8,
    config_key: String,
    serial_number: Option<String>,
) -> (r: Vec<DescriptionRow>)
    ensures
        r@.len() == (if serial_number is Some {
            4nat
        } else {
            3nat
        }),
        r@[0].label@ == "Connection"@,
        r@[0].value@ == route_label_text(
            match route {
                Some(rt) => Some(*rt),
                None => None,
            },
        ),
        r@[1].label@ == "Slot"@,
        r@[1].value@ == decimal(slot as nat),
        r@[2].label@ == "Device key"@,
        r@[2].value@ == config_key@,
        serial_number matches Some(serial) ==> r@[3].label@ == "Serial"@ && r@[3].value@
            == serial@,
{
    let mut rows: Vec<DescriptionRow> = Vec::new();
    rows.push(DescriptionRow { label: "Connection", value: String::from_str(route_label(route)) });
    rows.push(DescriptionRow { label: "Slot", value: decimal_text(slot) });
    rows.push(DescriptionRow { label: "Device key", value: config_key });
    if let Some(serial) = serial_number {
        rows.push(DescriptionRow { label: "Serial", value: serial });
    }
    rows
}

/// Whether the header shows the section tabs: only a real choice gets a
/// strip, so a device with a single section shows none.
pub fn shows_tab_strip(tab_count: usize) -> (r: bool)
    ensures
        r == (tab_count > 1),
{
    tab_count > 1
}

/// The name in the detail header: the device's display name, or "Device"
/// when no device record is selected.
pub fn header_title(display_name: Option<&str>) -> (r: String)
    ensures
        r@ == (match display_name {
            Some(name) => name@,
            None => "Device"@,
        }),
{
    match display_name {
        Some(name) => String::from_str(name),
        None => String::from_str("Device"),
    }
}

/// What the configuration card reads from the application state.
pub struct ConfigCounts {
    pub button_bindings: usize,
    pub gesture_bindings: usize,
    pub dpi_presets: usize,
    /// The bundle id of the application whose profile is active, if any.
    pub app_bundle: Option<String>,
}

/// What the configuration card shows.
pub struct ConfigSummary {
    pub active_profile: String,
    pub button_bindings: usize,
    pub gesture_bindings: usize,
    pub dpi_presets: usize,
}

/// The configuration card's rows: the active application profile ("Default
/// profile" when none) and the binding and preset counts; all zero with the
/// default profile when there is no application state.
pub fn configuration_summary(state: Option<ConfigCounts>) -> (r: ConfigSummary)
    ensures
        match state {
            None => r.active_profile@ == "Default profile"@ && r.button_bindings == 0
                && r.gesture_bindings == 0 && r.dpi_presets == 0,
            Some(s) => r.button_bindings == s.button_bindings && r.gesture_bindings
                == s.gesture_bindings && r.dpi_presets == s.dpi_presets && r.active_profile@ == (
            match s.app_bundle {
                Some(bundle) => bundle@,
                None => "Default profile"@,
            }),
        },
{
    match state {
        None => ConfigSummary {
            active_profile: String::from_str("Default profile"),
            button_bindings: 0,
            gesture_bindings: 0,
            dpi_presets: 0,
        },
        Some(s) => {
            let active_profile = match s.app_bundle {
                Some(bundle) => bundle,
                None => String::from_str("Default profile"),
            };
            ConfigSummary {
                active_profile,
                button_bindings: s.button_bindings,
                gesture_bindings: s.gesture_bindings,
                dpi_presets: s.dpi_presets,
            }
        },
    }
}

/// The explanation under the "Invert scroll direction" switch.
pub fn scrolling_description(supported: bool) -> (r: &'static str)
    ensures
        r@ == (if supported {
            "Reverse this mouse's scroll wheel. Your trackpad keeps the system scroll direction."@
        } else {
            "This device does not report native HID++ scroll inversion support."@
        }),
{
    if supported {
        "Reverse this mouse's scroll wheel. Your trackpad keeps the system scroll direction."
    } else {
        "This device does not report native HID++ scroll inversion support."
    }
}

/// How the scroll-inversion pill looks and what a click on it does.
pub struct ToggleView {
    pub label: &'static str,
    /// Drawn with the selected border and fill.
    pub selected: bool,
    /// The inversion setting a click commits; `None` when the pill is inert.
    pub click_commits: Option<bool>,
}

/// The scroll-inversion pill: "Unavailable" and inert when the device does not
/// support inversion, else "On" or "Off", selected when on, a click flipping
/// the setting.
pub fn invert_toggle(on: bool, enabled: bool) -> (r: ToggleView)
    ensures
        r.label@ == (if !enabled {
            "Unavailable"@
        } else if on {
            "On"@
        } else {
            "Off"@
        }),
        r.selected == (enabled && on),
        r.click_commits == (if enabled {
            Some(!on)
        } else {
            None
        }),
{
    if !enabled {
        return ToggleView { label: "Unavailable", selected: false, click_commits: None };
    }
    ToggleView { label: if on { "On" } else { "Off" }, selected: on, click_commits: Some(!on) }
}

} // verus!
