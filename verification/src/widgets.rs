//! The choices behind the shared device-card widgets: connection labels and
//! glyphs, device-kind labels and the battery colour band. Labels are the
//! untranslated message keys that the interface translates before display.
use vstd::prelude::*;

verus! {

/// How a device is addressed: through a Bolt or Unifying receiver slot, or
/// directly by USB vendor/product id.
pub enum DeviceRoute {
    Bolt { receiver_uid: String, slot: u8 },
    Unifying { receiver_uid: String, slot: u8 },
    Direct { vendor_id: u16, product_id: u16 },
}

/// The link media a device's firmware reports it supports (HID++ feature
/// 0x0003); all `false` when unknown.
#[derive(Clone, Copy, Debug, PartialEq, Eq, Structural)]
pub struct DeviceTransports {
    pub usb: bool,
    pub equad: bool,
    pub bluetooth: bool,
    pub btle: bool,
}

impl Default for DeviceTransports {
    fn default() -> (r: Self)
        ensures
            r == (DeviceTransports { usb: false, equad: false, bluetooth: false, btle: false }),
    {
        DeviceTransports { usb: false, equad: false, bluetooth: false, btle: false }
    }
}

/// The kind of device a card shows.
#[derive(Clone, Copy, Debug, PartialEq, Eq, Structural)]
pub enum DeviceKind {
    Mouse,
    Keyboard,
    Numpad,
    Presenter,
    Remote,
    Trackball,
    Touchpad,
    Tablet,
    Gamepad,
    Joystick,
    Headset,
    Unknown,
}

/// The label of a connection route.
pub open spec fn route_label_text(route: Option<DeviceRoute>) -> Seq<char> {
    match route {
        Some(DeviceRoute::Bolt { .. }) => "Bolt receiver"@,
        Some(DeviceRoute::Unifying { .. }) => "Unifying receiver"@,
        Some(DeviceRoute::Direct { .. }) => "Direct connection"@,
        None => "Unavailable"@,
    }
}

/// The label naming how a device is connected ("Unavailable" without a route).
pub fn route_label(route: Option<&DeviceRoute>) -> (r: &'static str)
    ensures
        r@ == route_label_text(match route {
            Some(rt) => Some(*rt),
            None => None,
        }),
{
    match route {
        Some(DeviceRoute::Bolt { .. }) => "Bolt receiver",
        Some(DeviceRoute::Unifying { .. }) => "Unifying receiver",
        Some(DeviceRoute::Direct { .. }) => "Direct connection",
        None => "Unavailable",
    }
}

/// Whether a transport table shows a device with no radio of its own: it can
/// use a cable (USB, or eQuad, which is receiver-only and so never the direct
/// link) and supports neither Bluetooth nor Bluetooth LE. An all-false table
/// is "unknown", not "wired".
pub open spec fn is_wired_only(t: DeviceTransports) -> bool {
    (t.usb || t.equad) && !t.bluetooth && !t.btle
}

/// The connection glyph of a device card. The transport table matters only
/// on a direct route.
pub open spec fn connection_icon(route: Option<DeviceRoute>, transports: Option<DeviceTransports>) -> Seq<char> {
    match route {
        Some(DeviceRoute::Bolt { .. }) => "action-icons/bolt.svg"@,
        Some(DeviceRoute::Unifying { .. }) => "action-icons/unifying.svg"@,
        Some(DeviceRoute::Direct { .. }) => match transports {
            Some(t) if is_wired_only(t) => "action-icons/usb.svg"@,
            _ => "action-icons/bluetooth.svg"@,
        },
        None => "action-icons/bluetooth.svg"@,
    }
}

/// Connection-type glyph for a device card: a dongle for receiver-paired
/// devices, a USB mark for a radio-less device on a direct route (the cable is
/// its only possible link), a Bluetooth mark for everything else — a
/// radio-capable device on a direct route, unknown transports, and a card
/// with no route (a synthetic or placeholder card) whatever its transports.
pub fn connection_icon_path(route: Option<&DeviceRoute>, transports: Option<&DeviceTransports>) -> (r: &'static str)
    ensures
        r@ == connection_icon(
            match route {
                Some(rt) => Some(*rt),
                None => None,
            },
            match transports {
                Some(t) => Some(*t),
                None => None,
            },
        ),
{
    match route {
        Some(DeviceRoute::Bolt { .. }) => "action-icons/bolt.svg",
        Some(DeviceRoute::Unifying { .. }) => "action-icons/unifying.svg",
        Some(DeviceRoute::Direct { .. }) => match transports {
            Some(t) if (t.usb || t.equad) && !t.bluetooth && !t.btle => "action-icons/usb.svg",
            _ => "action-icons/bluetooth.svg",
        },
        None => "action-icons/bluetooth.svg",
    }
}

/// A receiver-paired device gets its receiver's glyph whatever its firmware
/// reports, and a card with no route always falls back to Bluetooth.
pub proof fn lemma_connection_icon_route_rules(
    receiver_uid: String,
    slot: u8,
    a: Option<DeviceTransports>,
    b: Option<DeviceTransports>,
)
    ensures
        connection_icon(Some(DeviceRoute::Bolt { receiver_uid, slot }), a) == connection_icon(
            Some(DeviceRoute::Bolt { receiver_uid, slot }),
            b,
        ),
        connection_icon(Some(DeviceRoute::Unifying { receiver_uid, slot }), a) == connection_icon(
            Some(DeviceRoute::Unifying { receiver_uid, slot }),
            b,
        ),
        connection_icon(None, a) == "action-icons/bluetooth.svg"@,
{
}

/// The label of a device kind.
pub open spec fn kind_label_text(kind: DeviceKind) -> Seq<char> {
    match kind {
        DeviceKind::Mouse => "Mouse"@,
        DeviceKind::Keyboard => "Keyboard"@,
        DeviceKind::Numpad => "Numpad"@,
        DeviceKind::Presenter => "Presenter"@,
        DeviceKind::Remote => "Remote"@,
        DeviceKind::Trackball => "Trackball"@,
        DeviceKind::Touchpad => "Touchpad"@,
        DeviceKind::Tablet => "Tablet"@,
        DeviceKind::Gamepad => "Gamepad"@,
        DeviceKind::Joystick => "Joystick"@,
        DeviceKind::Headset => "Headset"@,
        DeviceKind::Unknown => "Device"@,
    }
}

/// The label naming a device kind ("Device" when the kind is unknown).
pub fn kind_label(kind: DeviceKind) -> (r: &'static str)
    ensures
        r@ == kind_label_text(kind),
{
    match kind {
        DeviceKind::Mouse => "Mouse",
        DeviceKind::Keyboard => "Keyboard",
        DeviceKind::Numpad => "Numpad",
        DeviceKind::Presenter => "Presenter",
        DeviceKind::Remote => "Remote",
        DeviceKind::Trackball => "Trackball",
        DeviceKind::Touchpad => "Touchpad",
        DeviceKind::Tablet => "Tablet",
        DeviceKind::Gamepad => "Gamepad",
        DeviceKind::Joystick => "Joystick",
        DeviceKind::Headset => "Headset",
        DeviceKind::Unknown => "Device",
    }
}

/// The colour band of a battery level: the fixed alert red, the theme's
/// "connecting" colour, or its "connected" colour.
#[derive(Clone, Copy, Debug, PartialEq, Eq, Structural)]
pub enum BatteryColor {
    Alert,
    Connecting,
    Connected,
}

/// The RGB value of the alert band.
pub const BATTERY_ALERT_RGB: u32 = 0x00ef_4444;

impl BatteryColor {
    /// The band's RGB value where it is fixed rather than taken from the
    /// theme: `0x00ef4444` for the alert band.
    pub fn fixed_rgb(&self) -> (r: Option<u32>)
        ensures
            r == (match *self {
                BatteryColor::Alert => Some(BATTERY_ALERT_RGB),
                _ => None,
            }),
    {
        match self {
            BatteryColor::Alert => Some(BATTERY_ALERT_RGB),
            _ => None,
        }
    }
}

/// The colour band of a battery percentage: alert up to 20 %, "connecting"
/// from 21 % to 50 %, "connected" above.
pub fn battery_color(percentage: u8) -> (r: BatteryColor)
    ensures
        r == (if percentage <= 20 {
            BatteryColor::Alert
        } else if percentage <= 50 {
            BatteryColor::Connecting
        } else {
            BatteryColor::Connected
        }),
{
    if percentage <= 20 {
        BatteryColor::Alert
    } else if percentage <= 50 {
        BatteryColor::Connecting
    } else {
        BatteryColor::Connected
    }
}

/// Each device kind has its own label: no two kinds are captioned alike.
pub proof fn lemma_kind_labels_distinct(a: DeviceKind, b: DeviceKind)
    requires
        a != b,
    ensures
        kind_label_text(a) != kind_label_text(b),
{
    reveal_strlit("Mouse");
    reveal_strlit("Keyboard");
    reveal_strlit("Numpad");
    reveal_strlit("Presenter");
    reveal_strlit("Remote");
    reveal_strlit("Trackball");
    reveal_strlit("Touchpad");
    reveal_strlit("Tablet");
    reveal_strlit("Gamepad");
    reveal_strlit("Joystick");
    reveal_strlit("Headset");
    reveal_strlit("Device");
    assert("Mouse"@[0] == 'M' && "Mouse"@[1] == 'o');
    assert("Keyboard"@[0] == 'K' && "Keyboard"@[1] == 'e');
    assert("Numpad"@[0] == 'N' && "Numpad"@[1] == 'u');
    assert("Presenter"@[0] == 'P' && "Presenter"@[1] == 'r');
    assert("Remote"@[0] == 'R' && "Remote"@[1] == 'e');
    assert("Trackball"@[0] == 'T' && "Trackball"@[1] == 'r');
    assert("Touchpad"@[0] == 'T' && "Touchpad"@[1] == 'o');
    assert("Tablet"@[0] == 'T' && "Tablet"@[1] == 'a');
    assert("Gamepad"@[0] == 'G' && "Gamepad"@[1] == 'a');
    assert("Joystick"@[0] == 'J' && "Joystick"@[1] == 'o');
    assert("Headset"@[0] == 'H' && "Headset"@[1] == 'e');
    assert("Device"@[0] == 'D' && "Device"@[1] == 'e');
}

/// Each kind of route, and the absence of one, has its own label.
pub proof fn lemma_route_labels_distinct(a: Option<DeviceRoute>, b: Option<DeviceRoute>)
    requires
        a is None != b is None || (a matches Some(x) && b matches Some(y) && (x is Bolt != y is Bolt
            || x is Unifying != y is Unifying)),
    ensures
        route_label_text(a) != route_label_text(b),
{
    reveal_strlit("Bolt receiver");
    reveal_strlit("Unifying receiver");
    reveal_strlit("Direct connection");
    reveal_strlit("Unavailable");
    assert("Bolt receiver"@[0] != "Unifying receiver"@[0]);
    assert("Bolt receiver"@[0] != "Direct connection"@[0]);
    assert("Bolt receiver"@[0] != "Unavailable"@[0]);
    assert("Unifying receiver"@[2] != "Unavailable"@[2]);
    assert("Unifying receiver"@[0] != "Direct connection"@[0]);
    assert("Direct connection"@[0] != "Unavailable"@[0]);
}

/// Each glyph means one thing: the Bolt glyph exactly for Bolt routes, the
/// Unifying glyph exactly for Unifying routes, the USB mark exactly for a
/// radio-less device on a direct route, and Bluetooth for all the rest.
pub proof fn lemma_connection_glyph_meanings(route: Option<DeviceRoute>, transports: Option<DeviceTransports>)
    ensures
        (connection_icon(route, transports) == "action-icons/bolt.svg"@) <==> (route matches Some(
            r,
        ) && r is Bolt),
        (connection_icon(route, transports) == "action-icons/unifying.svg"@) <==> (route matches Some(
            r,
        ) && r is Unifying),
        (connection_icon(route, transports) == "action-icons/usb.svg"@) <==> ((route matches Some(r)
            && r is Direct) && (transports matches Some(t) && (t.usb || t.equad) && !t.bluetooth
            && !t.btle)),
{
    reveal_strlit("action-icons/bolt.svg");
    reveal_strlit("action-icons/unifying.svg");
    reveal_strlit("action-icons/usb.svg");
    reveal_strlit("action-icons/bluetooth.svg");
    assert("action-icons/bolt.svg"@[13] != "action-icons/unifying.svg"@[13]);
    assert("action-icons/bolt.svg"@[13] != "action-icons/usb.svg"@[13]);
    assert("action-icons/bolt.svg"@[14] != "action-icons/bluetooth.svg"@[14]);
    assert("action-icons/unifying.svg"@[14] != "action-icons/usb.svg"@[14]);
    assert("action-icons/unifying.svg"@[13] != "action-icons/bluetooth.svg"@[13]);
    assert("action-icons/usb.svg"@[13] != "action-icons/bluetooth.svg"@[13]);
}

} // verus!
