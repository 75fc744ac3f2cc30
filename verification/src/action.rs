//! The actions a device button or gesture can be bound to, and the recorded
//! keyboard chord that a custom-shortcut action carries.
use vstd::prelude::*;

verus! {

/// A keyboard chord recorded on macOS: a `kVK_*` key code plus the modifier
/// bits `MOD_CMD`, `MOD_SHIFT`, `MOD_OPTION` and `MOD_CTRL`.
///
/// `key_code == 0` is the "modifier-only placeholder" that the recorder
/// rejects; injecting it is always skipped.
#[derive(Clone, Copy, Debug, PartialEq, Eq, Structural)]
pub struct KeyCombo {
    pub key_code: u16,
    pub modifiers: u8,
}

impl KeyCombo {
    /// The Command (⌘) modifier bit.
    pub const MOD_CMD: u8 = 0x01;
    /// The Shift (⇧) modifier bit.
    pub const MOD_SHIFT: u8 = 0x02;
    /// The Option (⌥) modifier bit.
    pub const MOD_OPTION: u8 = 0x04;
    /// The Control (⌃) modifier bit.
    pub const MOD_CTRL: u8 = 0x08;

    /// Whether the Command bit is set.
    pub open spec fn has_cmd(self) -> bool {
        self.modifiers & 0x01u8 != 0
    }

    /// Whether the Shift bit is set.
    pub open spec fn has_shift(self) -> bool {
        self.modifiers & 0x02u8 != 0
    }

    /// Whether the Option bit is set.
    pub open spec fn has_option(self) -> bool {
        self.modifiers & 0x04u8 != 0
    }

    /// Whether the Control bit is set.
    pub open spec fn has_ctrl(self) -> bool {
        self.modifiers & 0x08u8 != 0
    }
}

/// What a button or gesture does when pressed.
#[derive(Clone, Copy, Debug, PartialEq, Eq, Structural)]
pub enum Action {
    /// Suppressed input: captured, deliberately produces no event.
    NoOp,
    LeftClick,
    RightClick,
    MiddleClick,
    MouseBack,
    MouseForward,
    Copy,
    Paste,
    Cut,
    Undo,
    Redo,
    SelectAll,
    Find,
    Save,
    BrowserBack,
    BrowserForward,
    NewTab,
    CloseTab,
    ReopenTab,
    NextTab,
    PrevTab,
    ReloadPage,
    MissionControl,
    AppExpose,
    ShowDesktop,
    LaunchpadShow,
    PreviousDesktop,
    NextDesktop,
    LockScreen,
    Screenshot,
    CaptureRegion,
    PlayPause,
    NextTrack,
    PrevTrack,
    VolumeUp,
    VolumeDown,
    MuteVolume,
    CycleDpiPresets,
    /// Switch to the DPI preset with this index.
    SetDpiPreset(u8),
    ToggleSmartShift,
    ScrollUp,
    ScrollDown,
    HorizontalScrollLeft,
    HorizontalScrollRight,
    CustomShortcut(KeyCombo),
}

/// The actions carried out on the device itself (over HID++) rather than by
/// synthesising an OS event.
pub open spec fn is_device_action(action: Action) -> bool {
    match action {
        Action::CycleDpiPresets | Action::SetDpiPreset(_) | Action::ToggleSmartShift => true,
        _ => false,
    }
}

/// The macOS window-manager actions.
pub open spec fn is_window_manager_action(action: Action) -> bool {
    match action {
        Action::MissionControl | Action::AppExpose | Action::ShowDesktop
        | Action::LaunchpadShow => true,
        _ => false,
    }
}

/// Which way a scroll action turns the wheel.
#[derive(Clone, Copy, Debug, PartialEq, Eq, Structural)]
pub enum ScrollDirection {
    Up,
    Down,
    Left,
    Right,
}

/// Why an action produces no event on some platform. Each is logged; the
/// press itself is dropped.
#[derive(Clone, Copy, Debug, PartialEq, Eq, Structural)]
pub enum Skip {
    /// The platform has no equivalent for this action.
    NoEquivalent,
    /// DPI and SmartShift actions are carried out at the hook/HID layer.
    DeviceAction,
    /// A custom shortcut whose key code is the modifier-only placeholder 0.
    EmptyShortcut,
    /// A custom shortcut whose key has no entry in the platform's key table.
    UnmappedKey,
}

/// A key chord on a platform whose injector presses modifiers one by one:
/// the modifier set and the platform's own code for the key.
#[derive(Clone, Copy, Debug, PartialEq, Eq, Structural)]
pub struct Chord {
    pub ctrl: bool,
    pub shift: bool,
    pub alt: bool,
    /// The Super / Windows key.
    pub meta: bool,
    pub key: u16,
}

/// A chord with no modifiers.
pub open spec fn plain(key: u16) -> Chord {
    Chord { ctrl: false, shift: false, alt: false, meta: false, key }
}

/// The modifier set a recorded macOS chord becomes on Linux and Windows:
/// Command and Control both become Control, Option becomes Alt.
pub open spec fn translated_chord(combo: KeyCombo, key: u16) -> Chord {
    Chord {
        ctrl: combo.has_cmd() || combo.has_ctrl(),
        shift: combo.has_shift(),
        alt: combo.has_option(),
        meta: false,
        key,
    }
}

/// The chord a recorded macOS chord becomes, given its key's code on the
/// target platform.
pub fn translate_chord(combo: KeyCombo, key: u16) -> (r: Chord)
    ensures
        r == translated_chord(combo, key),
{
    Chord {
        ctrl: combo.modifiers & KeyCombo::MOD_CMD != 0 || combo.modifiers & KeyCombo::MOD_CTRL != 0,
        shift: combo.modifiers & KeyCombo::MOD_SHIFT != 0,
        alt: combo.modifiers & KeyCombo::MOD_OPTION != 0,
        meta: false,
        key,
    }
}

/// The key events that type a chord, as `(code, pressed)`: each modifier
/// pressed in order, the key pressed and released, then the modifiers
/// released in reverse order.
pub open spec fn chord_key_sequence(modifiers: Seq<u16>, key: u16) -> Seq<(u16, bool)> {
    modifiers.map_values(|code: u16| (code, true)) + seq![(key, true), (key, false)]
        + modifiers.reverse().map_values(|code: u16| (code, false))
}

/// The key events that type a chord with the given modifier keys (in the
/// platform's pressing order) and key.
pub fn chord_key_events(modifiers: &Vec<u16>, key: u16) -> (r: Vec<(u16, bool)>)
    ensures
        r@ == chord_key_sequence(modifiers@, key),
{
    let n = modifiers.len();
    let mut events: Vec<(u16, bool)> = Vec::new();
    let mut i: usize = 0;
    while i < n
        invariant
            n == modifiers@.len(),
            i <= n,
            events@ =~= modifiers@.take(i as int).map_values(|code: u16| (code, true)),
        decreases n - i,
    {
        events.push((modifiers[i], true));
        proof {
            assert(modifiers@.take(i + 1) =~= modifiers@.take(i as int).push(modifiers@[i as int]));
        }
        i = i + 1;
    }
    proof {
        assert(modifiers@.take(n as int) =~= modifiers@);
    }
    events.push((key, true));
    events.push((key, false));
    let ghost head = events@;
    let mut j: usize = n;
    while j > 0
        invariant
            n == modifiers@.len(),
            j <= n,
            head == modifiers@.map_values(|code: u16| (code, true)) + seq![(key, true), (key, false)],
            events@ =~= head + modifiers@.reverse().take(n - j).map_values(|code: u16| (code, false)),
        decreases j,
    {
        j = j - 1;
        events.push((modifiers[j], false));
        proof {
            assert(modifiers@.reverse()[n - j - 1] == modifiers@[j as int]);
            assert(modifiers@.reverse().take(n - j) =~= modifiers@.reverse().take(n - j - 1).push(
                modifiers@[j as int],
            ));
        }
    }
    proof {
        assert(modifiers@.reverse().take(n as int) =~= modifiers@.reverse());
    }
    events
}

} // verus!
