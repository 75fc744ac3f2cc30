//! Decision logic of the OpenLogi input injector: which OS-level event each
//! bound action becomes on Linux, macOS and Windows, the macOS key-code
//! translation tables behind recorded shortcuts, and the small pure choices
//! the device screens make when rendering.
pub mod action;
pub mod detail;
pub mod device_path;
pub mod effects;
pub mod laws;
pub mod linux;
pub mod linux_keys;
pub mod mac_keys;
pub mod macos;
pub mod widgets;
pub mod windows;
pub mod windows_keys;
