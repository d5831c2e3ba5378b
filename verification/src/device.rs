//! Device-model types: receivers, their paired peripherals, battery state.

use vstd::prelude::*;

verus! {

/// What a paired peripheral is.
#[derive(Debug, Clone, Copy, PartialEq, Eq, Structural, Hash)]
pub enum DeviceKind {
    Mouse,
    Keyboard,
    Numpad,
    Presenter,
    Remote,
    Trackball,
    Touchpad,
    Tablet,
    Gamepad,
    Joystick,
    Headset,
    Unknown,
}

/// Coarse battery bucket reported by the device firmware.
#[derive(Debug, Clone, Copy, PartialEq, Eq, Structural, Hash)]
pub enum BatteryLevel {
    Critical,
    Low,
    Good,
    Full,
    Unknown,
}

/// Charging state, plus `Unknown` for values added in future protocol
/// versions.
#[derive(Debug, Clone, Copy, PartialEq, Eq, Structural, Hash)]
pub enum BatteryStatus {
    Discharging,
    Charging,
    ChargingSlow,
    Full,
    Error,
    Unknown,
}

#[derive(Debug, Clone, Copy, PartialEq, Eq, Structural)]
pub struct BatteryInfo {
    pub percentage: u8,
    pub level: BatteryLevel,
    pub status: BatteryStatus,
}

#[derive(Debug, Clone)]
pub struct ReceiverInfo {
    pub name: String,
    pub vendor_id: u16,
    pub product_id: u16,
    pub unique_id: Option<String>,
}

/// Identity of a device model; its config key names the device's section of
/// the configuration.
#[derive(Debug, Clone)]
pub struct DeviceModelInfo {
    pub model_id: String,
}

impl DeviceModelInfo {
    /// Key of this model's bindings in the configuration.
    pub fn config_key(&self) -> (r: String)
        ensures
            r@ == self.model_id@,
    {
        self.model_id.clone()
    }
}

#[derive(Debug, Clone)]
pub struct PairedDevice {
    /// Receiver-assigned slot (1..=6 for Bolt).
    pub slot: u8,
    pub codename: Option<String>,
    /// Wireless product ID; `None` for offline / unreachable devices.
    pub wpid: Option<u16>,
    pub kind: DeviceKind,
    pub online: bool,
    pub battery: Option<BatteryInfo>,
    /// Model identity, where the device reported one.
    pub model_info: Option<DeviceModelInfo>,
}

#[derive(Debug, Clone)]
pub struct DeviceInventory {
    pub receiver: ReceiverInfo,
    pub paired: Vec<PairedDevice>,
}

} // verus!
