//! Values exchanged with the power policy.
use crate::clock::Duration;
use vstd::prelude::*;

verus! {

/// Voltage at and below which the battery is low, by default.
pub const DEFAULT_LOW_BATTERY_MV: u16 = 3_550;

/// Voltage at and below which the battery is critical, by default.
pub const DEFAULT_CRITICAL_BATTERY_MV: u16 = 3_350;

/// Voltage from which a battery is present, by default.
pub const DEFAULT_BATTERY_PRESENT_MV: u16 = 2_500;

/// Voltage from which the solar panel supplies, by default.
pub const DEFAULT_SOLAR_PRESENT_MV: u16 = 4_500;

/// Voltage from which an external supply is present, by default.
pub const DEFAULT_EXT_DC_PRESENT_MV: u16 = 4_500;

/// Receivers that the power state is published to by default.
pub const DEFAULT_POWER_WATCHERS: usize = 4;

/// Voltages of the supply rails.
#[derive(Clone, Copy, Debug, PartialEq, Eq, Structural)]
pub struct VoltageState {
    pub battery_mv: u32,
    pub solar_mv: u32,
    pub ext_dc_mv: u32,
    pub usb_present: bool,
    pub vref_mv: u32,
}

/// What the charger is doing.
#[derive(Clone, Copy, Debug, PartialEq, Eq, Structural)]
pub enum ChargeState {
    NotCharging,
    FastCharge,
    /// Any other phase, by the charger's own number.
    Other(u8),
}

/// The charger's report.
#[derive(Clone, Copy, Debug, PartialEq, Eq, Structural)]
pub struct ChargerState {
    pub charging: bool,
    pub state: ChargeState,
    /// The charger's fault number, while there is one.
    pub fault: Option<u8>,
}

/// What supplies the device.
#[derive(Clone, Copy, Debug, PartialEq, Eq, Structural)]
pub enum PowerSource {
    Battery,
    Solar,
    ExternalDc,
    Usb,
    Unknown,
}

impl Default for PowerSource {
    fn default() -> (source: Self)
        ensures
            source == PowerSource::Unknown,
    {
        PowerSource::Unknown
    }
}

/// How the battery is doing.
#[derive(Clone, Copy, Debug, PartialEq, Eq, Structural)]
pub enum BatteryHealth {
    Normal,
    Low,
    Critical,
}

/// Thresholds of the power policy.
#[derive(Clone, Copy, Debug, PartialEq, Eq, Structural)]
pub struct PowerConfig {
    pub publish_interval: Duration,
    pub low_battery_mv: u16,
    pub critical_battery_mv: u16,
    pub battery_present_mv: u16,
    pub solar_present_mv: u16,
    pub ext_dc_present_mv: u16,
}

impl Default for PowerConfig {
    fn default() -> (config: Self)
        ensures
            config == (PowerConfig {
                publish_interval: Duration { ticks: 1_000_000 },
                low_battery_mv: 3_550,
                critical_battery_mv: 3_350,
                battery_present_mv: 2_500,
                solar_present_mv: 4_500,
                ext_dc_present_mv: 4_500,
            }),
    {
        PowerConfig {
            publish_interval: Duration::from_secs(1),
            low_battery_mv: DEFAULT_LOW_BATTERY_MV,
            critical_battery_mv: DEFAULT_CRITICAL_BATTERY_MV,
            battery_present_mv: DEFAULT_BATTERY_PRESENT_MV,
            solar_present_mv: DEFAULT_SOLAR_PRESENT_MV,
            ext_dc_present_mv: DEFAULT_EXT_DC_PRESENT_MV,
        }
    }
}

/// The state of the power supply.
#[derive(Clone, Copy, Debug, PartialEq, Eq, Structural)]
pub struct PowerState {
    pub source: PowerSource,
    pub battery_mv: u16,
    pub solar_mv: u16,
    pub ext_dc_mv: u16,
    pub charging: bool,
    pub battery_percent: Option<u8>,
    pub health: BatteryHealth,
    pub charger: ChargerState,
}

impl PowerState {
    /// The state before any measurement.
    pub fn unknown() -> (state: Self)
        ensures
            state == (PowerState {
                source: PowerSource::Unknown,
                battery_mv: 0,
                solar_mv: 0,
                ext_dc_mv: 0,
                charging: false,
                battery_percent: None,
                health: BatteryHealth::Critical,
                charger: ChargerState {
                    charging: false,
                    state: ChargeState::NotCharging,
                    fault: None,
                },
            }),
    {
        PowerState {
            source: PowerSource::Unknown,
            battery_mv: 0,
            solar_mv: 0,
            ext_dc_mv: 0,
            charging: false,
            battery_percent: None,
            health: BatteryHealth::Critical,
            charger: ChargerState {
                charging: false,
                state: ChargeState::NotCharging,
                fault: None,
            },
        }
    }
}

} // verus!
