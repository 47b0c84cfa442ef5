//! The power policy.
use raylar_services::power::policy::{derive_power_state, estimate_battery_percent};
use raylar_services::power::types::{
    BatteryHealth, ChargeState, ChargerState, PowerConfig, PowerSource, PowerState, VoltageState,
};

fn charger(charging: bool) -> ChargerState {
    ChargerState {
        charging,
        state: if charging { ChargeState::FastCharge } else { ChargeState::NotCharging },
        fault: None,
    }
}

fn voltage(battery_mv: u32, solar_mv: u32, ext_dc_mv: u32, usb_present: bool) -> VoltageState {
    VoltageState { battery_mv, solar_mv, ext_dc_mv, usb_present, vref_mv: 2_500 }
}

#[test]
fn usb_takes_priority_over_other_sources() {
    let state = derive_power_state(
        voltage(3_900, 8_000, 12_000, true),
        charger(true),
        PowerConfig::default(),
    );

    assert_eq!(state.source, PowerSource::Usb);
    assert!(state.charging);
    assert_eq!(state.health, BatteryHealth::Normal);
}

#[test]
fn external_dc_and_solar_are_detected_from_voltage() {
    let config = PowerConfig::default();

    assert_eq!(
        derive_power_state(voltage(3_900, 0, 4_600, false), charger(false), config).source,
        PowerSource::ExternalDc
    );
    assert_eq!(
        derive_power_state(voltage(3_900, 4_600, 0, false), charger(false), config).source,
        PowerSource::Solar
    );
}

#[test]
fn low_and_critical_thresholds_follow_config() {
    let config = PowerConfig::default();

    assert_eq!(
        derive_power_state(voltage(3_550, 0, 0, false), charger(false), config).health,
        BatteryHealth::Low
    );
    assert_eq!(
        derive_power_state(voltage(3_350, 0, 0, false), charger(false), config).health,
        BatteryHealth::Critical
    );
}

#[test]
fn missing_battery_has_no_percent_and_unknown_source() {
    let state = derive_power_state(
        voltage(100, 0, 0, false),
        charger(false),
        PowerConfig::default(),
    );

    assert_eq!(state.source, PowerSource::Unknown);
    assert_eq!(state.battery_percent, None);
}

#[test]
fn battery_percent_interpolates_table() {
    assert_eq!(estimate_battery_percent(3_300), 0);
    assert_eq!(estimate_battery_percent(3_550), 15);
    assert_eq!(estimate_battery_percent(3_750), 50);
    assert_eq!(estimate_battery_percent(4_200), 100);
}

#[test]
fn charge_never_falls_with_the_voltage() {
    let mut last = 0;
    for battery_mv in 3_000..4_400 {
        let percent = estimate_battery_percent(battery_mv);
        assert!(last <= percent && percent <= 100);
        last = percent;
    }
    assert_eq!(estimate_battery_percent(0), 0);
    assert_eq!(estimate_battery_percent(u16::MAX), 100);
}

#[test]
fn voltages_are_held_inside_sixteen_bits() {
    let state = derive_power_state(
        voltage(3_900, 100_000, 0, false),
        charger(false),
        PowerConfig::default(),
    );
    assert_eq!(state.solar_mv, u16::MAX);
    assert_eq!(state.battery_percent, Some(estimate_battery_percent(3_900)));
    assert_eq!(PowerState::unknown().health, BatteryHealth::Critical);
}
