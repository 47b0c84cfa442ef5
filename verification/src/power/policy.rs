//! From measured voltages to the state of the power supply.
use crate::arith;
use crate::power::types::{
    BatteryHealth, ChargerState, PowerConfig, PowerSource, PowerState, VoltageState,
};
use vstd::prelude::*;

verus! {

/// Points of the discharge curve.
pub const CURVE_POINTS: usize = 8;

/// A point of the discharge curve: a voltage and the charge it stands for.
pub open spec fn curve(index: int) -> (int, int) {
    if index == 0 {
        (3_300, 0)
    } else if index == 1 {
        (3_500, 10)
    } else if index == 2 {
        (3_600, 20)
    } else if index == 3 {
        (3_700, 40)
    } else if index == 4 {
        (3_800, 60)
    } else if index == 5 {
        (3_950, 80)
    } else if index == 6 {
        (4_100, 95)
    } else {
        (4_200, 100)
    }
}

/// The charge on the straight line between two points, rounded down.
pub open spec fn interpolated(lower: (int, int), upper: (int, int), battery_mv: int) -> int {
    lower.1 + (battery_mv - lower.0) * (upper.1 - lower.1) / (upper.0 - lower.0)
}

/// The charge, looked for from the segment that ends at point `index` on.
pub open spec fn charge_from(battery_mv: int, index: int) -> int
    decreases CURVE_POINTS - index,
{
    if index >= CURVE_POINTS {
        100
    } else if battery_mv <= curve(index).0 {
        interpolated(curve(index - 1), curve(index), battery_mv)
    } else {
        charge_from(battery_mv, index + 1)
    }
}

/// The charge that a battery voltage stands for, in percent.
pub open spec fn charge(battery_mv: int) -> int {
    if battery_mv <= curve(0).0 {
        curve(0).1
    } else {
        charge_from(battery_mv, 1)
    }
}

/// The charge written out segment by segment.
spec fn charge_by_segment(battery_mv: int) -> int {
    if battery_mv <= 3_300 {
        0
    } else if battery_mv <= 3_500 {
        0 + (battery_mv - 3_300) * 10 / 200
    } else if battery_mv <= 3_600 {
        10 + (battery_mv - 3_500) * 10 / 100
    } else if battery_mv <= 3_700 {
        20 + (battery_mv - 3_600) * 20 / 100
    } else if battery_mv <= 3_800 {
        40 + (battery_mv - 3_700) * 20 / 100
    } else if battery_mv <= 3_950 {
        60 + (battery_mv - 3_800) * 20 / 150
    } else if battery_mv <= 4_100 {
        80 + (battery_mv - 3_950) * 15 / 150
    } else if battery_mv <= 4_200 {
        95 + (battery_mv - 4_100) * 5 / 100
    } else {
        100
    }
}

/// Both ways to write the charge agree.
proof fn lemma_charge_by_segment(battery_mv: int)
    ensures
        charge(battery_mv) == charge_by_segment(battery_mv),
{
    reveal_with_fuel(charge_from, 9);
    assert(interpolated(curve(0), curve(1), battery_mv) == 0 + (battery_mv - 3_300) * 10 / 200);
    assert(interpolated(curve(1), curve(2), battery_mv) == 10 + (battery_mv - 3_500) * 10 / 100);
    assert(interpolated(curve(2), curve(3), battery_mv) == 20 + (battery_mv - 3_600) * 20 / 100);
    assert(interpolated(curve(3), curve(4), battery_mv) == 40 + (battery_mv - 3_700) * 20 / 100);
    assert(interpolated(curve(4), curve(5), battery_mv) == 60 + (battery_mv - 3_800) * 20 / 150);
    assert(interpolated(curve(5), curve(6), battery_mv) == 80 + (battery_mv - 3_950) * 15 / 150);
    assert(interpolated(curve(6), curve(7), battery_mv) == 95 + (battery_mv - 4_100) * 5 / 100);
}

/// The charge is a percentage, it does not fall as the voltage rises, and it
/// meets every point of the curve.
pub proof fn law_charge_follows_the_curve(lower_mv: int, higher_mv: int, index: int)
    requires
        lower_mv <= higher_mv,
        0 <= index < CURVE_POINTS,
    ensures
        0 <= charge(lower_mv) <= charge(higher_mv) <= 100,
        charge(curve(index).0) == curve(index).1,
{
    lemma_charge_by_segment(lower_mv);
    lemma_charge_by_segment(higher_mv);
    lemma_charge_by_segment(curve(index).0);
}

/// A point of the discharge curve.
fn curve_point(index: usize) -> (point: (u16, u8))
    requires
        index < CURVE_POINTS,
    ensures
        point.0 == curve(index as int).0,
        point.1 == curve(index as int).1,
{
    match index {
        0 => (3_300, 0),
        1 => (3_500, 10),
        2 => (3_600, 20),
        3 => (3_700, 40),
        4 => (3_800, 60),
        5 => (3_950, 80),
        6 => (4_100, 95),
        _ => (4_200, 100),
    }
}

/// The charge that a battery voltage stands for, in percent.
pub fn estimate_battery_percent(battery_mv: u16) -> (percent: u8)
    ensures
        percent == charge(battery_mv as int),
        percent <= 100,
{
    let first: (u16, u8) = curve_point(0);
    if battery_mv <= first.0 {
        return first.1;
    }
    let mut index: usize = 1;
    while index < CURVE_POINTS
        invariant
            1 <= index <= CURVE_POINTS,
            battery_mv > curve(index - 1).0,
            charge(battery_mv as int) == charge_from(battery_mv as int, index as int),
        decreases CURVE_POINTS - index,
    {
        let upper: (u16, u8) = curve_point(index);
        let lower: (u16, u8) = curve_point(index - 1);
        if battery_mv <= upper.0 {
            let span_mv: u16 = upper.0 - lower.0;
            let span_percent: u8 = upper.1 - lower.1;
            let offset_mv: u16 = battery_mv - lower.0;
            proof {
                assert(offset_mv * span_percent <= span_mv * span_percent) by (nonlinear_arith)
                    requires
                        offset_mv <= span_mv,
                        span_percent >= 0,
                ;
                vstd::arithmetic::div_mod::lemma_div_is_ordered(
                    offset_mv * span_percent,
                    span_mv * span_percent,
                    span_mv as int,
                );
                vstd::arithmetic::div_mod::lemma_div_multiples_vanish(
                    span_percent as int,
                    span_mv as int,
                );
                assert(span_mv * span_percent <= 40_000) by (nonlinear_arith)
                    requires
                        span_mv <= 200,
                        span_percent <= 20,
                ;
                assert(span_mv * span_percent == span_percent * span_mv) by (nonlinear_arith);
            }
            let share: u32 = offset_mv as u32 * span_percent as u32 / span_mv as u32;
            return lower.1 + share as u8;
        }
        index = index + 1;
    }
    100
}

/// A voltage as far as it is reported.
pub open spec fn reported_mv(value: u32) -> u16 {
    arith::min(value as int, u16::MAX as int) as u16
}

/// What supplies the device: the first supply present, in the order in which
/// the hardware prefers them.
pub open spec fn supply(voltage: VoltageState, config: PowerConfig) -> PowerSource {
    if voltage.usb_present {
        PowerSource::Usb
    } else if reported_mv(voltage.ext_dc_mv) >= config.ext_dc_present_mv {
        PowerSource::ExternalDc
    } else if reported_mv(voltage.solar_mv) >= config.solar_present_mv {
        PowerSource::Solar
    } else if reported_mv(voltage.battery_mv) >= config.battery_present_mv {
        PowerSource::Battery
    } else {
        PowerSource::Unknown
    }
}

/// How a battery voltage is rated.
pub open spec fn rating(battery_mv: u16, config: PowerConfig) -> BatteryHealth {
    if battery_mv <= config.critical_battery_mv {
        BatteryHealth::Critical
    } else if battery_mv <= config.low_battery_mv {
        BatteryHealth::Low
    } else {
        BatteryHealth::Normal
    }
}

/// What supplies the device.
fn source_for(
    usb_present: bool,
    battery_mv: u16,
    solar_mv: u16,
    ext_dc_mv: u16,
    config: PowerConfig,
) -> (source: PowerSource)
    ensures
        source == (if usb_present {
            PowerSource::Usb
        } else if ext_dc_mv >= config.ext_dc_present_mv {
            PowerSource::ExternalDc
        } else if solar_mv >= config.solar_present_mv {
            PowerSource::Solar
        } else if battery_mv >= config.battery_present_mv {
            PowerSource::Battery
        } else {
            PowerSource::Unknown
        }),
{
    if usb_present {
        PowerSource::Usb
    } else if ext_dc_mv >= config.ext_dc_present_mv {
        PowerSource::ExternalDc
    } else if solar_mv >= config.solar_present_mv {
        PowerSource::Solar
    } else if battery_mv >= config.battery_present_mv {
        PowerSource::Battery
    } else {
        PowerSource::Unknown
    }
}

/// How a battery voltage is rated.
fn health_for(battery_mv: u16, config: PowerConfig) -> (health: BatteryHealth)
    ensures
        health == rating(battery_mv, config),
{
    if battery_mv <= config.critical_battery_mv {
        BatteryHealth::Critical
    } else if battery_mv <= config.low_battery_mv {
        BatteryHealth::Low
    } else {
        BatteryHealth::Normal
    }
}

/// A voltage as far as it is reported.
fn clamp_mv(value: u32) -> (clamped: u16)
    ensures
        clamped == reported_mv(value),
{
    if value < 65_535 {
        value as u16
    } else {
        65_535
    }
}

/// The state of the power supply, from what was measured.
pub open spec fn power_state(
    voltage: VoltageState,
    charger: ChargerState,
    config: PowerConfig,
) -> PowerState {
    PowerState {
        source: supply(voltage, config),
        battery_mv: reported_mv(voltage.battery_mv),
        solar_mv: reported_mv(voltage.solar_mv),
        ext_dc_mv: reported_mv(voltage.ext_dc_mv),
        charging: charger.charging,
        battery_percent: if reported_mv(voltage.battery_mv) >= config.battery_present_mv {
            Some(charge(reported_mv(voltage.battery_mv) as int) as u8)
        } else {
            None
        },
        health: rating(reported_mv(voltage.battery_mv), config),
        charger,
    }
}

/// The state of the power supply.
pub fn derive_power_state(voltage: VoltageState, charger: ChargerState, config: PowerConfig) -> (state:
    PowerState)
    ensures
        state == power_state(voltage, charger, config),
{
    let battery_mv: u16 = clamp_mv(voltage.battery_mv);
    let solar_mv: u16 = clamp_mv(voltage.solar_mv);
    let ext_dc_mv: u16 = clamp_mv(voltage.ext_dc_mv);
    PowerState {
        source: source_for(voltage.usb_present, battery_mv, solar_mv, ext_dc_mv, config),
        battery_mv,
        solar_mv,
        ext_dc_mv,
        charging: charger.charging,
        battery_percent: if battery_mv >= config.battery_present_mv {
            Some(estimate_battery_percent(battery_mv))
        } else {
            None
        },
        health: health_for(battery_mv, config),
        charger,
    }
}

/// A charge is reported exactly while a battery is present, and a present
/// battery means that the supply is known.
pub proof fn law_present_battery_is_reported(voltage: VoltageState, config: PowerConfig)
    requires
        reported_mv(voltage.battery_mv) >= config.battery_present_mv,
    ensures
        supply(voltage, config) != PowerSource::Unknown,
{
}

/// Lower voltages never rate better, as long as the critical threshold is not
/// above the low one.
pub proof fn law_health_follows_the_voltage(lower_mv: u16, higher_mv: u16, config: PowerConfig)
    requires
        lower_mv <= higher_mv,
    ensures
        rating(higher_mv, config) == BatteryHealth::Critical ==> rating(lower_mv, config)
            == BatteryHealth::Critical,
        rating(lower_mv, config) == BatteryHealth::Normal ==> rating(higher_mv, config)
            == BatteryHealth::Normal,
{
}

/// The charge rises along straight lines, rounded down: ten percent from 3300 to
/// 3500 millivolts, ten more to 3600, twenty more to 3700 and again to 3800, twenty
/// to 3950, fifteen to 4100 and five to 4200. Below there is none, and above it is
/// full.
pub proof fn law_charge_rises_along_straight_lines(battery_mv: int)
    ensures
        ({
            let percent = charge(battery_mv);
            &&& battery_mv <= 3_300 ==> percent == 0
            &&& 3_300 <= battery_mv <= 3_500 ==> 20 * percent <= battery_mv - 3_300 < 20 * (percent
                + 1)
            &&& 3_500 <= battery_mv <= 3_600 ==> 10 * (percent - 10) <= battery_mv - 3_500 < 10 * (
            percent - 9)
            &&& 3_600 <= battery_mv <= 3_800 ==> 5 * (percent - 20) <= battery_mv - 3_600 < 5 * (
            percent - 19)
            &&& 3_800 <= battery_mv <= 3_950 ==> 15 * (percent - 60) <= 2 * (battery_mv - 3_800)
                < 15 * (percent - 59)
            &&& 3_950 <= battery_mv <= 4_100 ==> 10 * (percent - 80) <= battery_mv - 3_950 < 10 * (
            percent - 79)
            &&& 4_100 <= battery_mv <= 4_200 ==> 20 * (percent - 95) <= battery_mv - 4_100 < 20 * (
            percent - 94)
            &&& battery_mv >= 4_200 ==> percent == 100
        }),
{
    lemma_charge_by_segment(battery_mv);
}

/// A supply is named only where its voltage is reached, and only where none stands
/// in for it: USB stands in for all others, the external supply for the solar panel
/// and the battery, and the solar panel for the battery.
pub proof fn law_preferred_supply_is_named(
    voltage: VoltageState,
    charger: ChargerState,
    config: PowerConfig,
)
    ensures
        ({
            let source = power_state(voltage, charger, config).source;
            let external = voltage.ext_dc_mv >= config.ext_dc_present_mv;
            let solar = voltage.solar_mv >= config.solar_present_mv;
            let battery = voltage.battery_mv >= config.battery_present_mv;
            &&& source == PowerSource::Usb <==> voltage.usb_present
            &&& source == PowerSource::ExternalDc <==> external && !voltage.usb_present
            &&& source == PowerSource::Solar <==> solar && !external && !voltage.usb_present
            &&& source == PowerSource::Battery <==> battery && !solar && !external
                && !voltage.usb_present
            &&& source == PowerSource::Unknown <==> !battery && !solar && !external
                && !voltage.usb_present
        }),
{
}

/// The state tells the measured voltages as far as their fields go, what the charger
/// does, the charge of a battery that is present and of no other, and whether the
/// voltage has fallen to the low or the critical threshold.
pub proof fn law_state_tells_what_was_measured(
    voltage: VoltageState,
    charger: ChargerState,
    config: PowerConfig,
)
    ensures
        ({
            let state = power_state(voltage, charger, config);
            &&& voltage.battery_mv <= 65_535 ==> state.battery_mv == voltage.battery_mv
            &&& voltage.solar_mv <= 65_535 ==> state.solar_mv == voltage.solar_mv
            &&& voltage.ext_dc_mv <= 65_535 ==> state.ext_dc_mv == voltage.ext_dc_mv
            &&& voltage.battery_mv > 65_535 ==> state.battery_mv == 65_535
            &&& voltage.solar_mv > 65_535 ==> state.solar_mv == 65_535
            &&& voltage.ext_dc_mv > 65_535 ==> state.ext_dc_mv == 65_535
            &&& state.charging == charger.charging
            &&& state.charger == charger
            &&& state.battery_percent is Some <==> voltage.battery_mv >= config.battery_present_mv
            &&& state.battery_percent matches Some(percent) ==> percent == charge(
                state.battery_mv as int,
            )
            &&& state.health == BatteryHealth::Critical <==> voltage.battery_mv
                <= config.critical_battery_mv || config.critical_battery_mv == 65_535
            &&& state.health == BatteryHealth::Normal <==> voltage.battery_mv
                > config.critical_battery_mv && voltage.battery_mv > config.low_battery_mv
                && config.critical_battery_mv < 65_535 && config.low_battery_mv < 65_535
        }),
{
    law_charge_follows_the_curve(
        reported_mv(voltage.battery_mv) as int,
        reported_mv(voltage.battery_mv) as int,
        0,
    );
}

} // verus!
