use niva_dashboard::hardware::hw_providers::HWInput;
use niva_dashboard::hardware::sensor_config::{
    check_rom, plan_chain, plan_chains, ChainEntry, ChainPlan, ChainSource, ConstraintsEntry, ConstraintsPlan,
    DigitalPreset, SensorKind,
};

fn entry(group: &str, hw_input: &str, provider: &str, sensor: SensorKind) -> ChainEntry {
    ChainEntry {
        group: group.to_string(),
        hw_input: hw_input.to_string(),
        provider: provider.to_string(),
        rom: None,
        digital_processors: 0,
        analog_processors: 0,
        sensor,
        curve_points: 0,
        curve_finite: true,
        constraints: ConstraintsEntry::Raw,
    }
}

fn digital(group: &str, hw_input: &str, preset: &str) -> ChainEntry {
    ChainEntry {
        digital_processors: 1,
        constraints: ConstraintsEntry::Preset(preset.to_string()),
        ..entry(group, hw_input, "adc", SensorKind::GenericDigital)
    }
}

const ROM: &str = "2854df6b000000d9";

fn temperature(hw_input: &str, rom: Option<&str>) -> ChainEntry {
    ChainEntry { rom: rom.map(|r| r.to_string()), analog_processors: 1, ..entry("sensor", hw_input, "adc_temp", SensorKind::OneWireTemp) }
}

#[test]
fn digital_entry_with_preset_is_planned() {
    assert_eq!(
        plan_chain(&digital("sensor", "HwParkBrake", "warning"), false),
        Ok(ChainPlan {
            input: HWInput::HwParkBrake,
            source: ChainSource::Adc,
            sensor: SensorKind::GenericDigital,
            constraints: ConstraintsPlan::Preset(DigitalPreset::Warning),
        })
    );
}

#[test]
fn analog_entries_are_planned() {
    let fuel = ChainEntry { analog_processors: 1, ..entry("sensor", "HwFuelLvl", "adc", SensorKind::GenericAnalog) };
    assert_eq!(
        plan_chain(&fuel, false),
        Ok(ChainPlan {
            input: HWInput::HwFuelLvl,
            source: ChainSource::Adc,
            sensor: SensorKind::GenericAnalog,
            constraints: ConstraintsPlan::Raw,
        })
    );
    let volts = entry("sensor", "Hw12v", "adc", SensorKind::VoltageDividerAnalog);
    assert!(plan_chain(&volts, false).is_ok());
    let oil = ChainEntry { curve_points: 3, ..entry("sensor", "HwOilPress", "adc", SensorKind::CalibratedAnalog) };
    assert_eq!(plan_chain(&oil, false).map(|p| p.sensor), Ok(SensorKind::CalibratedAnalog));
}

#[test]
fn calibrated_analog_curve_with_one_point_is_a_load_error() {
    let oil = ChainEntry { curve_points: 1, ..entry("sensor", "HwOilPress", "adc", SensorKind::CalibratedAnalog) };
    assert_eq!(
        plan_chain(&oil, false),
        Err("sensor config: hw_input 'HwOilPress' calibrated_analog curve needs at least 2 points, has 1".to_string())
    );
}

#[test]
fn calibrated_analog_curve_must_be_finite() {
    let oil = ChainEntry { curve_points: 12, curve_finite: false, ..entry("sensor", "HwOilPress", "adc", SensorKind::CalibratedAnalog) };
    assert_eq!(
        plan_chain(&oil, false),
        Err("sensor config: hw_input 'HwOilPress' calibrated_analog curve has a non-finite ohm/value".to_string())
    );
}

#[test]
fn unknown_hw_input_is_a_load_error_naming_the_string() {
    let err = plan_chain(&digital("sensor", "NotARealInput", "default"), false).unwrap_err();
    assert_eq!(err, "sensor config: unknown hw_input 'NotARealInput'");
}

#[test]
fn mismatched_processor_kind_is_a_load_error() {
    let e = ChainEntry { analog_processors: 1, ..digital("sensor", "HwParkBrake", "default") };
    assert_eq!(
        plan_chain(&e, false),
        Err("sensor config: hw_input 'HwParkBrake' is a digital sensor but lists analog_processors".to_string())
    );
    let a = ChainEntry { digital_processors: 2, ..entry("sensor", "HwFuelLvl", "adc", SensorKind::GenericAnalog) };
    assert_eq!(
        plan_chain(&a, false),
        Err("sensor config: hw_input 'HwFuelLvl' is an analog sensor but lists digital_processors".to_string())
    );
}

#[test]
fn unsupported_provider_is_a_load_error() {
    let e = ChainEntry { provider: "gnss".to_string(), ..digital("sensor", "HwParkBrake", "default") };
    assert_eq!(
        plan_chain(&e, false),
        Err("sensor config: hw_input 'HwParkBrake' has unsupported provider 'gnss' (expected \"adc\" or \"adc_temp\")"
            .to_string())
    );
}

#[test]
fn unknown_digital_preset_is_a_load_error() {
    assert_eq!(
        plan_chain(&digital("sensor", "HwHighBeam", "loud"), false),
        Err("sensor config: hw_input 'HwHighBeam' has unknown digital_preset 'loud' (expected default/warning/critical)"
            .to_string())
    );
}

#[test]
fn temperature_entry_is_planned() {
    assert_eq!(
        plan_chain(&temperature("HwEngineCoolantTemp", Some(ROM)), true),
        Ok(ChainPlan {
            input: HWInput::HwEngineCoolantTemp,
            source: ChainSource::AdcTemp,
            sensor: SensorKind::OneWireTemp,
            constraints: ConstraintsPlan::Raw,
        })
    );
}

#[test]
fn adc_temp_needs_a_temperature_frame() {
    assert_eq!(
        plan_chain(&temperature("HwEngineCoolantTemp", Some(ROM)), false),
        Err("sensor config: hw_input 'HwEngineCoolantTemp' uses provider \"adc_temp\" but no one-wire temperature frame is available"
            .to_string())
    );
}

#[test]
fn adc_temp_without_rom_is_a_load_error() {
    let err = plan_chain(&temperature("HwEngineCoolantTemp", None), true).unwrap_err();
    assert_eq!(err, "sensor config: hw_input 'HwEngineCoolantTemp' uses provider \"adc_temp\" but has no \"rom\" address");
}

#[test]
fn adc_temp_with_short_rom_is_a_load_error() {
    let err = plan_chain(&temperature("HwEngineCoolantTemp", Some("28ff")), true).unwrap_err();
    assert_eq!(err, "sensor config: hw_input 'HwEngineCoolantTemp' has malformed rom '28ff' (expected 16 hex characters)");
}

#[test]
fn one_wire_temp_kind_with_plain_adc_provider_is_a_load_error() {
    let e = ChainEntry { provider: "adc".to_string(), ..temperature("HwEngineCoolantTemp", Some(ROM)) };
    let err = plan_chain(&e, true).unwrap_err();
    assert_eq!(err, "sensor config: hw_input 'HwEngineCoolantTemp' has sensor kind \"one_wire_temp\" but provider is not \"adc_temp\"");
}

#[test]
fn adc_temp_with_digital_processors_is_a_load_error() {
    let e = ChainEntry { digital_processors: 1, ..temperature("HwEngineCoolantTemp", Some(ROM)) };
    let err = plan_chain(&e, true).unwrap_err();
    assert_eq!(err, "sensor config: hw_input 'HwEngineCoolantTemp' is a temperature (analog) sensor but lists digital_processors");
}

#[test]
fn adc_temp_with_other_sensor_kind_is_a_load_error() {
    let e = ChainEntry { sensor: SensorKind::GenericAnalog, ..temperature("HwEngineCoolantTemp", Some(ROM)) };
    let err = plan_chain(&e, true).unwrap_err();
    assert_eq!(err, "sensor config: hw_input 'HwEngineCoolantTemp' uses provider \"adc_temp\" but sensor kind is not \"one_wire_temp\"");
}

#[test]
fn rom_addresses() {
    assert!(check_rom(ROM));
    assert!(check_rom("ABCDEF0123456789"));
    assert!(!check_rom("28ff"));
    assert!(!check_rom("2854df6b000000dg"));
    assert!(!check_rom("2854df6b000000d9a"));
    assert!(!check_rom("2854df6b00000é9")); // 16 bytes, but 'é' is no hex digit
}

#[test]
fn loads_only_the_requested_group() {
    let entries = vec![digital("sensor", "HwParkBrake", "warning"), digital("button", "HwDiffLock", "default")];
    let (plans, err) = plan_chains(&entries, "sensor", false);
    assert_eq!(err, None);
    assert_eq!(plans.len(), 1);
    assert_eq!(plans[0].input, HWInput::HwParkBrake);
    let (plans, err) = plan_chains(&entries, "button", false);
    assert_eq!(err, None);
    assert_eq!(plans.iter().map(|p| p.input).collect::<Vec<_>>(), vec![HWInput::HwDiffLock]);
}

#[test]
fn loading_stops_at_the_first_refused_entry() {
    let entries = vec![
        digital("sensor", "HwParkBrake", "warning"),
        digital("button", "Nonsense", "default"),
        digital("sensor", "HwHighBeam", "bogus"),
        digital("sensor", "HwCharge", "critical"),
        digital("sensor", "AlsoNonsense", "default"),
    ];
    let (plans, err) = plan_chains(&entries, "sensor", false);
    assert_eq!(plans.iter().map(|p| p.input).collect::<Vec<_>>(), vec![HWInput::HwParkBrake]);
    assert_eq!(
        err,
        Some("sensor config: hw_input 'HwHighBeam' has unknown digital_preset 'bogus' (expected default/warning/critical)".to_string())
    );
}
