use niva_dashboard::hardware::gpio_input::{GpioInputConfig, PinBias, PinState};
use niva_dashboard::hardware::heading_fusion_sensor::{new_heading_fusion_chain, HeadingFusion, HeadingSource};
use niva_dashboard::hardware::hw_providers::{
    GPIOProvider, HWAnalogProvider, HWDigitalProvider, HWInput, I2CProvider, TestAnalogDataProvider,
    TestDigitalDataProvider, TestMaxAnalogDataProvider, TestMiddleAnalogDataProvider, TestZeroAnalogDataProvider,
};
use niva_dashboard::hardware::sensor_value::{AlarmLevel, ValueMetadata};
use rppal::gpio::Level;
use std::time::{Duration, Instant};

fn wait_ms(ms: u64) {
    let start = Instant::now();
    while start.elapsed() < Duration::from_millis(ms) {}
}

// ---------------------------------------------------------------- HWInput

#[test]
fn test_hw_input_enum_completeness() {
    let analog_inputs = vec![HWInput::Hw12v, HWInput::HwFuelLvl, HWInput::HwOilPress, HWInput::HwEngineCoolantTemp];

    let digital_inputs = vec![
        HWInput::HwBrakeFluidLvlLow,
        HWInput::HwCharge,
        HWInput::HwCheckEngine,
        HWInput::HwDiffLock,
        HWInput::HwExtLights,
        HWInput::HwFuelLvlLow,
        HWInput::HwHighBeam,
        HWInput::HwInstrIllum,
        HWInput::HwOilPressLow,
        HWInput::HwParkBrake,
        HWInput::HwSpeed,
        HWInput::HwTacho,
        HWInput::HwTurnSignal,
    ];

    assert_eq!(analog_inputs.len(), 4);
    assert_eq!(digital_inputs.len(), 13);

    let input = HWInput::Hw12v;
    let cloned_input = input.clone();
    assert_eq!(input, cloned_input);
    println!("{:?}", input);
}

#[test]
fn test_hw_input_equality() {
    assert_eq!(HWInput::Hw12v, HWInput::Hw12v);
    assert_ne!(HWInput::Hw12v, HWInput::HwFuelLvl);
}

// ---------------------------------------------------------------- GPIOProvider

#[test]
fn test_gpio_provider_creation() {
    let provider = GPIOProvider::new(HWInput::HwBrakeFluidLvlLow);
    assert_eq!(provider.input(), HWInput::HwBrakeFluidLvlLow);
}

#[test]
fn test_gpio_provider_digital_read() {
    let provider = GPIOProvider::new(HWInput::HwBrakeFluidLvlLow);
    let result = provider.read_digital(HWInput::HwBrakeFluidLvlLow);
    assert!(result.is_ok());
    assert_eq!(result.unwrap(), PinState::Low);
}

#[test]
fn test_gpio_provider_different_inputs() {
    let provider = GPIOProvider::new(HWInput::HwCharge);
    let result = provider.read_digital(HWInput::HwSpeed);
    assert!(result.is_ok());
    let result = provider.read_digital(HWInput::Hw12v);
    assert!(result.is_ok());
}

// ---------------------------------------------------------------- I2CProvider

#[test]
fn test_i2c_provider_creation() {
    let provider = I2CProvider::new(HWInput::HwOilPress);
    assert_eq!(HWAnalogProvider::input(&provider), HWInput::HwOilPress);
}

#[test]
fn test_i2c_provider_analog_read() {
    let provider = I2CProvider::new(HWInput::HwOilPress);
    let result = provider.read_analog(HWInput::HwOilPress);
    assert!(result.is_ok());
    assert_eq!(result.unwrap(), 0);
}

#[test]
fn test_i2c_provider_digital_read() {
    let provider = I2CProvider::new(HWInput::HwBrakeFluidLvlLow);
    let result = provider.read_digital(HWInput::HwBrakeFluidLvlLow);
    assert!(result.is_ok());
    assert_eq!(result.unwrap(), PinState::Low);
}

#[test]
fn test_i2c_provider_different_inputs() {
    let analog_provider = I2CProvider::new(HWInput::Hw12v);
    let digital_provider = I2CProvider::new(HWInput::HwCharge);
    assert!(analog_provider.read_analog(HWInput::HwFuelLvl).is_ok());
    assert!(digital_provider.read_digital(HWInput::HwHighBeam).is_ok());
}

#[test]
fn i2c_provider_serves_its_input_to_both_traits() {
    let provider = I2CProvider::new(HWInput::HwCharge);
    assert_eq!(HWAnalogProvider::input(&provider), HWInput::HwCharge);
    assert_eq!(HWDigitalProvider::input(&provider), HWInput::HwCharge);
}

// ---------------------------------------------------------------- TestDigitalDataProvider

#[test]
fn test_digital_test_provider_creation() {
    let provider = TestDigitalDataProvider::new(HWInput::HwCheckEngine);
    assert_eq!(provider.input(), HWInput::HwCheckEngine);
}

#[test]
fn test_digital_test_provider_initial_state() {
    let provider = TestDigitalDataProvider::new(HWInput::HwCheckEngine);
    let result = provider.read_digital(HWInput::HwCheckEngine);
    assert!(result.is_ok());
    assert_eq!(result.unwrap(), PinState::High);
}

#[test]
fn test_digital_test_provider_timing() {
    let provider = TestDigitalDataProvider::new(HWInput::HwCheckEngine);
    for _ in 0..10 {
        let result = provider.read_digital(HWInput::HwCheckEngine);
        assert!(result.is_ok());
        assert_eq!(result.unwrap(), PinState::High);
        wait_ms(10);
    }
}

#[test]
fn test_digital_test_provider_with_different_inputs() {
    let provider = TestDigitalDataProvider::new(HWInput::HwDiffLock);
    let result = provider.read_digital(HWInput::HwTurnSignal);
    assert!(result.is_ok());
    assert_eq!(result.unwrap(), PinState::High);
}

#[test]
fn digital_test_level_switches_after_four_seconds() {
    assert_eq!(TestDigitalDataProvider::level_at(0), PinState::High);
    assert_eq!(TestDigitalDataProvider::level_at(3_999_999_999), PinState::High);
    assert_eq!(TestDigitalDataProvider::level_at(4_000_000_000), PinState::Low);
    assert_eq!(TestDigitalDataProvider::level_at(u128::MAX), PinState::Low);
}

// ---------------------------------------------------------------- TestAnalogDataProvider

#[test]
fn test_analog_test_provider_creation() {
    let provider = TestAnalogDataProvider::new(HWInput::HwOilPress);
    assert_eq!(provider.input(), HWInput::HwOilPress);
}

#[test]
fn test_analog_test_provider_initial_values() {
    let provider = TestAnalogDataProvider::new(HWInput::HwOilPress);
    let result = provider.read_analog(HWInput::HwOilPress);
    assert!(result.is_ok());
    let value = result.unwrap();
    assert!(value < 100);
}

#[test]
fn test_analog_test_provider_value_range() {
    let provider = TestAnalogDataProvider::new(HWInput::HwFuelLvl);
    for _ in 0..20 {
        let result = provider.read_analog(HWInput::HwFuelLvl);
        assert!(result.is_ok());
        assert!(result.unwrap() <= 1023);
        wait_ms(50);
    }
}

#[test]
fn test_analog_test_provider_progression() {
    let provider = TestAnalogDataProvider::new(HWInput::Hw12v);
    let mut values = Vec::new();
    for _ in 0..10 {
        let result = provider.read_analog(HWInput::Hw12v);
        assert!(result.is_ok());
        values.push(result.unwrap());
        wait_ms(100);
    }
    let first_value = values[0];
    let last_value = values[values.len() - 1];
    assert!(last_value >= first_value);
}

#[test]
fn test_analog_test_provider_different_inputs() {
    let provider = TestAnalogDataProvider::new(HWInput::HwEngineCoolantTemp);
    let result = provider.read_analog(HWInput::Hw12v);
    assert!(result.is_ok());
    let value = result.unwrap();
    assert!(value <= 1023);
}

#[test]
fn analog_test_pattern_values() {
    assert_eq!(TestAnalogDataProvider::value_at(0), 0);
    assert_eq!(TestAnalogDataProvider::value_at(1250), 511); // 1023 * 0.5 = 511.5
    assert_eq!(TestAnalogDataProvider::value_at(2499), 1022); // 1023 * 2499 / 2500 = 1022.59
    assert_eq!(TestAnalogDataProvider::value_at(2500), 1023); // top of the falling half
    assert_eq!(TestAnalogDataProvider::value_at(3750), 511); // 1023 - 511.5
    assert_eq!(TestAnalogDataProvider::value_at(4999), 0); // 1023 - 1022.59 = 0.41
    assert_eq!(TestAnalogDataProvider::value_at(5000), 0); // next cycle
    assert_eq!(TestAnalogDataProvider::value_at(6250), 511);
}

// ---------------------------------------------------------------- constant providers

#[test]
fn constant_test_providers() {
    let zero = TestZeroAnalogDataProvider::new(HWInput::HwFuelLvl);
    let middle = TestMiddleAnalogDataProvider::new(HWInput::HwOilPress);
    let max = TestMaxAnalogDataProvider::new(HWInput::Hw12v);
    assert_eq!(zero.input(), HWInput::HwFuelLvl);
    assert_eq!(middle.input(), HWInput::HwOilPress);
    assert_eq!(max.input(), HWInput::Hw12v);
    assert_eq!(zero.read_analog(HWInput::HwFuelLvl), Ok(0));
    assert_eq!(middle.read_analog(HWInput::HwOilPress), Ok(512));
    assert_eq!(max.read_analog(HWInput::Hw12v), Ok(1023));
}

// ---------------------------------------------------------------- trait use

#[test]
fn test_hw_analog_provider_trait() {
    let provider = TestAnalogDataProvider::new(HWInput::Hw12v);
    assert_eq!(provider.input(), HWInput::Hw12v);
    let result = provider.read_analog(HWInput::Hw12v);
    assert!(result.is_ok());
}

#[test]
fn test_hw_digital_provider_trait() {
    let provider = TestDigitalDataProvider::new(HWInput::HwBrakeFluidLvlLow);
    assert_eq!(provider.input(), HWInput::HwBrakeFluidLvlLow);
    let result = provider.read_digital(HWInput::HwBrakeFluidLvlLow);
    assert!(result.is_ok());
}

#[test]
fn test_analog_provider_polymorphism() {
    let test_provider: Box<dyn HWAnalogProvider> = Box::new(TestAnalogDataProvider::new(HWInput::Hw12v));
    let i2c_provider: Box<dyn HWAnalogProvider> = Box::new(I2CProvider::new(HWInput::HwFuelLvl));

    let providers = vec![test_provider, i2c_provider];

    for provider in providers {
        let result = provider.read_analog(HWInput::Hw12v);
        assert!(result.is_ok());
    }
}

#[test]
fn test_providers_with_all_input_types() {
    let analog_inputs = vec![HWInput::Hw12v, HWInput::HwFuelLvl, HWInput::HwOilPress, HWInput::HwEngineCoolantTemp];

    let digital_inputs = vec![
        HWInput::HwBrakeFluidLvlLow,
        HWInput::HwCharge,
        HWInput::HwCheckEngine,
        HWInput::HwDiffLock,
        HWInput::HwExtLights,
        HWInput::HwFuelLvlLow,
        HWInput::HwHighBeam,
        HWInput::HwInstrIllum,
        HWInput::HwOilPressLow,
        HWInput::HwParkBrake,
        HWInput::HwSpeed,
        HWInput::HwTacho,
        HWInput::HwTurnSignal,
    ];

    for input in analog_inputs {
        let provider = TestAnalogDataProvider::new(input);
        assert!(provider.read_analog(input).is_ok());
    }

    for input in digital_inputs {
        let provider = TestDigitalDataProvider::new(input);
        assert!(provider.read_digital(input).is_ok());
    }
}

#[test]
fn test_provider_consistency() {
    let gpio_provider = GPIOProvider::new(HWInput::HwBrakeFluidLvlLow);
    let i2c_provider = I2CProvider::new(HWInput::HwOilPress);
    let test_provider = TestDigitalDataProvider::new(HWInput::HwCheckEngine);

    for _ in 0..5 {
        assert_eq!(gpio_provider.input(), HWInput::HwBrakeFluidLvlLow);
        assert_eq!(HWAnalogProvider::input(&i2c_provider), HWInput::HwOilPress);
        assert_eq!(test_provider.input(), HWInput::HwCheckEngine);
    }
}

#[test]
fn test_provider_performance() {
    let provider = TestAnalogDataProvider::new(HWInput::Hw12v);
    let start = Instant::now();

    for _ in 0..1000 {
        let result = provider.read_analog(HWInput::Hw12v);
        assert!(result.is_ok());
    }

    let elapsed = start.elapsed();
    assert!(elapsed < Duration::from_secs(1));
}

// ---------------------------------------------------------------- PinState

#[test]
fn test_pin_state_conversion() {
    assert_eq!(PinState::from(Level::High), PinState::High);
    assert_eq!(PinState::from(Level::Low), PinState::Low);
}

#[test]
fn test_config_default() {
    let config = GpioInputConfig::default();
    assert_eq!(config.pin_number, 2);
    assert_eq!(config.bias, PinBias::PullUp);
    assert!(config.active_low);
}

#[test]
fn gpio_config_with_pin_and_activity() {
    let config = GpioInputConfig::with_pin(17);
    assert_eq!(config.pin_number, 17);
    assert_eq!(config.bias, PinBias::PullUp);
    assert!(config.is_active(PinState::Low));
    assert!(!config.is_active(PinState::High));
    let high_active = GpioInputConfig { active_low: false, ..config };
    assert!(high_active.is_active(PinState::High));
}

#[test]
fn test_pin_state_display() {
    assert_eq!(PinState::High.to_display_string(), "HIGH");
    assert_eq!(PinState::Low.to_display_string(), "LOW");
}

#[test]
fn pin_state_round_trips_through_level() {
    assert_eq!(PinState::High.to_level(), Level::High);
    assert_eq!(PinState::Low.to_level(), Level::Low);
    assert_eq!(PinState::from_level(PinState::High.to_level()), PinState::High);
}

#[test]
fn pin_state_activity_respects_polarity() {
    assert!(PinState::Low.is_active(true));
    assert!(!PinState::High.is_active(true));
    assert!(PinState::High.is_active(false));
    assert!(!PinState::Low.is_active(false));
}

// ---------------------------------------------------------------- heading fusion

// Raw headings in the providers' fixed-point encoding (hundredths of a degree).
const DEG_10: u16 = 1_000;
const DEG_45: u16 = 4_500;
const DEG_90: u16 = 9_000;
const DEG_180: u16 = 18_000;

#[test]
fn test_prefers_bno085_when_both_available() {
    let sensor = HeadingFusion::new();
    assert_eq!(sensor.select(&[Some(DEG_90), Some(DEG_180)]), Some(DEG_90));
}

#[test]
fn test_falls_back_to_gnss_when_bno085_unavailable() {
    let sensor = HeadingFusion::new();
    assert_eq!(sensor.select(&[None, Some(DEG_180)]), Some(DEG_180));
}

#[test]
fn test_empty_when_neither_source_available() {
    let sensor = HeadingFusion::new();
    assert_eq!(sensor.select(&[None, None]), None);
}

#[test]
fn test_stays_fresh_across_reads_when_source_flips() {
    let sensor = HeadingFusion::new();
    sensor.select(&[None, Some(DEG_45)]);
    assert_eq!(sensor.select(&[Some(DEG_10), Some(DEG_45)]), Some(DEG_10));
}

#[test]
fn heading_fusion_is_empty_when_sources_drop_out() {
    let sensor = HeadingFusion::new();
    assert_eq!(sensor.select(&[Some(DEG_90), None]), Some(DEG_90));
    assert_eq!(sensor.select(&[None, None]), None);
    assert_eq!(sensor.select(&[]), None);
    assert_eq!(sensor.select(&[None]), None);
}

#[test]
fn heading_chain_orders_sources_for_the_fusion() {
    let chain = new_heading_fusion_chain();
    assert_eq!(chain.sources(), &vec![HeadingSource::Bno085, HeadingSource::Gnss]);
    assert_eq!(chain.read(&[None, None]), None);
    assert_eq!(chain.read(&[None, Some(DEG_45)]), Some(DEG_45));
    assert_eq!(chain.read(&[Some(DEG_10), Some(DEG_45)]), Some(DEG_10));
    assert_eq!(chain.read(&[None, None]), None);
}

// ---------------------------------------------------------------- configuration names

#[test]
fn config_names_round_trip() {
    let all = [
        HWInput::Hw12v,
        HWInput::HwFuelLvl,
        HWInput::HwOilPress,
        HWInput::HwEngineCoolantTemp,
        HWInput::HwBrakeFluidLvlLow,
        HWInput::HwCharge,
        HWInput::HwCheckEngine,
        HWInput::HwDiffLock,
        HWInput::HwExtLights,
        HWInput::HwFuelLvlLow,
        HWInput::HwHighBeam,
        HWInput::HwInstrIllum,
        HWInput::HwOilPressLow,
        HWInput::HwParkBrake,
        HWInput::HwSpeed,
        HWInput::HwTacho,
        HWInput::HwTurnSignal,
    ];
    for input in all {
        assert_eq!(HWInput::from_config_name(input.config_name()), Some(input));
        assert_eq!(input.config_name(), format!("{:?}", input));
    }
}

#[test]
fn config_names_of_the_mock_values_file() {
    assert_eq!(HWInput::from_config_name("HwFuelLvl"), Some(HWInput::HwFuelLvl));
    assert_eq!(HWInput::from_config_name("Hw12v"), Some(HWInput::Hw12v));
    assert_eq!(HWInput::from_config_name("NotARealInput"), None);
    assert_eq!(HWInput::from_config_name("hw12v"), None);
    assert_eq!(HWInput::from_config_name(""), None);
}

// ---------------------------------------------------------------- sensor values

#[test]
fn alarm_level_critical_overrides_warning() {
    assert_eq!(AlarmLevel::from_checks(true, true), AlarmLevel::Critical);
    assert_eq!(AlarmLevel::from_checks(true, false), AlarmLevel::Critical);
    assert_eq!(AlarmLevel::from_checks(false, true), AlarmLevel::Warning);
    assert_eq!(AlarmLevel::from_checks(false, false), AlarmLevel::Normal);
    assert!(AlarmLevel::Critical.is_critical());
    assert!(!AlarmLevel::Critical.is_warning());
    assert!(AlarmLevel::Warning.is_warning());
    assert!(!AlarmLevel::Normal.is_critical() && !AlarmLevel::Normal.is_warning());
}

#[test]
fn value_metadata_keeps_fields() {
    let m = ValueMetadata::new("°C".to_string(), "Engine Temp".to_string(), "coolant".to_string());
    assert_eq!(m.unit, "°C");
    assert_eq!(m.label, "Engine Temp");
    assert_eq!(m.sensor_id, "coolant");
}
