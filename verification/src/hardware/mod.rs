//! Hardware inputs: identifiers, raw providers, signal conditioning and sensor values.

pub mod analog_signal_processing;
pub mod digital_signal_processing;
pub mod gpio_input;
pub mod heading_fusion_sensor;
pub mod hw_providers;
pub mod sensor_config;
pub mod sensor_value;
