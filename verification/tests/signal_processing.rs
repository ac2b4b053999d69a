use niva_dashboard::hardware::analog_signal_processing::{AnalogSignalProcessor, AnalogSignalProcessorMovingAverage};
use niva_dashboard::hardware::digital_signal_processing::{DigitalSignalDebouncer, DigitalSignalProcessor};
use niva_dashboard::hardware::gpio_input::PinState;
use std::time::{Duration, Instant};

fn wait_ms(ms: u64) {
    let start = Instant::now();
    while start.elapsed() < Duration::from_millis(ms) {}
}

// ---------------------------------------------------------------- moving average

#[test]
fn test_moving_average_creation() {
    let processor = AnalogSignalProcessorMovingAverage::new(5);

    assert_eq!(processor.window_size(), 5);
    assert_eq!(processor.values().len(), 0);
    assert_eq!(processor.capacity(), 5);
}

#[test]
fn test_moving_average_single_value() {
    let mut processor = AnalogSignalProcessorMovingAverage::new(3);

    let result = processor.read(100).unwrap();
    assert_eq!(result, 100);
    assert_eq!(processor.values().len(), 1);
}

#[test]
fn test_moving_average_multiple_values() {
    let mut processor = AnalogSignalProcessorMovingAverage::new(3);

    let result = processor.read(100).unwrap();
    assert_eq!(result, 100);

    let result = processor.read(200).unwrap();
    assert_eq!(result, 150);

    let result = processor.read(300).unwrap();
    assert_eq!(result, 200);
}

#[test]
fn test_moving_average_window_overflow() {
    let mut processor = AnalogSignalProcessorMovingAverage::new(2);

    processor.read(100).unwrap();
    processor.read(200).unwrap();
    assert_eq!(processor.values().len(), 2);

    let result = processor.read(300).unwrap();
    assert_eq!(result, 250);
    assert_eq!(processor.values().len(), 2);
    assert_eq!(processor.values()[0], 200);
    assert_eq!(processor.values()[1], 300);
}

#[test]
fn test_moving_average_large_window() {
    let mut processor = AnalogSignalProcessorMovingAverage::new(5);
    let values = [100, 150, 200, 250, 300];

    for (i, &value) in values.iter().enumerate() {
        let result = processor.read(value).unwrap();
        let expected_sum: u32 = values[0..=i].iter().map(|&x| x as u32).sum();
        let expected_avg = expected_sum / (i + 1) as u32;
        assert_eq!(result, expected_avg as u16);
    }

    let result = processor.read(350).unwrap();
    let expected = (150 + 200 + 250 + 300 + 350) / 5;
    assert_eq!(result, expected);
}

#[test]
fn test_moving_average_zero_values() {
    let mut processor = AnalogSignalProcessorMovingAverage::new(3);

    assert_eq!(processor.read(0).unwrap(), 0);
    assert_eq!(processor.read(0).unwrap(), 0);
    assert_eq!(processor.read(100).unwrap(), 33);
}

#[test]
fn test_moving_average_maximum_values() {
    let mut processor = AnalogSignalProcessorMovingAverage::new(2);

    assert_eq!(processor.read(u16::MAX).unwrap(), u16::MAX);
    assert_eq!(processor.read(u16::MAX).unwrap(), u16::MAX);
    assert_eq!(processor.read(0).unwrap(), u16::MAX / 2);
}

#[test]
fn test_moving_average_alternating_values() {
    let mut processor = AnalogSignalProcessorMovingAverage::new(4);

    let values = [1000, 100, 1000, 100];
    let mut results = Vec::new();

    for &value in &values {
        results.push(processor.read(value).unwrap());
    }

    assert_eq!(results[0], 1000);
    assert_eq!(results[1], 550);
    assert_eq!(results[2], 700);
    assert_eq!(results[3], 550);
}

#[test]
fn test_moving_average_window_size_edge_cases() {
    let mut processor = AnalogSignalProcessorMovingAverage::new(1);
    assert_eq!(processor.read(100).unwrap(), 100);
    assert_eq!(processor.read(200).unwrap(), 200);
    assert_eq!(processor.values().len(), 1);

    let mut large_processor = AnalogSignalProcessorMovingAverage::new(100);
    for i in 1..=50 {
        let result = large_processor.read(i * 10).unwrap();
        let expected = (i * (i + 1) * 10) / (2 * i);
        assert_eq!(result, expected);
    }
}

#[test]
fn moving_average_of_constant_input_is_that_input() {
    let mut processor = AnalogSignalProcessorMovingAverage::new(3);
    assert_eq!(processor.read(5).unwrap(), 5);
    assert_eq!(processor.read(777).unwrap(), 391); // (5 + 777) / 2
    assert_eq!(processor.read(777).unwrap(), 519); // (5 + 777 + 777) / 3
    assert_eq!(processor.read(777).unwrap(), 777); // the 5 has left the window
    assert_eq!(processor.values(), &vec![777, 777, 777]);
}

#[test]
fn moving_average_rounds_down() {
    let mut processor = AnalogSignalProcessorMovingAverage::new(2);
    processor.read(1).unwrap();
    assert_eq!(processor.read(2).unwrap(), 1, "(1 + 2) / 2 = 1.5 rounds down");
}

#[test]
fn moving_average_through_trait_object() {
    let mut p: Box<dyn AnalogSignalProcessor> = Box::new(AnalogSignalProcessorMovingAverage::new(2));
    assert_eq!(p.read(10), Ok(10));
    assert_eq!(p.read(20), Ok(15));
}

// ---------------------------------------------------------------- debouncer

#[test]
fn test_digital_signal_debouncer_creation() {
    let debouncer = DigitalSignalDebouncer::new(3, Duration::from_millis(50));

    assert_eq!(debouncer.last_stable_state(), PinState::Low);
    assert_eq!(debouncer.last_confirmed_state(), PinState::Low);
    assert_eq!(debouncer.stable_count(), 0);
    assert_eq!(debouncer.required_stable_count(), 3);
    assert_eq!(debouncer.required_stable_delay(), Duration::from_millis(50));
}

#[test]
fn test_digital_signal_debouncer_basic_operation() {
    let mut debouncer = DigitalSignalDebouncer::new(2, Duration::from_millis(10));

    assert_eq!(debouncer.read(PinState::Low).unwrap(), PinState::Low);
    assert_eq!(debouncer.read(PinState::High).unwrap(), PinState::Low);
    assert_eq!(debouncer.read(PinState::High).unwrap(), PinState::Low);

    wait_ms(15);

    assert_eq!(debouncer.read(PinState::High).unwrap(), PinState::High);
}

#[test]
fn test_digital_signal_debouncer_state_changes() {
    let mut debouncer = DigitalSignalDebouncer::new(1, Duration::from_millis(5));

    debouncer.read(PinState::Low).unwrap();
    wait_ms(10);
    assert_eq!(debouncer.read(PinState::Low).unwrap(), PinState::Low);

    debouncer.read(PinState::High).unwrap();
    wait_ms(10);
    assert_eq!(debouncer.read(PinState::High).unwrap(), PinState::High);

    debouncer.read(PinState::Low).unwrap();
    wait_ms(10);
    assert_eq!(debouncer.read(PinState::Low).unwrap(), PinState::Low);
}

#[test]
fn test_digital_signal_debouncer_bouncing_signals() {
    let mut debouncer = DigitalSignalDebouncer::new(3, Duration::from_millis(20));

    debouncer.read(PinState::Low).unwrap();
    wait_ms(25);
    assert_eq!(debouncer.read(PinState::Low).unwrap(), PinState::Low);

    assert_eq!(debouncer.read(PinState::High).unwrap(), PinState::Low);
    assert_eq!(debouncer.read(PinState::Low).unwrap(), PinState::Low);
    assert_eq!(debouncer.read(PinState::High).unwrap(), PinState::Low);
    assert_eq!(debouncer.read(PinState::Low).unwrap(), PinState::Low);
    assert_eq!(debouncer.read(PinState::High).unwrap(), PinState::Low);

    wait_ms(25);
    assert_eq!(debouncer.read(PinState::High).unwrap(), PinState::Low);
}

#[test]
fn test_digital_signal_processor_trait_implementations() {
    let mut debouncer: Box<dyn DigitalSignalProcessor> =
        Box::new(DigitalSignalDebouncer::new(1, Duration::from_millis(1)));

    assert!(debouncer.read(PinState::High).is_ok());
    assert!(debouncer.read(PinState::Low).is_ok());
}

#[test]
fn debouncer_with_explicit_clock() {
    let mut d = DigitalSignalDebouncer::new(2, Duration::from_millis(10));
    let t = Instant::now();
    assert_eq!(d.read_at(PinState::High, t, 0), PinState::Low, "a change only starts tracking");
    assert_eq!(d.stable_count(), 1);
    assert_eq!(d.last_stable_state(), PinState::High);
    assert_eq!(d.read_at(PinState::High, t, 9_999_999), PinState::Low, "held too briefly");
    assert_eq!(d.read_at(PinState::High, t, 10_000_000), PinState::High, "count and time both met");
    assert_eq!(d.last_confirmed_state(), PinState::High);
    assert_eq!(d.read_at(PinState::Low, t, 50_000_000), PinState::High, "a change never confirms at once");
}

#[test]
fn debouncer_stable_count_saturates() {
    let mut d = DigitalSignalDebouncer::new(1, Duration::from_millis(0));
    let t = Instant::now();
    for _ in 0..300 {
        d.read_at(PinState::Low, t, 0);
    }
    assert_eq!(d.stable_count(), u8::MAX);
    assert_eq!(d.last_confirmed_state(), PinState::Low);
}
