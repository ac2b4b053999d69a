//! Indicator helpers that do not draw: blink timing, alignment choices and the
//! segment-display patterns.

pub mod decorator;
pub mod digital_segmented_indicator;
pub mod gauge_indicator;
pub mod indicator;
pub mod text_indicator;
