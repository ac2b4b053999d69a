//! Verified core of the Niva dashboard: alert lifecycle, watchdog trigger logic,
//! raw signal conditioning, sensor-source selection and the small text/colour
//! parsers that the display layer relies on.

pub mod clock;
pub mod alerts;
pub mod hardware;
pub mod graphics;
pub mod indicators;
pub mod text;
