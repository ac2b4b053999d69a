//! Display-side helpers that do not draw: the scrolling text buffer, style-value
//! parsing and input events.

pub mod context;
pub mod style_keys;
pub mod text_box;
pub mod ui_style;
