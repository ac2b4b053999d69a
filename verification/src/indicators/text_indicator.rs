//! Alignment of a text indicator's value.

use vstd::prelude::*;

verus! {

/// Horizontal alignment of a text indicator.
#[derive(Debug, Clone, Copy, PartialEq, Eq, Structural)]
pub enum TextAlignment {
    Left,
    Center,
    Right,
}

} // verus!
