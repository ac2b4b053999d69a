//! Placement options of decorations drawn around an indicator.

use vstd::prelude::*;

verus! {

/// Vertical placement of a decoration relative to the indicator bounds.
#[derive(Debug, Clone, Copy, PartialEq, Eq, Structural)]
pub enum DecoratorAlignmentV {
    Top,
    Bottom,
    Center,
}

/// Horizontal placement of a decoration relative to the indicator bounds.
#[derive(Debug, Clone, Copy, PartialEq, Eq, Structural)]
pub enum DecoratorAlignmentH {
    Left,
    Right,
    Center,
}

} // verus!
