//! The catalog of visual effects.

use vstd::prelude::*;

verus! {

/// How many selectors the catalog distinguishes.
pub const NUM_ANIMATIONS: u8 = 5;

/// One visual effect of the catalog.
#[derive(Clone, Copy, Debug, PartialEq, Eq, Structural)]
pub enum Animation {
    /// A ring that expands from the origin.
    Linear,
    /// A sine ripple that travels along the origin's row.
    VWave,
    /// An interference pattern within a radius of the origin.
    Stream,
    /// A fixed four-letter glyph that covers the grid.
    DropTheBass,
    /// A plus shape that expands along the origin's row and column.
    Cross,
}

/// The effect that a selector picks: the selector modulo the catalog's
/// size.
pub open spec fn animation_of(i: u8) -> Animation {
    match i % NUM_ANIMATIONS {
        1 => Animation::VWave,
        2 => Animation::Stream,
        3 => Animation::DropTheBass,
        4 => Animation::Cross,
        _ => Animation::Linear,
    }
}

/// Whether an effect is held until released, rather than expiring by time.
pub open spec fn sustains(animation: Animation) -> bool {
    animation == Animation::VWave || animation == Animation::Stream || animation
        == Animation::DropTheBass
}

impl Animation {
    /// Resolves a selector to an effect.
    pub fn from_int(i: u8) -> (r: Animation)
        ensures
            r == animation_of(i),
    {
        match i % NUM_ANIMATIONS {
            0 => Animation::Linear,
            1 => Animation::VWave,
            2 => Animation::Stream,
            3 => Animation::DropTheBass,
            4 => Animation::Cross,
            _ => Animation::Linear,
        }
    }

    /// Whether entities of this effect are gated: kept alive until an
    /// explicit release.
    pub fn should_gate(&self) -> (r: bool)
        ensures
            r == sustains(*self),
    {
        match self {
            Animation::VWave | Animation::Stream | Animation::DropTheBass => true,
            Animation::Linear | Animation::Cross => false,
        }
    }
}

} // verus!
