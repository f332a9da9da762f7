//! The tunable parameter snapshot: a value object holding the sample grid and
//! the pixel adjustments, compared and stored by value.

use vstd::prelude::*;

verus! {

/// One immutable snapshot of the tunable parameters.
///
/// The ranges in `valid` are what the interactive controls offer; the
/// transform pipeline and the hash codec are only ever handed snapshots
/// within them.
#[derive(Debug, Clone, Copy, PartialEq, Eq)]
pub struct State {
    /// Horizontal and vertical sample counts of the hash grid.
    pub components: (u32, u32),
    /// Pre-blur radius applied before hashing.
    pub blur: i32,
    /// Hue rotation in degrees.
    pub hue_rotate: i32,
    /// Brightness knob; the pipeline applies `2 * brightness` as the raw
    /// additive offset.
    pub brightness: i32,
    /// Contrast adjustment.
    pub contrast: i32,
}

impl State {
    pub open spec fn valid(self) -> bool {
        &&& 1 <= self.components.0 <= 8
        &&& 1 <= self.components.1 <= 8
        &&& 0 <= self.blur <= 32
        &&& -180 <= self.hue_rotate <= 180
        &&& -100 <= self.brightness <= 100
        &&& -100 <= self.contrast <= 100
    }

    /// The defaults: a 4 by 3 grid and neutral adjustments.
    pub open spec fn spec_default() -> State {
        State {
            components: (4u32, 3u32),
            blur: 0i32,
            hue_rotate: 0i32,
            brightness: 0i32,
            contrast: 0i32,
        }
    }
}

impl Default for State {
    fn default() -> (r: Self)
        ensures
            r == State::spec_default(),
            r.valid(),
    {
        State { components: (4, 3), blur: 0, hue_rotate: 0, brightness: 0, contrast: 0 }
    }
}

} // verus!
