//! One finding per axis of a sample.

use vstd::prelude::*;

verus! {

/// What a comparison found on each of the three axes of a sample.
#[derive(Clone, Copy, Debug, PartialEq, Eq, Structural)]
pub struct Axes {
    /// The finding on the first axis.
    pub x: bool,
    /// The finding on the second axis.
    pub y: bool,
    /// The finding on the third axis.
    pub z: bool,
}

impl Axes {
    /// Says whether the finding holds on at least one axis.
    #[verifier::allow_in_spec]
    pub fn any(&self) -> bool
        returns
            self.x || self.y || self.z,
    {
        self.x || self.y || self.z
    }
}

} // verus!
