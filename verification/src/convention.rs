//! Earth axes conventions.

use vstd::prelude::*;

verus! {

/// The earth frame that orientations and accelerations are given in.
#[derive(Clone, Copy, Debug, PartialEq, Eq, Structural)]
pub enum FusionConvention {
    /// North-West-Up.
    NWU,
    /// East-North-Up.
    ENU,
    /// North-East-Down.
    NED,
}

impl FusionConvention {
    /// The third axis of the frame points away from the ground.
    pub open spec fn z_up(self) -> bool {
        self != FusionConvention::NED
    }

    /// Says whether the third axis points up, so that one g of gravity is
    /// taken off an earth-frame acceleration, or down, so that it is added.
    pub fn is_z_up(&self) -> (up: bool)
        ensures
            up == self.z_up(),
    {
        match self {
            FusionConvention::NWU | FusionConvention::ENU => true,
            FusionConvention::NED => false,
        }
    }
}

} // verus!
