//! Directional lights.
use crate::scalar::{Scalar, SCALAR_ONE, SCALAR_ZERO};
use vstd::prelude::*;

verus! {

/// A directional light: its color, how bright it is, and where it shines
/// from.
#[derive(Debug, Clone, Copy, PartialEq, Eq, Hash)]
pub struct DirLightDesc {
    pub color: [Scalar; 3],
    pub illuminance: Scalar,
    pub origin: [Scalar; 3],
}

impl Default for DirLightDesc {
    /// A white light of illuminance one that shines from the third axis.
    fn default() -> (r: Self)
        ensures
            r == (DirLightDesc {
                color: [SCALAR_ONE, SCALAR_ONE, SCALAR_ONE],
                illuminance: SCALAR_ONE,
                origin: [SCALAR_ZERO, SCALAR_ZERO, SCALAR_ONE],
            }),
    {
        DirLightDesc {
            color: [SCALAR_ONE, SCALAR_ONE, SCALAR_ONE],
            illuminance: SCALAR_ONE,
            origin: [SCALAR_ZERO, SCALAR_ZERO, SCALAR_ONE],
        }
    }
}

} // verus!
