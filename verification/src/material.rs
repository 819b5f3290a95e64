//! Materials.

use crate::scalar::Scalar;
use vstd::prelude::*;

verus! {

/// What a surface is made of.
pub struct Material {
    /// How much of the light is mirrored, one coefficient or one for each channel.
    pub shininess: Vec<Scalar>,
}

impl Material {
    pub fn new(shininess: Vec<Scalar>) -> (r: Material)
        ensures
            r.shininess == shininess,
    {
        Material { shininess }
    }
}

} // verus!
