//! The lights of a scene.

use crate::matvec::{Color, MatVec};
use crate::scalar::{Scalar, ONE_BITS};
use crate::state::InputState;
use vstd::prelude::*;

verus! {

/// A light infinitely far away that shines from one direction.
#[derive(Clone, Copy, Debug)]
pub struct Sun {
    /// The unit vector towards the light.
    pub direction: MatVec<3>,
    pub color: Color,
}

impl Sun {
    /// A sun in the colour that the scene description is at. It shines
    /// from `unit`, which is `direction` brought to length one by the caller.
    pub fn new(direction: MatVec<3>, unit: MatVec<3>, context: &InputState) -> (r: Sun)
        ensures
            r == (Sun { direction: unit, color: context.color }),
    {
        Sun { direction: unit, color: context.color }
    }
}

/// A light at a point that shines in all directions and fades with the
/// square of the distance.
#[derive(Clone, Copy, Debug)]
pub struct Bulb {
    pub position: MatVec<3>,
    pub color: Color,
}

impl Bulb {
    /// A bulb at `position` in the colour that the scene description is at.
    pub fn new(position: MatVec<3>, context: &InputState) -> (r: Bulb)
        ensures
            r == (Bulb { position, color: context.color }),
    {
        Bulb { position, color: context.color }
    }
}

/// A light of either kind.
#[derive(Clone, Copy, Debug)]
pub enum LightSource {
    Sun(Sun),
    Bulb(Bulb),
}

impl LightSource {
    /// The colour of the light.
    pub fn light_color(&self) -> (r: Color)
        ensures
            r == match *self {
                LightSource::Sun(sun) => sun.color,
                LightSource::Bulb(bulb) => bulb.color,
            },
    {
        match self {
            LightSource::Sun(sun) => sun.color,
            LightSource::Bulb(bulb) => bulb.color,
        }
    }

    /// How strongly the light arrives: one for a sun; for a bulb `falloff`,
    /// one over the squared distance, which the caller computes.
    pub fn intensity(&self, falloff: Scalar) -> (r: Scalar)
        ensures
            r == match *self {
                LightSource::Sun(_) => Scalar::of(ONE_BITS),
                LightSource::Bulb(_) => falloff,
            },
    {
        match self {
            LightSource::Sun(_) => Scalar { bits: ONE_BITS },
            LightSource::Bulb(_) => falloff,
        }
    }
}

} // verus!
