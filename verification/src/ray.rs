//! Rays, and the points where they meet a surface.

use crate::light_sources::LightSource;
use crate::matvec::MatVec;
use crate::scalar::{Scalar, ONE_BITS};
use vstd::prelude::*;

verus! {

/// Where a ray meets a surface.
#[derive(Clone, Copy, Debug)]
pub struct Intersection {
    /// The index of the shape in its scene, once the scene has found it.
    pub shape_id: Option<usize>,
    /// The point, in world coordinates.
    pub point: MatVec<3>,
    /// The unit normal on the side that the ray came from.
    pub normal: MatVec<3>,
    /// How far along the ray the point lies.
    pub distance: Scalar,
    pub residual: bool,
}

/// What a ray may have met.
pub type IntersectionPayload = Option<Intersection>;

/// A half-line: where it starts and the unit vector along it.
#[derive(Clone, Copy, Debug)]
pub struct Ray {
    pub origin: MatVec<3>,
    pub direction: MatVec<3>,
}

impl Ray {
    pub fn new(origin: MatVec<3>, direction: MatVec<3>) -> (r: Ray)
        ensures
            r.origin == origin,
            r.direction == direction,
    {
        Ray { origin, direction }
    }

    /// The value that stands for "no ray": it starts at the origin and points nowhere.
    pub open spec fn absent() -> Ray {
        Ray {
            origin: MatVec { data: [Scalar { bits: 0 }, Scalar { bits: 0 }, Scalar { bits: 0 }] },
            direction: MatVec { data: [Scalar { bits: 0 }, Scalar { bits: 0 }, Scalar { bits: 0 }] },
        }
    }

    /// The ray that a camera gives for a sample it rejects.
    pub fn none() -> (r: Ray)
        ensures
            r == Ray::absent(),
    {
        let zero = Scalar { bits: 0 };
        Ray { origin: MatVec { data: [zero, zero, zero] }, direction: MatVec { data: [zero, zero, zero] } }
    }

    /// Whether the ray points nowhere. A ray that a camera accepts has a
    /// unit direction, so this tells the rejected samples apart.
    pub fn is_none(&self) -> (r: bool)
        ensures
            r == forall|i: int| 0 <= i < 3 ==> #[trigger] self.direction@[i].equals(Scalar::of(0)),
    {
        self.direction.is_zero()
    }

    /// The ray from a point on a surface towards a light. A sun shines from
    /// its own direction everywhere; for a bulb the caller gives `aim`, the
    /// unit vector from the point to the bulb.
    pub fn generate_light_ray(intersection: &Intersection, light_source: &LightSource, aim: MatVec<3>) -> (r:
        Ray)
        ensures
            r.origin == intersection.point,
            r.direction == match *light_source {
                LightSource::Sun(sun) => sun.direction,
                LightSource::Bulb(_) => aim,
            },
    {
        let direction = match light_source {
            LightSource::Sun(sun) => sun.direction,
            LightSource::Bulb(_) => aim,
        };
        Ray { origin: intersection.point, direction }
    }
}

/// The side of a surface that a refracted ray is bent on.
#[derive(Clone, Copy, Debug)]
pub struct Refraction {
    /// The normal against the incoming ray.
    pub normal: MatVec<3>,
    /// The ratio of the index it leaves to the index it enters.
    pub eta: Scalar,
}

impl Refraction {
    /// A ray that runs along the normal (`facing`, the incoming direction
    /// times the normal, above zero) is leaving the medium: the normal is
    /// turned round and the ratio is the index itself. Any other ray enters,
    /// with the normal as it is and the ratio `inverse`, one over the index.
    pub fn side(intersection: &Intersection, facing: Scalar, index: Scalar, inverse: Scalar) -> (r: Refraction)
        ensures
            Scalar::of(0).less_than(facing) ==> r.eta == index && r.normal@.len() == 3 && forall|i: int|
                0 <= i < 3 ==> r.normal@[i] == #[trigger] intersection.normal@[i].negated(),
            !Scalar::of(0).less_than(facing) ==> r.eta == inverse && r.normal == intersection.normal,
    {
        if facing.gt(Scalar { bits: 0 }) {
            Refraction { normal: intersection.normal.negate(), eta: index }
        } else {
            Refraction { normal: intersection.normal, eta: inverse }
        }
    }

    /// Whether no ray is transmitted: the squared sine of the refracted
    /// angle is above one, and the surface reflects instead.
    pub fn reflects_totally(sin_squared: Scalar) -> (r: bool)
        ensures
            r == Scalar::of(ONE_BITS).less_than(sin_squared),
    {
        sin_squared.gt(Scalar { bits: ONE_BITS })
    }
}

} // verus!
