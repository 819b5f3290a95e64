//! A scene: its shapes and lights, the search for the nearest surface, and
//! the decisions of shading.

use crate::light_sources::LightSource;
use crate::matvec::{MatVec, RGBA};
use crate::ray::{Intersection, Ray};
use crate::scalar::{Scalar, ONE_BITS};
use crate::shapes::SceneObject;
use crate::state::LightResidual;
use vstd::prelude::*;

verus! {

/// The bit pattern of 0.065: how far a ray that leaves a surface is moved
/// along itself before it is tested, so that it does not meet that surface
/// again where it starts.
pub const BIAS_BITS: u32 = 0x3d85_1eb8;

/// The candidate with the index of its shape on it.
pub open spec fn stamped(hit: Intersection, index: int) -> Intersection {
    Intersection { shape_id: Some(index as usize), ..hit }
}

/// The nearest among the first `n` candidates, one for each shape in the
/// scene's order: a later candidate replaces an earlier one only where it
/// is strictly nearer.
pub open spec fn nearest(hits: Seq<Option<Intersection>>, n: nat) -> Option<Intersection>
    decreases n,
{
    if n == 0 {
        None
    } else {
        let before = nearest(hits, (n - 1) as nat);
        match (hits[n - 1], before) {
            (None, _) => before,
            (Some(hit), None) => Some(stamped(hit, n - 1)),
            (Some(hit), Some(best)) => if hit.distance.less_than(best.distance) {
                Some(stamped(hit, n - 1))
            } else {
                before
            },
        }
    }
}

/// What is seen of one light from a point on a surface.
#[derive(Clone, Copy, Debug)]
pub struct LightProbe {
    /// The ray from the point towards the light.
    pub ray: Ray,
    /// The nearest surface that the ray meets, if it meets any.
    pub occluder: Option<Intersection>,
    /// One over the squared distance to the light.
    pub falloff: Scalar,
}

/// What the light at index `i` leaves at the point: its colour and
/// intensity, from the direction of the probe, on the surface's normal.
pub open spec fn residual(light: LightSource, primary: Intersection, probe: LightProbe) -> LightResidual {
    LightResidual {
        source_id: None,
        color: match light {
            LightSource::Sun(sun) => sun.color,
            LightSource::Bulb(bulb) => bulb.color,
        },
        intensity: match light {
            LightSource::Sun(_) => Scalar::of(ONE_BITS),
            LightSource::Bulb(_) => probe.falloff,
        },
        direction: probe.ray.direction,
        normal: primary.normal,
    }
}

/// What the first `n` lights leave at the point, in their order: a light
/// whose probe met a surface leaves nothing.
pub open spec fn residuals(
    lights: Seq<LightSource>,
    primary: Intersection,
    probes: Seq<LightProbe>,
    n: nat,
) -> Seq<LightResidual>
    decreases n,
{
    if n == 0 {
        Seq::empty()
    } else {
        let before = residuals(lights, primary, probes, (n - 1) as nat);
        if probes[n - 1].occluder.is_none() {
            before.push(residual(lights[n - 1], primary, probes[n - 1]))
        } else {
            before
        }
    }
}

/// Which rays are followed from a lit point, each with the budget that is
/// left for it.
#[derive(Clone, Copy, Debug, PartialEq, Eq, Structural)]
pub struct Bounces {
    /// The depth left for a ray sampled in the hemisphere, where one is sampled.
    pub global: Option<u32>,
    /// The bounce limit of the mirrored ray, where the surface mirrors.
    pub reflection: Option<u32>,
    /// The bounce limit of the refracted ray, where the surface lets light through.
    pub refraction: Option<u32>,
}

/// Whether any of three coefficients is above zero.
pub open spec fn any_positive(coefficients: Option<MatVec<3>>) -> bool {
    coefficients matches Some(v) && exists|i: int| 0 <= i < 3 && Scalar::of(0).less_than(#[trigger] v@[i])
}

/// The shapes and lights of a scene.
pub struct Scene {
    pub shapes: Vec<SceneObject>,
    pub light_sources: Vec<LightSource>,
    /// How many times in a row a ray sampled in the hemisphere is followed.
    pub gi_depth: u32,
}

impl Scene {
    /// The empty scene, without global illumination.
    pub fn new() -> (r: Scene)
        ensures
            r.shapes@.len() == 0,
            r.light_sources@.len() == 0,
            r.gi_depth == 0,
    {
        Scene { shapes: Vec::new(), light_sources: Vec::new(), gi_depth: 0 }
    }

    /// Puts a shape behind the others.
    pub fn add_shape(&mut self, shape: SceneObject)
        ensures
            final(self).shapes@ == old(self).shapes@.push(shape),
            final(self).light_sources == old(self).light_sources,
            final(self).gi_depth == old(self).gi_depth,
    {
        self.shapes.push(shape);
    }

    /// Puts a light behind the others.
    pub fn add_light_source(&mut self, light_source: LightSource)
        ensures
            final(self).light_sources@ == old(self).light_sources@.push(light_source),
            final(self).shapes == old(self).shapes,
            final(self).gi_depth == old(self).gi_depth,
    {
        self.light_sources.push(light_source);
    }

    /// The nearest of the candidates, with the index of its shape on it.
    /// `hits` holds, for each shape in the scene's order, where the ray
    /// meets it.
    pub fn find_minimum_intersection(&self, hits: &Vec<Option<Intersection>>) -> (r: Option<Intersection>)
        ensures
            r == nearest(hits@, hits@.len()),
    {
        let mut best: Option<Intersection> = None;
        let mut i: usize = 0;
        while i < hits.len()
            invariant
                i <= hits@.len(),
                best == nearest(hits@, i as nat),
            decreases hits@.len() - i,
        {
            if let Some(hit) = hits[i] {
                let closer = match best {
                    None => true,
                    Some(b) => hit.distance.lt(b.distance),
                };
                if closer {
                    best = Some(
                        Intersection {
                            shape_id: Some(i),
                            point: hit.point,
                            normal: hit.normal,
                            distance: hit.distance,
                            residual: hit.residual,
                        },
                    );
                }
            }
            i = i + 1;
        }
        best
    }

    /// The ray that is tested against the shapes. A ray that leaves a
    /// surface (`intersection` is where it leaves) is tested from
    /// `advanced`, its origin moved along its direction by the bias, and
    /// that against every shape; a ray from the camera is tested as it is.
    pub fn find_minimum_intersection_with_point(ray: &Ray, advanced: MatVec<3>, intersection: &Option<Intersection>) -> (r:
        Ray)
        ensures
            r.direction == ray.direction,
            r.origin == if intersection.is_some() {
                advanced
            } else {
                ray.origin
            },
    {
        match intersection {
            Some(_) => Ray { origin: advanced, direction: ray.direction },
            None => Ray { origin: ray.origin, direction: ray.direction },
        }
    }

    /// The number of lights that have a probe.
    pub open spec fn probed(&self, probes: Seq<LightProbe>) -> nat {
        if probes.len() <= self.light_sources@.len() {
            probes.len()
        } else {
            self.light_sources@.len()
        }
    }

    /// What the lights leave at a point of a surface. `probes` holds, for
    /// each light in the scene's order, what was seen of it from the
    /// point; a light without a probe leaves nothing.
    pub fn find_light_sources(&self, primary_intersection: &Intersection, probes: &Vec<LightProbe>) -> (r: Vec<
        LightResidual,
    >)
        ensures
            r@ == residuals(self.light_sources@, *primary_intersection, probes@, self.probed(probes@)),
    {
        let mut found: Vec<LightResidual> = Vec::new();
        let mut i: usize = 0;
        while i < probes.len() && i < self.light_sources.len()
            invariant
                i <= self.probed(probes@),
                found@ == residuals(self.light_sources@, *primary_intersection, probes@, i as nat),
            decreases self.probed(probes@) - i,
        {
            let probe = probes[i];
            if probe.occluder.is_none() {
                let light = &self.light_sources[i];
                let mut current = LightResidual::new();
                current.color = light.light_color();
                current.intensity = light.intensity(probe.falloff);
                current.direction = probe.ray.direction;
                current.normal = primary_intersection.normal;
                assert(current == residual(self.light_sources@[i as int], *primary_intersection, probe));
                found.push(current);
            }
            i = i + 1;
        }
        found
    }

    /// The colour of a ray that meets nothing: black and fully transparent.
    pub open spec fn missed() -> Seq<Scalar> {
        seq![Scalar::of(0), Scalar::of(0), Scalar::of(0), Scalar::of(0)]
    }

    /// The colour of a point that no light reaches: black and opaque.
    pub open spec fn shadowed() -> Seq<Scalar> {
        seq![Scalar::of(0), Scalar::of(0), Scalar::of(0), Scalar::of(ONE_BITS)]
    }

    /// The colour that is decided before any shading: that of a ray that
    /// met nothing, or that of a point which no light reaches, directly or
    /// by a sampled ray (`lights` counts what reaches it). `None` where the
    /// point is lit and has to be shaded.
    pub fn trace_ray(hit: &Option<Intersection>, lights: usize) -> (r: Option<RGBA>)
        ensures
            hit.is_none() ==> r.is_some() && r.unwrap()@ == Scene::missed(),
            hit.is_some() && lights == 0 ==> r.is_some() && r.unwrap()@ == Scene::shadowed(),
            hit.is_some() && lights > 0 ==> r.is_none(),
    {
        let zero = Scalar { bits: 0 };
        if hit.is_none() {
            let c = MatVec { data: [zero, zero, zero, zero] };
            assert(c@ =~= Scene::missed());
            Some(c)
        } else if lights == 0 {
            let c = MatVec { data: [zero, zero, zero, Scalar { bits: ONE_BITS }] };
            assert(c@ =~= Scene::shadowed());
            Some(c)
        } else {
            None
        }
    }

    /// Which rays are followed from a point on the shape at `shape_id`, and
    /// with what budget. A ray is sampled in the hemisphere while depth is
    /// left for it. A mirrored ray is followed where the bounce limit is
    /// above one and a channel mirrors; a refracted ray, where the limit is
    /// above one and a channel lets light through. Each ray that is
    /// followed has one less of its budget and the other unchanged.
    pub fn bounces(&self, shape_id: usize, bounce_limit: u32, gi_depth: u32) -> (r: Bounces)
        requires
            shape_id < self.shapes@.len(),
        ensures
            r.global == if gi_depth > 0 {
                Some((gi_depth - 1) as u32)
            } else {
                None
            },
            r.reflection == if bounce_limit > 1 && any_positive(self.shapes@[shape_id as int].shininess_of()) {
                Some((bounce_limit - 1) as u32)
            } else {
                None
            },
            r.refraction == if bounce_limit > 1 && any_positive(
                self.shapes@[shape_id as int].transparency_of(),
            ) {
                Some((bounce_limit - 1) as u32)
            } else {
                None
            },
    {
        let shape = &self.shapes[shape_id];
        let global = if gi_depth > 0 {
            Some(gi_depth - 1)
        } else {
            None
        };
        let reflection = if bounce_limit > 1 && positive(shape.shininess()) {
            Some(bounce_limit - 1)
        } else {
            None
        };
        let refraction = if bounce_limit > 1 && positive(shape.transparency()) {
            Some(bounce_limit - 1)
        } else {
            None
        };
        Bounces { global, reflection, refraction }
    }
}

/// Whether any of three coefficients is above zero.
pub fn positive(coefficients: Option<MatVec<3>>) -> (r: bool)
    ensures
        r == any_positive(coefficients),
{
    match coefficients {
        None => false,
        Some(v) => {
            let zero = Scalar { bits: 0 };
            let r = v.get(0).gt(zero) || v.get(1).gt(zero) || v.get(2).gt(zero);
            assert(r == any_positive(coefficients)) by {
                if r {
                    let i = if zero.less_than(v@[0]) {
                        0int
                    } else if zero.less_than(v@[1]) {
                        1int
                    } else {
                        2int
                    };
                    assert(0 <= i < 3 && Scalar::of(0).less_than(v@[i]));
                }
            }
            r
        },
    }
}

/// Among candidates whose distances are numbers, the one that is found is
/// nearest: none is nearer, and it is strictly nearer than every candidate
/// of a shape before it. Nothing is found only where there is no candidate.
pub proof fn lemma_nearest_is_minimum(hits: Seq<Option<Intersection>>, n: nat)
    requires
        n <= hits.len(),
        n <= usize::MAX,
        forall|j: int| 0 <= j < n && hits[j].is_some() ==> !(#[trigger] hits[j]).unwrap().distance.nan(),
    ensures
        nearest(hits, n).is_none() == forall|j: int| 0 <= j < n ==> (#[trigger] hits[j]).is_none(),
        nearest(hits, n) matches Some(best) ==> {
            &&& best.shape_id.is_some()
            &&& best.shape_id.unwrap() < n
            &&& hits[best.shape_id.unwrap() as int] matches Some(hit)
            &&& best == stamped(hit, best.shape_id.unwrap() as int)
            &&& forall|j: int|
                0 <= j < n && hits[j].is_some() ==> best.distance.value() <= (#[trigger] hits[j]).unwrap().distance.value()
            &&& forall|j: int|
                0 <= j < best.shape_id.unwrap() && hits[j].is_some() ==> best.distance.value() < (
                #[trigger] hits[j]).unwrap().distance.value()
        },
    decreases n,
{
    if n > 0 {
        let last = n - 1;
        lemma_nearest_is_minimum(hits, last as nat);
        let before = nearest(hits, last as nat);
        let found = nearest(hits, n);
        match hits[last] {
            None => {
                assert(found == before);
                if before.is_none() {
                    assert forall|j: int| 0 <= j < n implies (#[trigger] hits[j]).is_none() by {
                        if j < last {
                            assert(hits[j].is_none());
                        }
                    }
                }
            },
            Some(hit) => {
                assert(hits[last].is_some());
                assert(found.is_some());
                let best = found.unwrap();
                match before {
                    None => {
                        assert(best == stamped(hit, last));
                        assert forall|j: int| 0 <= j < n && hits[j].is_some() implies best.distance.value() <= (
                        #[trigger] hits[j]).unwrap().distance.value() by {
                            if j < last {
                                assert(hits[j].is_none());
                            }
                        }
                        assert forall|j: int| 0 <= j < last && hits[j].is_some() implies best.distance.value() < (
                        #[trigger] hits[j]).unwrap().distance.value() by {
                            assert(hits[j].is_none());
                        }
                    },
                    Some(b) => {
                        let id = b.shape_id.unwrap() as int;
                        assert(hits[id].is_some());
                        assert(!hits[id].unwrap().distance.nan());
                        assert(!hits[last].unwrap().distance.nan());
                        if hit.distance.less_than(b.distance) {
                            assert(best == stamped(hit, last));
                            assert forall|j: int|
                                0 <= j < n && hits[j].is_some() implies best.distance.value() <= (
                            #[trigger] hits[j]).unwrap().distance.value() by {
                                if j < last {
                                    assert(b.distance.value() <= hits[j].unwrap().distance.value());
                                }
                            }
                            assert forall|j: int|
                                0 <= j < last && hits[j].is_some() implies best.distance.value() < (
                            #[trigger] hits[j]).unwrap().distance.value() by {
                                assert(b.distance.value() <= hits[j].unwrap().distance.value());
                            }
                        } else {
                            assert(best == b);
                            assert(b.distance.value() <= hit.distance.value());
                            assert forall|j: int|
                                0 <= j < n && hits[j].is_some() implies best.distance.value() <= (
                            #[trigger] hits[j]).unwrap().distance.value() by {
                                if j < last {
                                    assert(b.distance.value() <= hits[j].unwrap().distance.value());
                                }
                            }
                        }
                    },
                }
            },
        }
    }
}

/// No surface is found nearer than the shapes let their surfaces be met:
/// where every candidate lies at `bound` or beyond, so does what is found.
/// A triangle is met at 0.0001 or beyond and a plane at zero or beyond, so
/// a ray is never found to meet either nearer than that.
pub proof fn lemma_nearest_keeps_bound(hits: Seq<Option<Intersection>>, bound: Scalar)
    requires
        hits.len() <= usize::MAX,
        forall|j: int|
            0 <= j < hits.len() && hits[j].is_some() ==> bound.at_most((#[trigger] hits[j]).unwrap().distance),
    ensures
        nearest(hits, hits.len()) matches Some(best) ==> bound.at_most(best.distance),
{
    lemma_nearest_is_minimum(hits, hits.len());
}

} // verus!
