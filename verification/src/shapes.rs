//! The shapes of a scene, and the tests by which a ray is held to meet one.
//!
//! The caller solves each shape's equation; what is decided here is which
//! solutions count.

use crate::matvec::{triple, Color, MatVec};
use crate::ray::Intersection;
use crate::scalar::Scalar;
use crate::state::{InputState, DEFAULT_INDEX_BITS};
use crate::texture::Texture2d;
use vstd::prelude::*;

verus! {

/// The bit pattern of 0.0001: below it a ray counts as parallel to a
/// surface, and a hit on a triangle as no hit.
pub const EPSILON_BITS: u32 = 0x38d1_b717;

/// What one, three or another number of coefficients stand for: one holds
/// for all three channels, three hold for one channel each, any other
/// number for nothing.
pub open spec fn per_channel(coefficients: Seq<Scalar>) -> Option<Seq<Scalar>> {
    if coefficients.len() == 3 {
        Some(coefficients)
    } else if coefficients.len() == 1 {
        Some(seq![coefficients[0], coefficients[0], coefficients[0]])
    } else {
        None
    }
}

/// The coefficients of a material as a vector, one for each channel.
pub open spec fn channels(coefficients: Seq<Scalar>) -> Option<MatVec<3>> {
    match per_channel(coefficients) {
        Some(s) => Some(triple(s)),
        None => None,
    }
}

/// The coefficients of a material, one for each channel.
pub fn broadcast(coefficients: &Vec<Scalar>) -> (r: Option<MatVec<3>>)
    ensures
        r == channels(coefficients@),
{
    if coefficients.len() == 3 {
        Some(MatVec { data: [coefficients[0], coefficients[1], coefficients[2]] })
    } else if coefficients.len() == 1 {
        Some(MatVec { data: [coefficients[0], coefficients[0], coefficients[0]] })
    } else {
        None
    }
}

/// A sphere.
pub struct Sphere {
    pub center: MatVec<3>,
    pub radius: Scalar,
    pub color: Color,
    pub texture: Option<Texture2d>,
    pub shininess: Option<MatVec<3>>,
    pub transparency: Option<MatVec<3>>,
    pub roughness: Scalar,
}

impl Sphere {
    /// The sphere with the attributes that a scene description is at: its
    /// colour, shininess, transparency and roughness, and the texture
    /// unless the description names none.
    pub open spec fn of(center: MatVec<3>, radius: Scalar, context: InputState, texture: Option<Texture2d>) -> Sphere {
        Sphere {
            center,
            radius,
            color: context.color,
            texture: if context.texture@ == "none"@ {
                None
            } else {
                texture
            },
            shininess: context.shininess,
            transparency: context.transparency,
            roughness: context.roughness,
        }
    }

    /// The sphere with the attributes that the scene description is at.
    /// `texture` is the loaded texture; it is dropped where the description
    /// names none.
    pub fn new(center: MatVec<3>, radius: Scalar, context: &InputState, texture: Option<Texture2d>) -> (r:
        Sphere)
        ensures
            r == Sphere::of(center, radius, *context, texture),
    {
        let texture = if context.textured() {
            texture
        } else {
            None
        };
        Sphere {
            center,
            radius,
            color: context.color,
            texture,
            shininess: context.shininess,
            transparency: context.transparency,
            roughness: context.roughness,
        }
    }

    /// Which root of the sphere's equation a ray meets the sphere at.
    ///
    /// `center_distance` is how far the ray starts from the centre, `along`
    /// how far along the ray the centre's foot lies, `axis_distance_squared`
    /// the squared distance from the centre to the ray (rounded as the
    /// caller rounds it), `radius_squared` the squared radius.
    pub open spec fn root(
        self,
        center_distance: Scalar,
        along: Scalar,
        axis_distance_squared: Scalar,
        radius_squared: Scalar,
        near: Scalar,
        far: Scalar,
    ) -> Option<Scalar> {
        if center_distance.less_than(self.radius) {
            Some(far)
        } else if along.less_than(Scalar::of(0)) || radius_squared.at_most(axis_distance_squared) {
            None
        } else {
            Some(near)
        }
    }

    /// The distance at which a ray meets the sphere, if it does. A ray that
    /// starts inside leaves through the far root. A ray that starts outside
    /// misses where the sphere lies behind it or its axis passes the sphere
    /// at the radius or beyond, and else enters through the near root.
    pub fn intersect(
        &self,
        center_distance: Scalar,
        along: Scalar,
        axis_distance_squared: Scalar,
        radius_squared: Scalar,
        near: Scalar,
        far: Scalar,
    ) -> (r: Option<Scalar>)
        ensures
            r == self.root(center_distance, along, axis_distance_squared, radius_squared, near, far),
    {
        if center_distance.lt(self.radius) {
            Some(far)
        } else if along.lt(Scalar { bits: 0 }) || radius_squared.le(axis_distance_squared) {
            None
        } else {
            Some(near)
        }
    }

    /// The colour all over the sphere, or `None` where a texture gives it.
    pub fn color_at(&self) -> (r: Option<Color>)
        ensures
            r == if self.texture.is_none() {
                Some(self.color)
            } else {
                None
            },
    {
        if self.texture.is_none() {
            Some(self.color)
        } else {
            None
        }
    }
}

/// A plane: the points `p` with `normal · p + D = 0`.
#[allow(non_snake_case)]
#[derive(Clone, Copy, Debug)]
pub struct Plane {
    /// The unit normal.
    pub normal: MatVec<3>,
    pub D: Scalar,
    pub color: Color,
}

impl Plane {
    /// The plane `a x + b y + c z + d = 0` of the four coefficients, in the
    /// colour that the scene description is at. `unit` is the normal
    /// `(a, b, c)` brought to length one by the caller.
    pub fn new(coeffs: MatVec<4>, unit: MatVec<3>, context: &InputState) -> (r: Plane)
        ensures
            r == (Plane { normal: unit, D: coeffs@[3], color: context.color }),
    {
        Plane { normal: unit, D: coeffs.get(3), color: context.color }
    }

    /// Whether a ray meets the plane: where the normal times the
    /// direction, `slope`, is at least 0.0001 away from zero, and the plane
    /// is not behind the ray's start. A NaN on either side is no meeting.
    pub open spec fn meets(slope: Scalar, distance: Scalar) -> bool {
        Scalar::of(EPSILON_BITS).at_most(slope.absolute()) && Scalar::of(0).at_most(distance)
    }

    /// Where a ray meets the plane, if it does: at `point`, `distance`
    /// along the ray, with the plane's own normal.
    pub fn intersect(&self, slope: Scalar, distance: Scalar, point: MatVec<3>) -> (r: Option<Intersection>)
        ensures
            r.is_some() == Plane::meets(slope, distance),
            r matches Some(hit) ==> hit.shape_id.is_none() && hit.point == point && hit.normal
                == self.normal && hit.distance == distance && !hit.residual,
            r matches Some(hit) ==> !hit.distance.nan() && hit.distance.value() >= 0,
    {
        let epsilon = Scalar { bits: EPSILON_BITS };
        let zero = Scalar { bits: 0 };
        if epsilon.le(slope.abs()) && zero.le(distance) {
            Some(Intersection { shape_id: None, point, normal: self.normal, distance, residual: false })
        } else {
            None
        }
    }
}

/// What a ray and a triangle give when the ray is cut with the
/// triangle's plane.
#[derive(Clone, Copy, Debug)]
pub struct Barycentric {
    /// The determinant of the system: zero where the ray lies in the plane.
    pub determinant: Scalar,
    /// The first barycentric coordinate of the point in the plane.
    pub u: Scalar,
    /// The second.
    pub v: Scalar,
    /// The sum of the two, as the caller rounds it.
    pub sum: Scalar,
    /// How far along the ray the point lies.
    pub distance: Scalar,
}

impl Barycentric {
    /// Whether the point lies in the triangle and ahead of the ray: the
    /// determinant is at least 0.0001 away from zero, both coordinates and
    /// their sum lie from zero to one, and the distance is 0.0001 or more.
    /// A NaN anywhere puts the point outside.
    pub open spec fn inside(self) -> bool {
        let zero = Scalar::of(0);
        let one = Scalar::of(crate::scalar::ONE_BITS);
        &&& Scalar::of(EPSILON_BITS).at_most(self.determinant.absolute())
        &&& zero.at_most(self.u)
        &&& self.u.at_most(one)
        &&& zero.at_most(self.v)
        &&& self.sum.at_most(one)
        &&& Scalar::of(EPSILON_BITS).at_most(self.distance)
    }
}

/// A triangle.
pub struct Triangle {
    pub verticies: [MatVec<3>; 3],
    pub color: Color,
    pub texture: Option<Texture2d>,
    /// The texture coordinates of the three vertices.
    pub texcoords: Option<[MatVec<2>; 3]>,
    pub roughness: Scalar,
}

impl Triangle {
    /// The place in a list of `len` entries that a scene description means
    /// by `index`: it counts from one, and a negative index counts back from
    /// the end. Zero and anything beyond the list mean nothing.
    pub open spec fn position(index: i32, len: nat) -> Option<int> {
        if 1 <= index <= len {
            Some(index - 1)
        } else if index < 0 && len + index >= 0 {
            Some(len + index)
        } else {
            None
        }
    }

    /// The place that `index` means in a list of `len` entries.
    pub fn resolve(index: i32, len: usize) -> (r: Option<usize>)
        ensures
            r.is_some() == Triangle::position(index, len as nat).is_some(),
            r matches Some(i) ==> Some(i as int) == Triangle::position(index, len as nat),
            r matches Some(i) ==> i < len,
    {
        if index >= 1 {
            let i: usize = (index - 1) as usize;
            if i < len {
                Some(i)
            } else {
                None
            }
        } else if index < 0 {
            let back: u32 = (0 - (index as i64)) as u32;
            if (back as usize) <= len {
                Some(len - back as usize)
            } else {
                None
            }
        } else {
            None
        }
    }

    /// Whether the description is at a texture and has texture coordinates.
    pub open spec fn mapped(context: &InputState) -> bool {
        context.texture@ != "none"@ && context.texcoords@.len() > 0
    }

    /// The entry of a list that `index` means.
    pub open spec fn entry<T>(list: Seq<T>, index: i32) -> T {
        list[Triangle::position(index, list.len()).unwrap()]
    }

    /// The triangle that three indices mean in a scene description.
    pub open spec fn of(indices: Seq<i32>, context: InputState, texture: Option<Texture2d>) -> Triangle {
        Triangle {
            verticies: [
                Triangle::entry(context.verticies@, indices[0]),
                Triangle::entry(context.verticies@, indices[1]),
                Triangle::entry(context.verticies@, indices[2]),
            ],
            color: context.color,
            texture: if context.texture@ == "none"@ {
                None
            } else {
                texture
            },
            texcoords: if Triangle::mapped(&context) {
                Some(
                    [
                        Triangle::entry(context.texcoords@, indices[0]),
                        Triangle::entry(context.texcoords@, indices[1]),
                        Triangle::entry(context.texcoords@, indices[2]),
                    ],
                )
            } else {
                None
            },
            roughness: Scalar::of(0),
        }
    }

    /// The triangle over the three vertices that `indices` mean among the
    /// vertices read so far, in the colour that the description is at; with
    /// the texture coordinates that the same indices mean, where the
    /// description is at a texture and has any.
    pub fn new(indices: Vec<i32>, context: &InputState, texture: Option<Texture2d>) -> (r: Triangle)
        requires
            indices@.len() == 3,
            forall|k: int| 0 <= k < 3 ==> Triangle::position(indices@[k], context.verticies@.len()).is_some(),
            Triangle::mapped(context) ==> forall|k: int|
                0 <= k < 3 ==> Triangle::position(indices@[k], context.texcoords@.len()).is_some(),
        ensures
            r == Triangle::of(indices@, *context, texture),
    {
        let n = context.verticies.len();
        assert(Triangle::position(indices@[0], n as nat).is_some());
        assert(Triangle::position(indices@[1], n as nat).is_some());
        assert(Triangle::position(indices@[2], n as nat).is_some());
        let a = Triangle::resolve(indices[0], n).unwrap();
        let b = Triangle::resolve(indices[1], n).unwrap();
        let c = Triangle::resolve(indices[2], n).unwrap();
        let verticies = [context.verticies[a], context.verticies[b], context.verticies[c]];
        let textured = context.textured();
        let texcoords = if textured && context.texcoords.len() > 0 {
            let m = context.texcoords.len();
            assert(Triangle::position(indices@[0], m as nat).is_some());
            assert(Triangle::position(indices@[1], m as nat).is_some());
            assert(Triangle::position(indices@[2], m as nat).is_some());
            let ta = Triangle::resolve(indices[0], m).unwrap();
            let tb = Triangle::resolve(indices[1], m).unwrap();
            let tc = Triangle::resolve(indices[2], m).unwrap();
            Some([context.texcoords[ta], context.texcoords[tb], context.texcoords[tc]])
        } else {
            None
        };
        let texture = if textured {
            texture
        } else {
            None
        };
        Triangle { verticies, color: context.color, texture, texcoords, roughness: Scalar { bits: 0 } }
    }

    /// Where a ray meets the triangle, if it does: at `point`, with the
    /// normal of the triangle's plane turned against the ray. `normal` is a
    /// unit normal of the plane and `facing` that normal times the ray's
    /// direction: above zero, the normal runs with the ray and is turned.
    pub fn intersect(&self, cut: Barycentric, point: MatVec<3>, normal: MatVec<3>, facing: Scalar) -> (r:
        Option<Intersection>)
        ensures
            r.is_some() == cut.inside(),
            r matches Some(hit) ==> {
                &&& hit.shape_id.is_none()
                &&& hit.point == point
                &&& hit.distance == cut.distance
                &&& !hit.residual
                &&& !Scalar::of(0).less_than(facing) ==> hit.normal == normal
                &&& Scalar::of(0).less_than(facing) ==> hit.normal@.len() == 3 && forall|i: int|
                    0 <= i < 3 ==> hit.normal@[i] == #[trigger] normal@[i].negated()
            },
            r matches Some(hit) ==> !hit.distance.nan() && hit.distance.value() >= Scalar::of(
                EPSILON_BITS,
            ).value(),
    {
        let zero = Scalar { bits: 0 };
        let one = Scalar { bits: crate::scalar::ONE_BITS };
        let epsilon = Scalar { bits: EPSILON_BITS };
        if !epsilon.le(cut.determinant.abs()) {
            return None;
        }
        if !zero.le(cut.u) || !cut.u.le(one) {
            return None;
        }
        if !zero.le(cut.v) || !cut.sum.le(one) {
            return None;
        }
        if !epsilon.le(cut.distance) {
            return None;
        }
        let normal = if facing.gt(zero) {
            normal.negate()
        } else {
            normal
        };
        Some(Intersection { shape_id: None, point, normal, distance: cut.distance, residual: false })
    }

    /// The colour all over the triangle, or `None` where a texture gives it.
    pub fn color_at(&self) -> (r: Option<Color>)
        ensures
            r == if self.texture.is_none() {
                Some(self.color)
            } else {
                None
            },
    {
        if self.texture.is_none() {
            Some(self.color)
        } else {
            None
        }
    }
}

/// A shape of any kind.
pub enum SceneObject {
    Sphere(Sphere),
    Plane(Plane),
    Triangle(Triangle),
}

impl SceneObject {
    /// The shininess of the shape: only a sphere has any.
    pub open spec fn shininess_of(&self) -> Option<MatVec<3>> {
        match *self {
            SceneObject::Sphere(s) => s.shininess,
            _ => None,
        }
    }

    /// The transparency of the shape: only a sphere has any.
    pub open spec fn transparency_of(&self) -> Option<MatVec<3>> {
        match *self {
            SceneObject::Sphere(s) => s.transparency,
            _ => None,
        }
    }

    /// How much of the light each channel mirrors, where the shape mirrors any.
    pub fn shininess(&self) -> (r: Option<MatVec<3>>)
        ensures
            r == self.shininess_of(),
    {
        match self {
            SceneObject::Sphere(s) => s.shininess,
            _ => None,
        }
    }

    /// How much of the light each channel lets through, where the shape lets any through.
    pub fn transparency(&self) -> (r: Option<MatVec<3>>)
        ensures
            r == self.transparency_of(),
    {
        match self {
            SceneObject::Sphere(s) => s.transparency,
            _ => None,
        }
    }

    /// The index of refraction: 1.458 for every shape.
    pub fn ior(&self) -> (r: Scalar)
        ensures
            r == Scalar::of(DEFAULT_INDEX_BITS),
    {
        Scalar { bits: DEFAULT_INDEX_BITS }
    }

    /// The colour all over the shape, or `None` where a texture gives it.
    pub fn color_at(&self) -> (r: Option<Color>)
        ensures
            r == match *self {
                SceneObject::Sphere(s) => if s.texture.is_none() {
                    Some(s.color)
                } else {
                    None
                },
                SceneObject::Plane(p) => Some(p.color),
                SceneObject::Triangle(t) => if t.texture.is_none() {
                    Some(t.color)
                } else {
                    None
                },
            },
    {
        match self {
            SceneObject::Sphere(s) => s.color_at(),
            SceneObject::Plane(p) => Some(p.color),
            SceneObject::Triangle(t) => t.color_at(),
        }
    }
}

} // verus!
