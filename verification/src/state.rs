//! What a scene description sets before anything is traced: the camera,
//! and the attributes that the next shape or light will take.

use crate::matvec::{Color, MatVec};
use crate::ray::Intersection;
use crate::scalar::{Scalar, MINUS_ONE_BITS, ONE_BITS};
use vstd::prelude::*;

verus! {

/// The bit pattern of 1.458, the index of refraction of fused silica.
pub const DEFAULT_INDEX_BITS: u32 = 0x3fba_9fbe;

/// How the camera maps a pixel to a direction.
#[derive(Debug, Clone, Copy, PartialEq, Eq, Structural)]
pub enum ProjectionType {
    FLAT,
    FISHEYE,
    PANORAMIC,
}

/// The attributes that the next shape or light of a scene description takes.
pub struct InputState {
    pub color: Color,
    /// The name of the texture file, `none` for no texture.
    pub texture: Vec<char>,
    pub verticies: Vec<MatVec<3>>,
    pub texcoords: Vec<MatVec<2>>,
    /// How much of the light each channel mirrors, where any is mirrored.
    pub shininess: Option<MatVec<3>>,
    /// How much of the light each channel lets through, where any gets through.
    pub transparency: Option<MatVec<3>>,
    pub roughness: Scalar,
    pub index_of_refraction: Scalar,
}

impl InputState {
    /// Whether these are the attributes that a scene description starts
    /// with: white, untextured, matt, opaque and smooth, with the index of
    /// refraction 1.458 and no vertices or texture coordinates yet.
    pub open spec fn initial(&self) -> bool {
        &&& self.color == MatVec::<3> { data: [Scalar::of(ONE_BITS), Scalar::of(ONE_BITS), Scalar::of(ONE_BITS)] }
        &&& self.texture@ == "none"@
        &&& self.verticies@.len() == 0
        &&& self.texcoords@.len() == 0
        &&& self.shininess.is_none()
        &&& self.transparency.is_none()
        &&& self.roughness == Scalar::of(0)
        &&& self.index_of_refraction == Scalar::of(DEFAULT_INDEX_BITS)
    }

    /// The attributes that a scene description starts with.
    pub fn new() -> (r: InputState)
        ensures
            r.initial(),
    {
        let one = Scalar { bits: ONE_BITS };
        let mut none: Vec<char> = Vec::new();
        none.push('n');
        none.push('o');
        none.push('n');
        none.push('e');
        proof {
            reveal_strlit("none");
            assert(none@ =~= "none"@);
        }
        InputState {
            color: MatVec { data: [one, one, one] },
            texture: none,
            verticies: Vec::new(),
            texcoords: Vec::new(),
            shininess: None,
            transparency: None,
            roughness: Scalar { bits: 0 },
            index_of_refraction: Scalar { bits: DEFAULT_INDEX_BITS },
        }
    }

    /// Whether a texture is named.
    pub fn textured(&self) -> (r: bool)
        ensures
            r == (self.texture@ != "none"@),
    {
        !crate::text::spells(&self.texture, "none")
    }
}

/// The camera of a render.
pub struct CameraState {
    pub width: u32,
    pub height: u32,
    pub forward: MatVec<3>,
    pub up: MatVec<3>,
    pub eye: MatVec<3>,
    pub exposure: Option<Scalar>,
    pub projection: ProjectionType,
    /// Focus distance and lens radius, where depth of field is on.
    pub dof: Option<MatVec<2>>,
}

impl CameraState {
    /// The camera that a render starts with: flat, at the origin, looking
    /// down the negative z axis with y up, without exposure or depth of field.
    pub open spec fn initial(width: u32, height: u32) -> CameraState {
        CameraState {
            width,
            height,
            forward: MatVec { data: [Scalar::of(0), Scalar::of(0), Scalar::of(MINUS_ONE_BITS)] },
            up: MatVec { data: [Scalar::of(0), Scalar::of(ONE_BITS), Scalar::of(0)] },
            eye: MatVec { data: [Scalar::of(0), Scalar::of(0), Scalar::of(0)] },
            exposure: None,
            projection: ProjectionType::FLAT,
            dof: None,
        }
    }

    /// The camera that a render starts with.
    pub fn new(width: u32, height: u32) -> (r: CameraState)
        ensures
            r == CameraState::initial(width, height),
    {
        let zero = Scalar { bits: 0 };
        CameraState {
            width,
            height,
            forward: MatVec { data: [zero, zero, Scalar { bits: MINUS_ONE_BITS }] },
            up: MatVec { data: [zero, Scalar { bits: ONE_BITS }, zero] },
            eye: MatVec { data: [zero, zero, zero] },
            exposure: None,
            projection: ProjectionType::FLAT,
            dof: None,
        }
    }

    /// The larger of width and height, by which both screen coordinates are scaled.
    pub fn scale(&self) -> (r: u32)
        ensures
            r == if self.width >= self.height {
                self.width
            } else {
                self.height
            },
    {
        if self.width >= self.height {
            self.width
        } else {
            self.height
        }
    }

    /// Whether a sample is traced. A fisheye camera sees the unit disk
    /// only: it rejects a sample whose screen coordinates have squares that
    /// sum (`radius_squared`) to more than one. The other cameras see every sample.
    pub fn sees(&self, radius_squared: Scalar) -> (r: bool)
        ensures
            r == !(self.projection == ProjectionType::FISHEYE && Scalar::of(ONE_BITS).less_than(
                radius_squared,
            )),
    {
        match self.projection {
            ProjectionType::FISHEYE => !radius_squared.gt(Scalar { bits: ONE_BITS }),
            _ => true,
        }
    }
}

/// What one light contributes at one point of a surface.
#[derive(Clone, Copy, Debug)]
pub struct LightResidual {
    pub source_id: Option<usize>,
    pub color: Color,
    pub intensity: Scalar,
    /// The unit vector towards the light.
    pub direction: MatVec<3>,
    /// The normal of the surface at the point.
    pub normal: MatVec<3>,
}

impl LightResidual {
    /// What a ray sampled in the hemisphere about a point leaves there: the
    /// colour found along it at full intensity, from the sampled
    /// direction, on the normal of the surface at the point.
    pub fn sampled(color: Color, direction: MatVec<3>, primary: &Intersection) -> (r: LightResidual)
        ensures
            r == (LightResidual {
                source_id: None,
                color,
                intensity: Scalar::of(ONE_BITS),
                direction,
                normal: primary.normal,
            }),
    {
        LightResidual {
            source_id: None,
            color,
            intensity: Scalar { bits: ONE_BITS },
            direction,
            normal: primary.normal,
        }
    }

    /// The contribution of no light: a shadow.
    pub fn new() -> (r: LightResidual)
        ensures
            r.source_id.is_none(),
            r.intensity == Scalar::of(0),
            r.color@ == seq![Scalar::of(0), Scalar::of(0), Scalar::of(0)],
            r.direction@ == r.color@,
            r.normal@ == r.color@,
    {
        let zero = Scalar { bits: 0 };
        let nothing = MatVec { data: [zero, zero, zero] };
        LightResidual { source_id: None, color: nothing, intensity: zero, direction: nothing, normal: nothing }
    }
}

} // verus!
