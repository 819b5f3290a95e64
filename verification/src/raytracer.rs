//! The state of a render: what a scene description has built so far, and
//! the image that the pixels go to.

use crate::light_sources::{Bulb, LightSource, Sun};
use crate::loader::{directive_of, Directive, Header, LoadError};
use crate::matvec::MatVec;
use crate::scalar::Scalar;
use crate::scene::Scene;
use crate::shapes::{Plane, SceneObject, Sphere, Triangle};
use crate::state::{CameraState, InputState, ProjectionType};
use crate::text::{split_whitespace, views, words};
use crate::texture::{fits, holds_pixels, raster_pixels, raster_size, Pixel, Raster, Texture2d};
use vstd::prelude::*;

verus! {

/// A render in the making.
pub struct RayTracer {
    pub scene: Scene,
    pub height: u32,
    pub width: u32,
    /// How many surfaces in a row a ray is followed over.
    pub bounce_limit: u32,
    /// How many rays are averaged for a pixel; zero for one ray through its middle.
    pub anti_aliasing: u32,
    pub input_state: InputState,
    pub image: Raster,
    pub camera: CameraState,
}

impl RayTracer {
    /// Whether the image has the size of the render.
    pub open spec fn wf(&self) -> bool {
        raster_size(self.image) == (self.width, self.height)
    }

    /// Whether the three indices of a triangle name vertices, and texture
    /// coordinates where the triangle takes any.
    pub open spec fn names_vertices(&self, indices: [i32; 3]) -> bool {
        &&& forall|k: int|
            0 <= k < 3 ==> Triangle::position(#[trigger] indices@[k], self.input_state.verticies@.len()).is_some()
        &&& Triangle::mapped(&self.input_state) ==> forall|k: int|
            0 <= k < 3 ==> Triangle::position(#[trigger] indices@[k], self.input_state.texcoords@.len()).is_some()
    }

    /// Whether this is a render of the given size before anything is
    /// read: an empty scene without global illumination, a bounce limit of
    /// four, no anti-aliasing, the first attributes and camera, and an
    /// image that is black and transparent all over.
    pub open spec fn initial(&self, height: u32, width: u32) -> bool {
        &&& self.wf()
        &&& self.height == height
        &&& self.width == width
        &&& self.bounce_limit == 4
        &&& self.anti_aliasing == 0
        &&& self.scene.shapes@.len() == 0
        &&& self.scene.light_sources@.len() == 0
        &&& self.scene.gi_depth == 0
        &&& self.camera == CameraState::initial(width, height)
        &&& self.input_state.initial()
        &&& forall|x: u32, y: u32|
            x < width && y < height ==> #[trigger] raster_pixels(self.image)[(x, y)] == (0u8, 0u8, 0u8, 0u8)
    }

    /// A render of the given size before anything is read.
    pub fn new(height: u32, width: u32) -> (r: RayTracer)
        requires
            fits(width, height),
        ensures
            r.initial(height, width),
    {
        RayTracer {
            scene: Scene::new(),
            height,
            width,
            bounce_limit: 4,
            anti_aliasing: 0,
            input_state: InputState::new(),
            image: Raster::new(width, height),
            camera: CameraState::new(width, height),
        }
    }

    /// The render that a header asks for: as wide as its second word says
    /// and as high as its third.
    pub fn from_header(header: &Header) -> (r: RayTracer)
        requires
            fits(header.width, header.height),
        ensures
            r.initial(header.height, header.width),
    {
        RayTracer::new(header.height, header.width)
    }

    /// Stores the pixel at column `x`, row `y`. Outside the image nothing
    /// is stored, and `false` returned.
    pub fn put_pixel(&mut self, x: u32, y: u32, pixel: Pixel) -> (r: bool)
        requires
            old(self).wf(),
        ensures
            final(self).wf(),
            r == (x < old(self).width && y < old(self).height),
            r ==> raster_pixels(final(self).image) == raster_pixels(old(self).image).insert((x, y), pixel),
            !r ==> final(self).image == old(self).image,
            final(self).scene == old(self).scene,
            final(self).camera == old(self).camera,
            final(self).input_state == old(self).input_state,
            final(self).width == old(self).width,
            final(self).height == old(self).height,
            final(self).bounce_limit == old(self).bounce_limit,
            final(self).anti_aliasing == old(self).anti_aliasing,
    {
        if x < self.width && y < self.height {
            self.image.put_pixel(x, y, pixel);
            true
        } else {
            false
        }
    }

    /// The image as bytes, row by row, four to a pixel.
    pub fn save_image(self) -> (r: Vec<u8>)
        requires
            self.wf(),
        ensures
            holds_pixels(r@, self.width, self.height, raster_pixels(self.image)),
    {
        self.image.into_raw()
    }
}

impl RayTracer {
    /// Whether `new` differs from `old` in its scene only, and there by
    /// one shape behind the others.
    pub open spec fn added_shape(old: RayTracer, new: RayTracer, shape: SceneObject) -> bool {
        &&& new.scene.shapes@ == old.scene.shapes@.push(shape)
        &&& new.scene.light_sources == old.scene.light_sources
        &&& new.scene.gi_depth == old.scene.gi_depth
        &&& new.input_state == old.input_state
        &&& new.camera == old.camera
        &&& RayTracer::same_frame(old, new)
    }

    /// Whether `new` differs from `old` in its scene only, and there by
    /// one light behind the others.
    pub open spec fn added_light(old: RayTracer, new: RayTracer, light: LightSource) -> bool {
        &&& new.scene.light_sources@ == old.scene.light_sources@.push(light)
        &&& new.scene.shapes == old.scene.shapes
        &&& new.scene.gi_depth == old.scene.gi_depth
        &&& new.input_state == old.input_state
        &&& new.camera == old.camera
        &&& RayTracer::same_frame(old, new)
    }

    /// Whether image, size and limits are the same.
    pub open spec fn same_frame(old: RayTracer, new: RayTracer) -> bool {
        &&& new.image == old.image
        &&& new.width == old.width
        &&& new.height == old.height
        &&& new.bounce_limit == old.bounce_limit
        &&& new.anti_aliasing == old.anti_aliasing
    }

    /// Whether `new` differs from `old` at most in the attributes of the
    /// next shape, and there at most in the fields that are no lists.
    pub open spec fn set_attribute(old: RayTracer, new: RayTracer, attributes: InputState) -> bool {
        &&& new.input_state == attributes
        &&& new.scene == old.scene
        &&& new.camera == old.camera
        &&& RayTracer::same_frame(old, new)
    }

    /// Whether `new` is `old` with the given camera.
    pub open spec fn set_camera(old: RayTracer, new: RayTracer, camera: CameraState) -> bool {
        new == (RayTracer { camera, ..old })
    }

    /// Whether `new` is what `old` becomes by a directive. `name` is the
    /// word after the action, `unit` the vector of the directive at length
    /// one, `texture` the texture that the description is at, loaded.
    pub open spec fn applied(
        old: RayTracer,
        new: RayTracer,
        directive: Directive,
        name: Seq<char>,
        unit: MatVec<3>,
        texture: Option<Texture2d>,
    ) -> bool {
        let attributes = old.input_state;
        match directive {
            Directive::Sphere { center, radius } => RayTracer::added_shape(
                old,
                new,
                SceneObject::Sphere(Sphere::of(center, radius, attributes, texture)),
            ),
            Directive::Plane { coeffs } => RayTracer::added_shape(
                old,
                new,
                SceneObject::Plane(Plane { normal: unit, D: coeffs@[3], color: attributes.color }),
            ),
            Directive::Tri { indices } => RayTracer::added_shape(
                old,
                new,
                SceneObject::Triangle(Triangle::of(indices@, attributes, texture)),
            ),
            Directive::Sun { direction } => RayTracer::added_light(
                old,
                new,
                LightSource::Sun(Sun { direction: unit, color: attributes.color }),
            ),
            Directive::Bulb { position } => RayTracer::added_light(
                old,
                new,
                LightSource::Bulb(Bulb { position, color: attributes.color }),
            ),
            Directive::Color { color } => RayTracer::set_attribute(old, new, InputState { color, ..attributes }),
            Directive::Shininess { shininess } => RayTracer::set_attribute(
                old,
                new,
                InputState { shininess, ..attributes },
            ),
            Directive::Transparency { transparency } => RayTracer::set_attribute(
                old,
                new,
                InputState { transparency, ..attributes },
            ),
            Directive::Roughness { roughness } => RayTracer::set_attribute(
                old,
                new,
                InputState { roughness, ..attributes },
            ),
            Directive::Ior { ior } => RayTracer::set_attribute(
                old,
                new,
                InputState { index_of_refraction: ior, ..attributes },
            ),
            Directive::Texture => {
                &&& new.input_state.texture@ == name
                &&& new.input_state.color == attributes.color
                &&& new.input_state.verticies == attributes.verticies
                &&& new.input_state.texcoords == attributes.texcoords
                &&& new.input_state.shininess == attributes.shininess
                &&& new.input_state.transparency == attributes.transparency
                &&& new.input_state.roughness == attributes.roughness
                &&& new.input_state.index_of_refraction == attributes.index_of_refraction
                &&& new.scene == old.scene
                &&& new.camera == old.camera
                &&& RayTracer::same_frame(old, new)
            },
            Directive::Xyz { vertex } => {
                &&& new.input_state.verticies@ == attributes.verticies@.push(vertex)
                &&& new.input_state.texture == attributes.texture
                &&& new.input_state.color == attributes.color
                &&& new.input_state.texcoords == attributes.texcoords
                &&& new.input_state.shininess == attributes.shininess
                &&& new.input_state.transparency == attributes.transparency
                &&& new.input_state.roughness == attributes.roughness
                &&& new.input_state.index_of_refraction == attributes.index_of_refraction
                &&& new.scene == old.scene
                &&& new.camera == old.camera
                &&& RayTracer::same_frame(old, new)
            },
            Directive::Texcoord { texcoord } => {
                &&& new.input_state.texcoords@ == attributes.texcoords@.push(texcoord)
                &&& new.input_state.texture == attributes.texture
                &&& new.input_state.color == attributes.color
                &&& new.input_state.verticies == attributes.verticies
                &&& new.input_state.shininess == attributes.shininess
                &&& new.input_state.transparency == attributes.transparency
                &&& new.input_state.roughness == attributes.roughness
                &&& new.input_state.index_of_refraction == attributes.index_of_refraction
                &&& new.scene == old.scene
                &&& new.camera == old.camera
                &&& RayTracer::same_frame(old, new)
            },
            Directive::Expose { exposure } => RayTracer::set_camera(
                old,
                new,
                CameraState { exposure: Some(exposure), ..old.camera },
            ),
            Directive::Up { up } => RayTracer::set_camera(old, new, CameraState { up, ..old.camera }),
            Directive::Eye { eye } => RayTracer::set_camera(old, new, CameraState { eye, ..old.camera }),
            Directive::Forward { forward } => RayTracer::set_camera(old, new, CameraState { forward, ..old.camera }),
            Directive::Fisheye => RayTracer::set_camera(
                old,
                new,
                CameraState { projection: ProjectionType::FISHEYE, ..old.camera },
            ),
            Directive::Panorama => RayTracer::set_camera(
                old,
                new,
                CameraState { projection: ProjectionType::PANORAMIC, ..old.camera },
            ),
            Directive::Dof { dof } => RayTracer::set_camera(old, new, CameraState { dof: Some(dof), ..old.camera }),
            Directive::Bounces { bounces } => new == (RayTracer { bounce_limit: bounces, ..old }),
            Directive::Aa { aa } => new == (RayTracer { anti_aliasing: aa, ..old }),
        }
    }

    /// Whether a directive is refused: a triangle whose indices name no vertex.
    pub open spec fn refused(old: RayTracer, directive: Directive) -> bool {
        match directive {
            Directive::Tri { indices } => !old.names_vertices(indices),
            _ => false,
        }
    }

    /// Whether `new` and `r` are what reading a line makes of `old`. A
    /// line that asks for nothing changes nothing. A line that cannot be
    /// read, and a triangle whose indices name no vertex, are refused and
    /// nothing changes. Any other line is carried out, a texture taking
    /// the name that the second word of the line gives.
    pub open spec fn loaded(
        old: RayTracer,
        new: RayTracer,
        asked: Result<Option<Directive>, LoadError>,
        line: Seq<Seq<char>>,
        unit: MatVec<3>,
        texture: Option<Texture2d>,
        r: Result<(), LoadError>,
    ) -> bool {
        match asked {
            Err(e) => r == Err::<(), LoadError>(e) && new == old,
            Ok(None) => r.is_ok() && new == old,
            Ok(Some(directive)) => if RayTracer::refused(old, directive) {
                r == Err::<(), LoadError>(LoadError::Index) && new == old
            } else {
                r.is_ok() && RayTracer::applied(old, new, directive, line[1], unit, texture)
            },
        }
    }

    /// Reads a line of a scene description and does what it asks for.
    /// `numbers` holds, for each word after the first, the number that it
    /// writes, if it writes one; `unit` is the vector of a sun or of a
    /// plane's normal brought to length one; `texture` is the texture that
    /// the description is at, loaded.
    pub fn load(
        &mut self,
        line: &Vec<char>,
        numbers: &Vec<Option<Scalar>>,
        unit: MatVec<3>,
        texture: Option<Texture2d>,
    ) -> (r: Result<(), LoadError>)
        ensures
            RayTracer::loaded(
                *old(self),
                *final(self),
                directive_of(line@, numbers@),
                words(line@),
                unit,
                texture,
                r,
            ),
            old(self).wf() ==> final(self).wf(),
    {
        let directive = match Directive::parse(line, numbers) {
            Err(e) => {
                return Err(e);
            },
            Ok(None) => {
                return Ok(());
            },
            Ok(Some(directive)) => directive,
        };
        let name = match directive {
            Directive::Texture => {
                let mut tokens = split_whitespace(line);
                assert(views(tokens@)[1] == tokens@[1]@);
                tokens.remove(1)
            },
            _ => Vec::new(),
        };
        self.apply(directive, name, unit, texture)
    }

    /// Does what a directive asks for. A triangle whose indices name no
    /// vertex is refused and nothing changes; every other directive is carried out.
    fn apply(&mut self, directive: Directive, name: Vec<char>, unit: MatVec<3>, texture: Option<Texture2d>) -> (r:
        Result<(), LoadError>)
        ensures
            r.is_err() == RayTracer::refused(*old(self), directive),
            r.is_err() ==> r == Err::<(), LoadError>(LoadError::Index) && *final(self) == *old(self),
            r.is_ok() ==> RayTracer::applied(*old(self), *final(self), directive, name@, unit, texture),
            old(self).wf() ==> final(self).wf(),
    {
        match directive {
            Directive::Sphere { center, radius } => {
                let shape = Sphere::new(center, radius, &self.input_state, texture);
                self.scene.add_shape(SceneObject::Sphere(shape));
            },
            Directive::Plane { coeffs } => {
                let shape = Plane::new(coeffs, unit, &self.input_state);
                self.scene.add_shape(SceneObject::Plane(shape));
            },
            Directive::Tri { indices } => {
                let n = self.input_state.verticies.len();
                let m = self.input_state.texcoords.len();
                let mapped = self.input_state.textured() && m > 0;
                let mut k: usize = 0;
                while k < 3
                    invariant
                        k <= 3,
                        n == self.input_state.verticies@.len(),
                        m == self.input_state.texcoords@.len(),
                        mapped == Triangle::mapped(&self.input_state),
                        *self == *old(self),
                        directive == (Directive::Tri { indices }),
                        forall|j: int|
                            0 <= j < k ==> Triangle::position(#[trigger] indices@[j], n as nat).is_some(),
                        mapped ==> forall|j: int|
                            0 <= j < k ==> Triangle::position(#[trigger] indices@[j], m as nat).is_some(),
                    decreases 3 - k,
                {
                    if Triangle::resolve(indices[k], n).is_none() || (mapped && Triangle::resolve(
                        indices[k],
                        m,
                    ).is_none()) {
                        proof {
                            let bad = indices@[k as int];
                            assert(Triangle::position(bad, n as nat).is_none() || (mapped
                                && Triangle::position(bad, m as nat).is_none()));
                        }
                        return Err(LoadError::Index);
                    }
                    k = k + 1;
                }
                let mut list: Vec<i32> = Vec::new();
                list.push(indices[0]);
                list.push(indices[1]);
                list.push(indices[2]);
                assert(list@ =~= indices@);
                let shape = Triangle::new(list, &self.input_state, texture);
                self.scene.add_shape(SceneObject::Triangle(shape));
            },
            Directive::Sun { direction } => {
                let light = Sun::new(direction, unit, &self.input_state);
                self.scene.add_light_source(LightSource::Sun(light));
            },
            Directive::Bulb { position } => {
                let light = Bulb::new(position, &self.input_state);
                self.scene.add_light_source(LightSource::Bulb(light));
            },
            Directive::Color { color } => {
                self.input_state.color = color;
            },
            Directive::Shininess { shininess } => {
                self.input_state.shininess = shininess;
            },
            Directive::Transparency { transparency } => {
                self.input_state.transparency = transparency;
            },
            Directive::Roughness { roughness } => {
                self.input_state.roughness = roughness;
            },
            Directive::Ior { ior } => {
                self.input_state.index_of_refraction = ior;
            },
            Directive::Texture => {
                self.input_state.texture = name;
            },
            Directive::Xyz { vertex } => {
                self.input_state.verticies.push(vertex);
            },
            Directive::Texcoord { texcoord } => {
                self.input_state.texcoords.push(texcoord);
            },
            Directive::Expose { exposure } => {
                self.camera.exposure = Some(exposure);
            },
            Directive::Up { up } => {
                self.camera.up = up;
            },
            Directive::Eye { eye } => {
                self.camera.eye = eye;
            },
            Directive::Forward { forward } => {
                self.camera.forward = forward;
            },
            Directive::Fisheye => {
                self.camera.projection = ProjectionType::FISHEYE;
            },
            Directive::Panorama => {
                self.camera.projection = ProjectionType::PANORAMIC;
            },
            Directive::Dof { dof } => {
                self.camera.dof = Some(dof);
            },
            Directive::Bounces { bounces } => {
                self.bounce_limit = bounces;
            },
            Directive::Aa { aa } => {
                self.anti_aliasing = aa;
            },
        }
        Ok(())
    }
}

} // verus!
