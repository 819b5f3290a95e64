//! The decisions of a ray tracer: which surface a ray meets first, which
//! lights reach it, when a ray is followed further, and what a scene
//! description builds. Numbers are binary32 values carried by their bit
//! patterns; the arithmetic that rounds is the caller's.

pub mod light_sources;
pub mod loader;
pub mod material;
pub mod matvec;
pub mod ray;
pub mod raytracer;
pub mod scalar;
pub mod scene;
pub mod shapes;
pub mod state;
pub mod text;
pub mod texture;
pub mod utils;

pub use light_sources::{Bulb, LightSource, Sun};
pub use matvec::{Color, Light, MatVec, RGBA};
pub use ray::{Intersection, IntersectionPayload, Ray, Refraction};
pub use scalar::Scalar;
pub use scene::{Bounces, LightProbe, Scene};
pub use shapes::{Barycentric, Plane, SceneObject, Sphere, Triangle};
pub use state::{CameraState, InputState, LightResidual, ProjectionType};
pub use texture::Texture2d;
