use raytracer::light_sources::{LightSource, Sun};
use raytracer::material::Material;
use raytracer::matvec::MatVec;
use raytracer::ray::{Intersection, Ray};
use raytracer::scalar::Scalar;
use raytracer::scene::{LightProbe, Scene};
use raytracer::state::InputState;

fn s(x: f32) -> Scalar {
    Scalar::from_bits(x.to_bits())
}

fn v3(a: [f32; 3]) -> MatVec<3> {
    MatVec::new(vec![s(a[0]), s(a[1]), s(a[2])])
}

#[test]
fn a_material_keeps_its_coefficients() {
    let material = Material::new(vec![s(0.1), s(0.2), s(0.3)]);
    assert_eq!(material.shininess, vec![s(0.1), s(0.2), s(0.3)]);
}

#[test]
fn a_light_without_a_probe_leaves_nothing() {
    let mut scene = Scene::new();
    scene.add_light_source(LightSource::Sun(Sun::new(v3([0.0, 1.0, 0.0]), v3([0.0, 1.0, 0.0]), &InputState::new())));
    scene.add_light_source(LightSource::Sun(Sun::new(v3([1.0, 0.0, 0.0]), v3([1.0, 0.0, 0.0]), &InputState::new())));
    let primary = Intersection {
        shape_id: Some(0),
        point: v3([0.0; 3]),
        normal: v3([0.0, 1.0, 0.0]),
        distance: s(1.0),
        residual: false,
    };
    let probe = LightProbe { ray: Ray::new(v3([0.0; 3]), v3([0.0, 1.0, 0.0])), occluder: None, falloff: s(1.0) };
    assert_eq!(scene.find_light_sources(&primary, &vec![]).len(), 0);
    assert_eq!(scene.find_light_sources(&primary, &vec![probe]).len(), 1);
    assert_eq!(scene.find_light_sources(&primary, &vec![probe, probe, probe]).len(), 2);
}
