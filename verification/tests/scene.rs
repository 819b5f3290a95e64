use raytracer::light_sources::{Bulb, LightSource, Sun};
use raytracer::matvec::MatVec;
use raytracer::ray::{Intersection, Ray, Refraction};
use raytracer::scalar::Scalar;
use raytracer::scene::{positive, Bounces, LightProbe, Scene, BIAS_BITS};
use raytracer::shapes::{broadcast, Plane, SceneObject, Sphere};
use raytracer::state::{CameraState, InputState, LightResidual, ProjectionType};

fn s(x: f32) -> Scalar {
    Scalar::from_bits(x.to_bits())
}

fn n(x: Scalar) -> f32 {
    f32::from_bits(x.to_bits())
}

fn plane_of(normal: MatVec<3>, d: f32) -> MatVec<4> {
    MatVec::new(vec![normal.get(0), normal.get(1), normal.get(2), s(d)])
}

fn v3(a: [f32; 3]) -> MatVec<3> {
    MatVec::new(vec![s(a[0]), s(a[1]), s(a[2])])
}

fn hit(distance: f32) -> Option<Intersection> {
    Some(Intersection {
        shape_id: None,
        point: v3([distance, 0.0, 0.0]),
        normal: v3([0.0, 1.0, 0.0]),
        distance: s(distance),
        residual: false,
    })
}

fn shiny(shininess: Vec<f32>, transparency: Vec<f32>) -> SceneObject {
    let mut context = InputState::new();
    context.shininess = broadcast(&shininess.into_iter().map(s).collect());
    context.transparency = broadcast(&transparency.into_iter().map(s).collect());
    SceneObject::Sphere(Sphere::new(v3([0.0; 3]), s(1.0), &context, None))
}

#[test]
fn nothing_is_found_among_no_candidates() {
    let scene = Scene::new();
    assert!(scene.find_minimum_intersection(&vec![]).is_none());
    assert!(scene.find_minimum_intersection(&vec![None, None, None]).is_none());
}

#[test]
fn the_nearest_candidate_is_found_with_its_index() {
    let scene = Scene::new();
    let found = scene.find_minimum_intersection(&vec![hit(5.0), None, hit(2.0), hit(3.0)]).unwrap();
    assert_eq!(found.shape_id, Some(2));
    assert_eq!(found.distance, s(2.0));
    assert_eq!(found.point, v3([2.0, 0.0, 0.0]));
    assert_eq!(found.normal, v3([0.0, 1.0, 0.0]));
}

#[test]
fn of_equal_candidates_the_first_is_found() {
    let scene = Scene::new();
    let found = scene.find_minimum_intersection(&vec![None, hit(2.0), hit(2.0), hit(7.0)]).unwrap();
    assert_eq!(found.shape_id, Some(1));
    let found = scene.find_minimum_intersection(&vec![hit(0.0), hit(-0.0)]).unwrap();
    assert_eq!(found.shape_id, Some(0));
}

#[test]
fn a_ray_from_the_camera_is_tested_as_it_is() {
    let ray = Ray::new(v3([1.0, 2.0, 3.0]), v3([0.0, 0.0, -1.0]));
    let tested = Scene::find_minimum_intersection_with_point(&ray, v3([9.0, 9.0, 9.0]), &None);
    assert_eq!(tested.origin, v3([1.0, 2.0, 3.0]));
    assert_eq!(tested.direction, v3([0.0, 0.0, -1.0]));
}

#[test]
fn a_ray_that_leaves_a_surface_is_tested_from_further_on() {
    let ray = Ray::new(v3([1.0, 2.0, 3.0]), v3([0.0, 0.0, -1.0]));
    let bias = n(Scalar::from_bits(BIAS_BITS));
    assert_eq!(bias, 0.065);
    let advanced = v3([1.0, 2.0, 3.0 - bias]);
    let tested = Scene::find_minimum_intersection_with_point(&ray, advanced, &hit(0.0));
    assert_eq!(tested.origin, advanced);
    assert_eq!(tested.direction, v3([0.0, 0.0, -1.0]));
}

#[test]
fn a_ray_that_meets_nothing_is_transparent_black() {
    let color = Scene::trace_ray(&None, 3).unwrap();
    assert_eq!(color, MatVec::new(vec![s(0.0), s(0.0), s(0.0), s(0.0)]));
}

#[test]
fn a_point_in_full_shadow_is_opaque_black() {
    // One sphere between the point and the only light: the probe meets it.
    let mut scene = Scene::new();
    scene.add_shape(shiny(vec![], vec![]));
    scene.add_light_source(LightSource::Sun(Sun::new(v3([0.0, 1.0, 0.0]), v3([0.0, 1.0, 0.0]), &InputState::new())));
    let primary = hit(4.0).unwrap();
    let ray = Ray::generate_light_ray(&primary, &scene.light_sources[0], v3([0.0; 3]));
    let probes = vec![LightProbe { ray, occluder: hit(1.5), falloff: s(1.0) }];
    let lights = scene.find_light_sources(&primary, &probes);
    assert!(lights.is_empty());
    let color = Scene::trace_ray(&Some(primary), lights.len()).unwrap();
    assert_eq!(color, MatVec::new(vec![s(0.0), s(0.0), s(0.0), s(1.0)]));
}

#[test]
fn a_lit_point_has_to_be_shaded() {
    assert!(Scene::trace_ray(&hit(1.0), 1).is_none());
    assert!(Scene::trace_ray(&hit(1.0), 7).is_none());
}

#[test]
fn lights_that_are_not_hidden_leave_their_light() {
    let mut context = InputState::new();
    context.color = v3([1.0, 0.5, 0.25]);
    let mut scene = Scene::new();
    scene.add_light_source(LightSource::Sun(Sun::new(v3([0.0, 1.0, 0.0]), v3([0.0, 1.0, 0.0]), &context)));
    scene.add_light_source(LightSource::Bulb(Bulb::new(v3([3.0, 0.0, 0.0]), &InputState::new())));
    scene.add_light_source(LightSource::Bulb(Bulb::new(v3([0.0, 0.0, 9.0]), &context)));
    let primary = hit(1.0).unwrap();
    let aim = v3([1.0, 0.0, 0.0]);
    let probes = vec![
        LightProbe { ray: Ray::generate_light_ray(&primary, &scene.light_sources[0], aim), occluder: None, falloff: s(0.5) },
        LightProbe { ray: Ray::generate_light_ray(&primary, &scene.light_sources[1], aim), occluder: hit(1.0), falloff: s(0.25) },
        LightProbe { ray: Ray::generate_light_ray(&primary, &scene.light_sources[2], aim), occluder: None, falloff: s(0.125) },
    ];
    let lights: Vec<LightResidual> = scene.find_light_sources(&primary, &probes);
    assert_eq!(lights.len(), 2);
    assert_eq!(lights[0].color, v3([1.0, 0.5, 0.25]));
    assert_eq!(lights[0].intensity, s(1.0));
    assert_eq!(lights[0].direction, v3([0.0, 1.0, 0.0]));
    assert_eq!(lights[0].normal, primary.normal);
    assert_eq!(lights[0].source_id, None);
    assert_eq!(lights[1].color, v3([1.0, 0.5, 0.25]));
    assert_eq!(lights[1].intensity, s(0.125));
    assert_eq!(lights[1].direction, aim);
}

#[test]
fn light_rays_start_at_the_point() {
    let primary = hit(2.0).unwrap();
    let sun = LightSource::Sun(Sun::new(v3([0.0, 0.0, 1.0]), v3([0.0, 0.0, 1.0]), &InputState::new()));
    let bulb = LightSource::Bulb(Bulb::new(v3([5.0, 5.0, 5.0]), &InputState::new()));
    let aim = v3([0.6, 0.8, 0.0]);
    let ray = Ray::generate_light_ray(&primary, &sun, aim);
    assert_eq!(ray.origin, primary.point);
    assert_eq!(ray.direction, v3([0.0, 0.0, 1.0]));
    let ray = Ray::generate_light_ray(&primary, &bulb, aim);
    assert_eq!(ray.origin, primary.point);
    assert_eq!(ray.direction, aim);
    assert_eq!(sun.intensity(s(0.04)), s(1.0));
    assert_eq!(bulb.intensity(s(0.04)), s(0.04));
    assert_eq!(sun.light_color(), v3([1.0, 1.0, 1.0]));
}

#[test]
fn rays_are_followed_while_budget_is_left() {
    let mut scene = Scene::new();
    scene.add_shape(shiny(vec![0.0, 0.5, 0.0], vec![]));
    scene.add_shape(shiny(vec![0.0], vec![0.3]));
    scene.add_shape(SceneObject::Plane(Plane::new(plane_of(v3([0.0, 1.0, 0.0]), 0.0), v3([0.0, 1.0, 0.0]), &InputState::new())));
    assert_eq!(scene.bounces(0, 4, 0), Bounces { global: None, reflection: Some(3), refraction: None });
    assert_eq!(scene.bounces(0, 2, 2), Bounces { global: Some(1), reflection: Some(1), refraction: None });
    assert_eq!(scene.bounces(0, 1, 1), Bounces { global: Some(0), reflection: None, refraction: None });
    assert_eq!(scene.bounces(0, 0, 0), Bounces { global: None, reflection: None, refraction: None });
    assert_eq!(scene.bounces(1, 4, 0), Bounces { global: None, reflection: None, refraction: Some(3) });
    assert_eq!(scene.bounces(2, 4, 3), Bounces { global: Some(2), reflection: None, refraction: None });
}

#[test]
fn a_coefficient_above_zero_counts() {
    assert!(!positive(None));
    assert!(!positive(Some(v3([0.0, -0.0, -1.0]))));
    assert!(!positive(Some(v3([f32::NAN, 0.0, 0.0]))));
    assert!(positive(Some(v3([0.0, 0.0, 1e-30]))));
    assert!(positive(Some(v3([1.0, 0.0, 0.0]))));
}

#[test]
fn shapes_and_lights_keep_their_order() {
    let mut scene = Scene::new();
    assert_eq!(scene.gi_depth, 0);
    scene.add_shape(shiny(vec![0.25], vec![]));
    scene.add_shape(SceneObject::Plane(Plane::new(plane_of(v3([0.0, 1.0, 0.0]), 2.0), v3([0.0, 1.0, 0.0]), &InputState::new())));
    scene.add_light_source(LightSource::Bulb(Bulb::new(v3([1.0, 2.0, 3.0]), &InputState::new())));
    assert_eq!(scene.shapes.len(), 2);
    assert!(matches!(scene.shapes[0], SceneObject::Sphere(_)));
    assert!(matches!(&scene.shapes[1], SceneObject::Plane(p) if p.D == s(2.0)));
    assert_eq!(scene.light_sources.len(), 1);
    assert!(matches!(scene.light_sources[0], LightSource::Bulb(b) if b.position == v3([1.0, 2.0, 3.0])));
}

#[test]
fn the_absent_ray_points_nowhere() {
    let ray = Ray::none();
    assert!(ray.is_none());
    assert_eq!(ray.origin, v3([0.0; 3]));
    assert_eq!(ray.direction, v3([0.0; 3]));
    assert!(!Ray::new(v3([0.0; 3]), v3([0.0, 0.0, -1.0])).is_none());
}

#[test]
fn a_fisheye_sees_the_unit_disk() {
    let mut camera = CameraState::new(4, 3);
    assert_eq!(camera.scale(), 4);
    assert_eq!(CameraState::new(3, 8).scale(), 8);
    assert!(camera.sees(s(7.0)));
    camera.projection = ProjectionType::FISHEYE;
    assert!(camera.sees(s(0.5)));
    assert!(camera.sees(s(1.0)));
    assert!(!camera.sees(s(1.000_000_1)));
    camera.projection = ProjectionType::PANORAMIC;
    assert!(camera.sees(s(7.0)));
}

#[test]
fn a_new_camera_looks_down_the_z_axis() {
    let camera = CameraState::new(640, 480);
    assert_eq!((camera.width, camera.height), (640, 480));
    assert_eq!(camera.forward, v3([0.0, 0.0, -1.0]));
    assert_eq!(camera.up, v3([0.0, 1.0, 0.0]));
    assert_eq!(camera.eye, v3([0.0, 0.0, 0.0]));
    assert_eq!(camera.exposure, None);
    assert_eq!(camera.projection, ProjectionType::FLAT);
    assert_eq!(camera.dof, None);
}

#[test]
fn a_sampled_ray_leaves_its_colour_on_the_surface_normal() {
    let at = hit(2.0).unwrap();
    let residual = LightResidual::sampled(v3([0.1, 0.2, 0.3]), v3([0.6, 0.8, 0.0]), &at);
    assert_eq!(residual.source_id, None);
    assert_eq!(residual.color, v3([0.1, 0.2, 0.3]));
    assert_eq!(residual.intensity, s(1.0));
    assert_eq!(residual.direction, v3([0.6, 0.8, 0.0]));
    assert_eq!(residual.normal, at.normal);
}

#[test]
fn a_new_residual_is_a_shadow() {
    let residual = LightResidual::new();
    assert_eq!(residual.source_id, None);
    assert_eq!(residual.intensity, s(0.0));
    assert_eq!(residual.color, v3([0.0; 3]));
    assert_eq!(residual.direction, v3([0.0; 3]));
    assert_eq!(residual.normal, v3([0.0; 3]));
}

#[test]
fn a_leaving_ray_is_bent_on_the_turned_normal() {
    let at = hit(1.0).unwrap();
    let side = Refraction::side(&at, s(0.3), s(1.458), s(1.0 / 1.458));
    assert_eq!(side.normal, v3([-0.0, -1.0, -0.0]));
    assert_eq!(side.eta, s(1.458));
    let side = Refraction::side(&at, s(-0.3), s(1.458), s(1.0 / 1.458));
    assert_eq!(side.normal, v3([0.0, 1.0, 0.0]));
    assert_eq!(side.eta, s(1.0 / 1.458));
    let side = Refraction::side(&at, s(0.0), s(1.458), s(0.5));
    assert_eq!(side.eta, s(0.5));
    assert!(Refraction::reflects_totally(s(1.01)));
    assert!(!Refraction::reflects_totally(s(1.0)));
    assert!(!Refraction::reflects_totally(s(0.2)));
}
