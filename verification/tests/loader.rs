use raytracer::light_sources::LightSource;
use raytracer::loader::{parse_header, Directive, LoadError};
use raytracer::matvec::MatVec;
use raytracer::raytracer::RayTracer;
use raytracer::scalar::Scalar;
use raytracer::shapes::SceneObject;
use raytracer::state::ProjectionType;
use raytracer::text::{parse_i32, parse_u32, spells, split_whitespace};
use raytracer::texture::Texture2d;

fn s(x: f32) -> Scalar {
    Scalar::from_bits(x.to_bits())
}

fn v3(a: [f32; 3]) -> MatVec<3> {
    MatVec::new(vec![s(a[0]), s(a[1]), s(a[2])])
}

fn chars(text: &str) -> Vec<char> {
    text.chars().collect()
}

fn read(line: &str) -> Result<Option<Directive>, LoadError> {
    let line = chars(line);
    let words = split_whitespace(&line);
    let numbers: Vec<Option<Scalar>> =
        words.iter().skip(1).map(|w| w.iter().collect::<String>().parse::<f32>().ok().map(s)).collect();
    Directive::parse(&line, &numbers)
}

fn load(tracer: &mut RayTracer, line: &str, unit: [f32; 3]) -> Result<(), LoadError> {
    let line = chars(line);
    let words = split_whitespace(&line);
    let numbers: Vec<Option<Scalar>> =
        words.iter().skip(1).map(|w| w.iter().collect::<String>().parse::<f32>().ok().map(s)).collect();
    tracer.load(&line, &numbers, v3(unit), Texture2d::new(1, 1, vec![9, 9, 9, 9]))
}

fn apply(tracer: &mut RayTracer, line: &str) -> Result<(), LoadError> {
    load(tracer, line, [0.0, 0.0, 1.0])
}

#[test]
fn lines_split_at_runs_of_spaces() {
    let words = split_whitespace(&chars("  sphere\t1 -2.5   3e2 \r\n"));
    let words: Vec<String> = words.iter().map(|w| w.iter().collect()).collect();
    assert_eq!(words, vec!["sphere", "1", "-2.5", "3e2"]);
    assert!(split_whitespace(&chars("")).is_empty());
    assert!(split_whitespace(&chars(" \t \x0b\x0c \u{a0}\u{2003}")).is_empty());
    assert_eq!(split_whitespace(&chars("x")), vec![vec!['x']]);
}

#[test]
fn words_are_told_apart() {
    assert!(spells(&chars("sphere"), "sphere"));
    assert!(!spells(&chars("spher"), "sphere"));
    assert!(!spells(&chars("spheres"), "sphere"));
    assert!(!spells(&chars("Sphere"), "sphere"));
    assert!(spells(&chars(""), ""));
}

#[test]
fn whole_numbers_are_read_as_written() {
    assert_eq!(parse_u32(&chars("0")), Some(0));
    assert_eq!(parse_u32(&chars("007")), Some(7));
    assert_eq!(parse_u32(&chars("+42")), Some(42));
    assert_eq!(parse_u32(&chars("4294967295")), Some(u32::MAX));
    assert_eq!(parse_u32(&chars("4294967296")), None);
    assert_eq!(parse_u32(&chars("99999999999999999999999")), None);
    assert_eq!(parse_u32(&chars("-1")), None);
    assert_eq!(parse_u32(&chars("-0")), None);
    assert_eq!(parse_u32(&chars("")), None);
    assert_eq!(parse_u32(&chars("+")), None);
    assert_eq!(parse_u32(&chars("12a")), None);
    assert_eq!(parse_u32(&chars("1.5")), None);
    assert_eq!(parse_i32(&chars("-2147483648")), Some(i32::MIN));
    assert_eq!(parse_i32(&chars("2147483647")), Some(i32::MAX));
    assert_eq!(parse_i32(&chars("2147483648")), None);
    assert_eq!(parse_i32(&chars("-2147483649")), None);
    assert_eq!(parse_i32(&chars("-0")), Some(0));
    assert_eq!(parse_i32(&chars("+5")), Some(5));
    assert_eq!(parse_i32(&chars("-")), None);
    assert_eq!(parse_i32(&chars("--5")), None);
    assert_eq!(parse_i32(&chars("5-")), None);
}

#[test]
fn whole_numbers_agree_with_the_standard_reading() {
    for text in ["0", "1", "+1", "-1", "00012", "4294967295", "4294967296", "2147483648", "-2147483648", "", "+", "-", "1 ", "٣", "0x10", "1_000"] {
        assert_eq!(parse_u32(&chars(text)), text.parse::<u32>().ok(), "{text}");
        assert_eq!(parse_i32(&chars(text)), text.parse::<i32>().ok(), "{text}");
    }
}

#[test]
fn a_header_has_four_words() {
    let header = parse_header(&chars("png 40 30 out.png")).unwrap();
    assert_eq!(header.magic, chars("png"));
    assert_eq!(header.width, 40);
    assert_eq!(header.height, 30);
    assert_eq!(header.out_file, chars("out.png"));
    assert_eq!(parse_header(&chars("png 40 30")).err(), Some(LoadError::Format));
    assert_eq!(parse_header(&chars("png 40 30 out.png extra")).err(), Some(LoadError::Format));
    assert_eq!(parse_header(&chars("")).err(), Some(LoadError::Format));
    assert_eq!(parse_header(&chars("png forty 30 out.png")).err(), Some(LoadError::Number));
    assert_eq!(parse_header(&chars("png 40 -30 out.png")).err(), Some(LoadError::Number));
}

#[test]
fn comments_and_empty_lines_ask_for_nothing() {
    assert!(matches!(read(""), Ok(None)));
    assert!(matches!(read("# sphere 0 0 0 1"), Ok(None)));
    assert!(matches!(read("#"), Ok(None)));
    assert!(matches!(read("   "), Err(LoadError::Missing)));
    assert!(matches!(read(" # not a comment"), Err(LoadError::Action)));
}

#[test]
fn each_action_is_read_with_its_arguments() {
    assert!(matches!(read("sphere 1 2 3 0.5"), Ok(Some(Directive::Sphere { center, radius })) if center == v3([1.0, 2.0, 3.0]) && radius == s(0.5)));
    assert!(matches!(read("sun 1 0 0"), Ok(Some(Directive::Sun { direction })) if direction == v3([1.0, 0.0, 0.0])));
    assert!(matches!(read("color 0.1 0.2 0.3"), Ok(Some(Directive::Color { color })) if color == v3([0.1, 0.2, 0.3])));
    assert!(matches!(read("expose 2.5"), Ok(Some(Directive::Expose { exposure })) if exposure == s(2.5)));
    assert!(matches!(read("up 0 0 1"), Ok(Some(Directive::Up { up })) if up == v3([0.0, 0.0, 1.0])));
    assert!(matches!(read("eye 1 1 1"), Ok(Some(Directive::Eye { eye })) if eye == v3([1.0, 1.0, 1.0])));
    assert!(matches!(read("forward 0 1 0"), Ok(Some(Directive::Forward { forward })) if forward == v3([0.0, 1.0, 0.0])));
    assert!(matches!(read("fisheye"), Ok(Some(Directive::Fisheye))));
    assert!(matches!(read("panorama"), Ok(Some(Directive::Panorama))));
    assert!(matches!(read("plane 0 1 0 -2"), Ok(Some(Directive::Plane { coeffs })) if coeffs == MatVec::new(vec![s(0.0), s(1.0), s(0.0), s(-2.0)])));
    assert!(matches!(read("xyz 1 2 3"), Ok(Some(Directive::Xyz { vertex })) if vertex == v3([1.0, 2.0, 3.0])));
    assert!(matches!(read("tri 1 -2 3"), Ok(Some(Directive::Tri { indices })) if indices == [1, -2, 3]));
    assert!(matches!(read("bulb 4 5 6"), Ok(Some(Directive::Bulb { position })) if position == v3([4.0, 5.0, 6.0])));
    assert!(matches!(read("texture earth.png"), Ok(Some(Directive::Texture))));
    assert!(matches!(read("texcoord 0.5 0.25"), Ok(Some(Directive::Texcoord { texcoord })) if texcoord == MatVec::new(vec![s(0.5), s(0.25)])));
    assert!(matches!(read("shininess 0.5"), Ok(Some(Directive::Shininess { shininess })) if shininess == Some(v3([0.5, 0.5, 0.5]))));
    assert!(matches!(read("shininess 0.1 0.2 0.3"), Ok(Some(Directive::Shininess { shininess })) if shininess == Some(v3([0.1, 0.2, 0.3]))));
    assert!(matches!(read("shininess"), Ok(Some(Directive::Shininess { shininess: None }))));
    assert!(matches!(read("shininess 1 2"), Ok(Some(Directive::Shininess { shininess: None }))));
    assert!(matches!(read("transparency 0.25"), Ok(Some(Directive::Transparency { transparency })) if transparency == Some(v3([0.25, 0.25, 0.25]))));
    assert!(matches!(read("bounces 7"), Ok(Some(Directive::Bounces { bounces: 7 }))));
    assert!(matches!(read("ior 1.3"), Ok(Some(Directive::Ior { ior })) if ior == s(1.3)));
    assert!(matches!(read("roughness 0.2"), Ok(Some(Directive::Roughness { roughness })) if roughness == s(0.2)));
    assert!(matches!(read("aa 16"), Ok(Some(Directive::Aa { aa: 16 }))));
    assert!(matches!(read("dof 3 0.1"), Ok(Some(Directive::Dof { dof })) if dof == MatVec::new(vec![s(3.0), s(0.1)])));
    assert!(matches!(read("sphere 1 2 3 0.5 and more"), Ok(Some(Directive::Sphere { .. }))));
}

#[test]
fn lines_are_refused_for_their_first_fault() {
    assert!(matches!(read("cube 1 2 3"), Err(LoadError::Action)));
    assert!(matches!(read("sphere 1 2 3"), Err(LoadError::Missing)));
    assert!(matches!(read("sphere"), Err(LoadError::Missing)));
    assert!(matches!(read("sphere 1 two 3 4"), Err(LoadError::Number)));
    assert!(matches!(read("sphere 1 two 3"), Err(LoadError::Number)));
    assert!(matches!(read("sun x"), Err(LoadError::Number)));
    assert!(matches!(read("shininess 0.1 x"), Err(LoadError::Number)));
    assert!(matches!(read("bounces"), Err(LoadError::Missing)));
    assert!(matches!(read("bounces -1"), Err(LoadError::Number)));
    assert!(matches!(read("bounces 1.5"), Err(LoadError::Number)));
    assert!(matches!(read("aa many"), Err(LoadError::Number)));
    assert!(matches!(read("tri 1 2"), Err(LoadError::Missing)));
    assert!(matches!(read("tri 1 2 3 4"), Err(LoadError::Missing)));
    assert!(matches!(read("tri 1 2 3.0"), Err(LoadError::Number)));
    assert!(matches!(read("texture"), Err(LoadError::Missing)));
}

#[test]
fn a_new_render_is_empty() {
    let tracer = RayTracer::new(3, 5);
    assert_eq!((tracer.height, tracer.width), (3, 5));
    assert_eq!((tracer.camera.width, tracer.camera.height), (5, 3));
    assert_eq!(tracer.bounce_limit, 4);
    assert_eq!(tracer.anti_aliasing, 0);
    assert!(tracer.scene.shapes.is_empty());
    assert!(tracer.scene.light_sources.is_empty());
    assert_eq!(tracer.scene.gi_depth, 0);
    assert_eq!(tracer.camera.eye, v3([0.0, 0.0, 0.0]));
    assert_eq!(tracer.camera.forward, v3([0.0, 0.0, -1.0]));
    assert_eq!(tracer.camera.up, v3([0.0, 1.0, 0.0]));
    assert_eq!(tracer.camera.exposure, None);
    assert_eq!(tracer.camera.dof, None);
    assert_eq!(tracer.camera.projection, ProjectionType::FLAT);
    assert_eq!(tracer.input_state.color, v3([1.0, 1.0, 1.0]));
    assert_eq!(tracer.input_state.texture, chars("none"));
    assert!(!tracer.input_state.textured());
    assert_eq!(tracer.input_state.shininess, None);
    assert_eq!(tracer.input_state.transparency, None);
    assert_eq!(tracer.input_state.roughness, s(0.0));
    assert_eq!(tracer.input_state.index_of_refraction, s(1.458));
    assert!(tracer.input_state.verticies.is_empty());
    assert!(tracer.input_state.texcoords.is_empty());
    assert_eq!(tracer.save_image(), vec![0u8; 60]);
}

#[test]
fn the_second_word_of_a_header_is_the_width() {
    let header = parse_header(&chars("png 5 3 out.png")).unwrap();
    let mut tracer = RayTracer::from_header(&header);
    assert_eq!((tracer.width, tracer.height), (5, 3));
    assert_eq!((tracer.camera.width, tracer.camera.height), (5, 3));
    assert!(tracer.put_pixel(4, 2, (1, 2, 3, 4)));
    assert!(!tracer.put_pixel(2, 4, (1, 2, 3, 4)));
    let bytes = tracer.save_image();
    assert_eq!(bytes.len(), 60);
    assert_eq!(bytes[56..60], [1, 2, 3, 4]);
}

#[test]
fn a_line_that_asks_for_nothing_changes_nothing() {
    let mut tracer = RayTracer::new(2, 2);
    assert_eq!(apply(&mut tracer, ""), Ok(()));
    assert_eq!(apply(&mut tracer, "# color 0 0 0"), Ok(()));
    assert_eq!(apply(&mut tracer, "cube 1"), Err(LoadError::Action));
    assert_eq!(apply(&mut tracer, "color 1 2"), Err(LoadError::Missing));
    assert_eq!(apply(&mut tracer, "color 1 2 x"), Err(LoadError::Number));
    assert_eq!(tracer.input_state.color, v3([1.0, 1.0, 1.0]));
    assert!(tracer.scene.shapes.is_empty());
}

#[test]
fn a_sun_and_a_plane_take_the_unit_vector() {
    let mut tracer = RayTracer::new(2, 2);
    let length = (3.0f32 * 3.0 + 4.0 * 4.0).sqrt();
    let unit = [3.0 / length, 0.0, 4.0 / length];
    load(&mut tracer, "sun 3 0 4", unit).unwrap();
    load(&mut tracer, "plane 3 0 4 -7", unit).unwrap();
    assert!(matches!(tracer.scene.light_sources[0], LightSource::Sun(sun) if sun.direction == v3([0.6, 0.0, 0.8])));
    assert!(matches!(&tracer.scene.shapes[0], SceneObject::Plane(p) if p.normal == v3([0.6, 0.0, 0.8]) && p.D == s(-7.0)));
}

#[test]
fn a_texture_takes_the_name_on_its_line() {
    let mut tracer = RayTracer::new(2, 2);
    apply(&mut tracer, "texture\u{a0}moon.png trailing").unwrap();
    assert_eq!(tracer.input_state.texture, chars("moon.png"));
    assert_eq!(apply(&mut tracer, "texture"), Err(LoadError::Missing));
    assert_eq!(tracer.input_state.texture, chars("moon.png"));
}

#[test]
fn words_end_at_every_white_space_character() {
    for code in 0..=0x10ffffu32 {
        if let Some(c) = char::from_u32(code) {
            let words = split_whitespace(&vec!['a', c, 'b']);
            assert_eq!(words.len(), if c.is_whitespace() { 2 } else { 1 }, "U+{code:04X}");
        }
    }
    let line = "sphere\u{3000}1\u{2028}2\u{85}3\u{1680}4";
    let words: Vec<String> = split_whitespace(&chars(line)).iter().map(|w| w.iter().collect()).collect();
    assert_eq!(words, line.split_whitespace().collect::<Vec<&str>>());
}

#[test]
fn directives_build_the_scene() {
    let mut tracer = RayTracer::new(4, 4);
    apply(&mut tracer, "color 1 0 0").unwrap();
    apply(&mut tracer, "shininess 0.5").unwrap();
    apply(&mut tracer, "roughness 0.125").unwrap();
    apply(&mut tracer, "sphere 0 0 -2 1").unwrap();
    apply(&mut tracer, "color 0 1 0").unwrap();
    apply(&mut tracer, "sun 0 0 5").unwrap();
    apply(&mut tracer, "bulb 1 2 3").unwrap();
    apply(&mut tracer, "plane 0 0 3 -4").unwrap();
    assert_eq!(tracer.scene.shapes.len(), 2);
    match &tracer.scene.shapes[0] {
        SceneObject::Sphere(sphere) => {
            assert_eq!(sphere.center, v3([0.0, 0.0, -2.0]));
            assert_eq!(sphere.radius, s(1.0));
            assert_eq!(sphere.color, v3([1.0, 0.0, 0.0]));
            assert_eq!(sphere.shininess, Some(v3([0.5, 0.5, 0.5])));
            assert_eq!(sphere.roughness, s(0.125));
            assert!(sphere.texture.is_none());
        }
        _ => panic!("the first shape is the sphere"),
    }
    match &tracer.scene.shapes[1] {
        SceneObject::Plane(plane) => {
            assert_eq!(plane.normal, v3([0.0, 0.0, 1.0]));
            assert_eq!(plane.D, s(-4.0));
            assert_eq!(plane.color, v3([0.0, 1.0, 0.0]));
        }
        _ => panic!("the second shape is the plane"),
    }
    assert_eq!(tracer.scene.light_sources.len(), 2);
    assert!(matches!(tracer.scene.light_sources[0], LightSource::Sun(sun) if sun.direction == v3([0.0, 0.0, 1.0]) && sun.color == v3([0.0, 1.0, 0.0])));
    assert!(matches!(tracer.scene.light_sources[1], LightSource::Bulb(bulb) if bulb.position == v3([1.0, 2.0, 3.0])));
}

#[test]
fn directives_set_camera_and_limits() {
    let mut tracer = RayTracer::new(4, 4);
    apply(&mut tracer, "eye 1 2 3").unwrap();
    apply(&mut tracer, "forward 0 1 0").unwrap();
    apply(&mut tracer, "up 0 0 1").unwrap();
    apply(&mut tracer, "expose 2").unwrap();
    apply(&mut tracer, "dof 5 0.25").unwrap();
    apply(&mut tracer, "fisheye").unwrap();
    apply(&mut tracer, "bounces 9").unwrap();
    apply(&mut tracer, "aa 3").unwrap();
    apply(&mut tracer, "ior 1.3").unwrap();
    apply(&mut tracer, "transparency 0.1 0.2 0.3").unwrap();
    assert_eq!(tracer.camera.eye, v3([1.0, 2.0, 3.0]));
    assert_eq!(tracer.camera.forward, v3([0.0, 1.0, 0.0]));
    assert_eq!(tracer.camera.up, v3([0.0, 0.0, 1.0]));
    assert_eq!(tracer.camera.exposure, Some(s(2.0)));
    assert_eq!(tracer.camera.dof, Some(MatVec::new(vec![s(5.0), s(0.25)])));
    assert_eq!(tracer.camera.projection, ProjectionType::FISHEYE);
    assert_eq!(tracer.bounce_limit, 9);
    assert_eq!(tracer.anti_aliasing, 3);
    assert_eq!(tracer.input_state.index_of_refraction, s(1.3));
    assert_eq!(tracer.input_state.transparency, Some(v3([0.1, 0.2, 0.3])));
    apply(&mut tracer, "panorama").unwrap();
    assert_eq!(tracer.camera.projection, ProjectionType::PANORAMIC);
    assert!(tracer.scene.shapes.is_empty());
}

#[test]
fn triangles_take_vertices_read_so_far() {
    let mut tracer = RayTracer::new(4, 4);
    apply(&mut tracer, "xyz 0 0 0").unwrap();
    apply(&mut tracer, "xyz 1 0 0").unwrap();
    assert_eq!(apply(&mut tracer, "tri 1 2 3"), Err(LoadError::Index));
    assert_eq!(apply(&mut tracer, "tri 0 1 2"), Err(LoadError::Index));
    assert!(tracer.scene.shapes.is_empty());
    apply(&mut tracer, "xyz 0 1 0").unwrap();
    apply(&mut tracer, "tri 1 2 -1").unwrap();
    match &tracer.scene.shapes[0] {
        SceneObject::Triangle(triangle) => {
            assert_eq!(triangle.verticies, [v3([0.0, 0.0, 0.0]), v3([1.0, 0.0, 0.0]), v3([0.0, 1.0, 0.0])]);
            assert!(triangle.texture.is_none());
            assert!(triangle.texcoords.is_none());
        }
        _ => panic!("the shape is the triangle"),
    }
}

#[test]
fn textured_triangles_need_their_coordinates() {
    let mut tracer = RayTracer::new(4, 4);
    apply(&mut tracer, "texture wood.png").unwrap();
    assert_eq!(tracer.input_state.texture, chars("wood.png"));
    assert!(tracer.input_state.textured());
    for line in ["xyz 0 0 0", "xyz 1 0 0", "xyz 0 1 0", "texcoord 0 0", "texcoord 1 0"] {
        apply(&mut tracer, line).unwrap();
    }
    assert_eq!(apply(&mut tracer, "tri 1 2 3"), Err(LoadError::Index));
    apply(&mut tracer, "texcoord 0 1").unwrap();
    apply(&mut tracer, "tri 1 2 3").unwrap();
    match &tracer.scene.shapes[0] {
        SceneObject::Triangle(triangle) => {
            assert!(triangle.texture.is_some());
            assert_eq!(triangle.texcoords.unwrap()[2], MatVec::new(vec![s(0.0), s(1.0)]));
        }
        _ => panic!("the shape is the triangle"),
    }
    apply(&mut tracer, "texture none").unwrap();
    apply(&mut tracer, "sphere 0 0 0 1").unwrap();
    assert!(matches!(&tracer.scene.shapes[1], SceneObject::Sphere(sphere) if sphere.texture.is_none()));
}
