use lightpath::color::Rgba;
use lightpath::geometry::{
    index_geometry, BuiltScene, ColorSample, GeomInfo, Geometry, Light, LightType, Material, MeshGeometry,
    SampleError, Scene, SceneError, SphereGeometry, Texture, UvSource,
};
use lightpath::raytracer::{GeometryId, Ray, RayHitResult, RayTracer, RayTracerBuilder};
use lightpath::scalar::Scalar;
use lightpath::vector::{Vec2, Vec3};

fn s(x: f32) -> Scalar {
    Scalar::from_bits(x.to_bits())
}

fn f(x: Scalar) -> f32 {
    f32::from_bits(x.to_bits())
}

struct Nothing;

impl RayTracer for Nothing {
    fn intersect(&self, _ray: Ray) -> Option<RayHitResult> {
        None
    }
}

/// Names the geometries by the entries of `ids`, in turn, and refuses the
/// one at `refuse`.
struct Listing {
    ids: Vec<u32>,
    taken: usize,
    refuse: Option<usize>,
    finish: bool,
}

impl Listing {
    fn new(ids: Vec<u32>) -> Self {
        Listing { ids, taken: 0, refuse: None, finish: true }
    }
}

impl RayTracerBuilder for Listing {
    type Tracer = Nothing;

    fn add_geometry(&mut self, _geometry: &Geometry) -> Result<GeometryId, anyhow::Error> {
        if self.refuse == Some(self.taken) {
            return Err(anyhow::Error::msg("refused"));
        }
        let id = self.ids[self.taken];
        self.taken += 1;
        Ok(GeometryId(id))
    }

    fn build(&self) -> Result<Nothing, anyhow::Error> {
        if self.finish {
            Ok(Nothing)
        } else {
            Err(anyhow::Error::msg("unfinished"))
        }
    }
}

fn tagged(tag: f32) -> Geometry {
    let mut material = Material::default();
    material.refraction = s(tag);
    let sphere = SphereGeometry { radius: s(1.0), center: Vec3::new(s(0.0), s(0.0), s(0.0)) };
    Geometry::with_material(material, GeomInfo::Sphere(sphere))
}

fn tag_of(g: &Geometry) -> f32 {
    f(g.material.refraction)
}

fn textured_quad(texture: Texture, emissive: Texture, with_uv: bool) -> Geometry {
    let mut mesh = MeshGeometry::default();
    for p in [(0.0, 0.0), (1.0, 0.0), (1.0, 1.0), (0.0, 1.0)] {
        mesh.verts.push((s(p.0), s(p.1), s(0.0)));
        if with_uv {
            mesh.tex_coords.push(Vec2::new(s(p.0), s(p.1)));
        }
    }
    mesh.indices.push((0, 1, 2));
    mesh.indices.push((0, 2, 3));
    let mut material = Material::default();
    material.texture = texture;
    material.emissive = emissive;
    Geometry::with_material(material, GeomInfo::Mesh(mesh))
}

fn built(textures: Vec<&'static str>) -> BuiltScene<Nothing, &'static str> {
    let mut scene = Scene::new("default");
    let rest: Vec<Option<&'static str>> = textures.into_iter().map(Some).collect();
    scene.add_textures_batch_from_files(rest).unwrap();
    scene.build_scene(&mut Listing::new(Vec::new())).ok().unwrap()
}

#[test]
fn new_scene_holds_the_default_texture_only() {
    let scene = Scene::new("default");
    assert!(scene.lights.is_empty());
    assert!(scene.geometry.is_empty());
    assert_eq!(scene.textures, vec!["default"]);
}

#[test]
fn geometry_and_lights_are_appended() {
    let mut scene = Scene::new(0u8);
    scene.add_geometry(tagged(1.5));
    scene.add_geometry(tagged(2.5));
    scene.add_light(Light { light_type: LightType::Ambient, color: Rgba::white() });
    scene.add_light(Light {
        light_type: LightType::Point(Vec3::new(s(1.0), s(2.0), s(3.0))),
        color: Rgba::red(),
    });
    assert_eq!(scene.geometry.iter().map(tag_of).collect::<Vec<_>>(), vec![1.5, 2.5]);
    assert_eq!(scene.lights.len(), 2);
    assert!(matches!(scene.lights[0].light_type, LightType::Ambient));
    match scene.lights[1].light_type {
        LightType::Point(p) => assert_eq!((f(p.x), f(p.y), f(p.z)), (1.0, 2.0, 3.0)),
        _ => panic!("the second light is a point light"),
    }
    assert_eq!(scene.textures, vec![0u8]);
}

#[test]
fn texture_batch_is_appended_in_order() {
    let mut scene = Scene::new("default");
    assert_eq!(scene.add_textures_batch_from_files(vec![Some("a"), Some("b")]), Ok(()));
    assert_eq!(scene.add_textures_batch_from_files(Vec::new()), Ok(()));
    assert_eq!(scene.add_textures_batch_from_files(vec![Some("c")]), Ok(()));
    assert_eq!(scene.textures, vec!["default", "a", "b", "c"]);
}

#[test]
fn texture_batch_with_a_failure_adds_nothing() {
    let mut scene = Scene::new("default");
    scene.add_textures_batch_from_files(vec![Some("a")]).unwrap();
    assert_eq!(scene.add_textures_batch_from_files(vec![Some("b"), None, Some("c"), None]), Err(1));
    assert_eq!(scene.add_textures_batch_from_files(vec![None]), Err(0));
    assert_eq!(scene.add_textures_batch_from_files(vec![Some("b"), Some("c"), None]), Err(2));
    assert_eq!(scene.textures, vec!["default", "a"]);
}

#[test]
fn build_keeps_each_geometry_under_its_identifier() {
    let mut scene = Scene::new("default");
    for tag in [1.0, 2.0, 3.0] {
        scene.add_geometry(tagged(tag));
    }
    scene.add_light(Light { light_type: LightType::Ambient, color: Rgba::white() });
    let mut builder = Listing::new(vec![7, 0, 42]);
    let built = scene.build_scene(&mut builder).ok().unwrap();
    assert_eq!(builder.taken, 3);
    assert_eq!(built.geometry.len(), 3);
    assert_eq!(built.get_geometry(GeometryId(7)).map(tag_of), Some(1.0));
    assert_eq!(built.get_geometry(GeometryId(0)).map(tag_of), Some(2.0));
    assert_eq!(built.get_geometry(GeometryId(42)).map(tag_of), Some(3.0));
    assert!(built.get_geometry(GeometryId(1)).is_none());
    assert!(built.get_geometry(GeometryId(u32::MAX)).is_none());
    assert_eq!(built.lights.len(), 1);
    assert_eq!(built.textures, vec!["default"]);
}

#[test]
fn build_lets_the_later_geometry_have_a_repeated_identifier() {
    let mut scene = Scene::new("default");
    for tag in [1.0, 2.0, 3.0] {
        scene.add_geometry(tagged(tag));
    }
    let built = scene.build_scene(&mut Listing::new(vec![5, 9, 5])).ok().unwrap();
    assert_eq!(built.geometry.len(), 2);
    assert_eq!(built.get_geometry(GeometryId(5)).map(tag_of), Some(3.0));
    assert_eq!(built.get_geometry(GeometryId(9)).map(tag_of), Some(2.0));
}

#[test]
fn index_geometry_pairs_geometry_and_identifier() {
    let geometry = vec![tagged(1.0), tagged(2.0), tagged(3.0), tagged(4.0)];
    let ids = vec![GeometryId(10), GeometryId(20), GeometryId(10), GeometryId(u32::MAX)];
    let table = index_geometry(geometry, &ids);
    assert_eq!(table.len(), 3);
    assert_eq!(table.get(&10).map(tag_of), Some(3.0));
    assert_eq!(table.get(&20).map(tag_of), Some(2.0));
    assert_eq!(table.get(&u32::MAX).map(tag_of), Some(4.0));
    assert!(index_geometry(Vec::new(), &Vec::new()).is_empty());
}

#[test]
fn build_of_an_empty_scene() {
    let built = Scene::new("default").build_scene(&mut Listing::new(Vec::new())).ok().unwrap();
    assert!(built.geometry.is_empty());
    assert!(built.get_geometry(GeometryId(0)).is_none());
}

#[test]
fn build_fails_where_the_backend_refuses_a_geometry() {
    let mut scene = Scene::new("default");
    for tag in [1.0, 2.0, 3.0] {
        scene.add_geometry(tagged(tag));
    }
    let mut builder = Listing::new(vec![0, 1, 2]);
    builder.refuse = Some(1);
    match scene.build_scene(&mut builder) {
        Err(SceneError::Geometry(at, cause)) => {
            assert_eq!(at, 1);
            assert_eq!(cause.to_string(), "refused");
        }
        _ => panic!("the second geometry was refused"),
    }
    assert_eq!(builder.taken, 1);
}

#[test]
fn build_fails_where_the_backend_cannot_finish() {
    let mut scene = Scene::new("default");
    scene.add_geometry(tagged(1.0));
    let mut builder = Listing::new(vec![0]);
    builder.finish = false;
    match scene.build_scene(&mut builder) {
        Err(SceneError::Backend(cause)) => assert_eq!(cause.to_string(), "unfinished"),
        _ => panic!("the backend did not finish"),
    }
}

#[test]
fn solid_colours_need_no_coordinate() {
    let scene = built(vec![]);
    let green = Rgba::rgb(s(0.0), s(0.5), s(0.0));
    let glow = Rgba::rgb(s(0.25), s(0.0), s(0.0));
    let quad = textured_quad(Texture::Solid(green), Texture::Solid(glow), false);
    match scene.sample_color(&quad, 99) {
        Ok(ColorSample::Solid(d, e)) => {
            assert_eq!((f(d.r), f(d.g), f(d.b), f(d.a)), (0.0, 0.5, 0.0, 1.0));
            assert_eq!((f(e.r), f(e.g), f(e.b), f(e.a)), (0.25, 0.0, 0.0, 1.0));
        }
        other => panic!("{other:?}"),
    }
}

#[test]
fn an_image_is_read_at_the_triangle_corners() {
    let scene = built(vec!["front"]);
    let quad = textured_quad(Texture::Image(1), Texture::Solid(Rgba::none()), true);
    match scene.sample_color(&quad, 1) {
        Ok(ColorSample::Textured { uv: UvSource::Corners(a, b, c), diffuse, emissive }) => {
            assert_eq!((f(a.x), f(a.y)), (0.0, 0.0));
            assert_eq!((f(b.x), f(b.y)), (1.0, 1.0));
            assert_eq!((f(c.x), f(c.y)), (0.0, 1.0));
            assert!(matches!(diffuse, Texture::Image(1)));
            assert!(matches!(emissive, Texture::Solid(_)));
        }
        other => panic!("{other:?}"),
    }
    let glowing = textured_quad(Texture::Solid(Rgba::black()), Texture::Image(0), true);
    assert!(matches!(
        scene.sample_color(&glowing, 0),
        Ok(ColorSample::Textured {
            uv: UvSource::Corners(_, _, _),
            diffuse: Texture::Solid(_),
            emissive: Texture::Image(0)
        })
    ));
}

#[test]
fn a_textured_sphere_reads_at_the_origin() {
    let scene = built(vec![]);
    let mut material = Material::default();
    material.texture = Texture::Image(0);
    let sphere = SphereGeometry { radius: s(1.0), center: Vec3::new(s(0.0), s(0.0), s(0.0)) };
    let geometry = Geometry::with_material(material, GeomInfo::Sphere(sphere));
    match scene.sample_color(&geometry, 0) {
        Ok(ColorSample::Textured { uv: UvSource::Fixed(p), .. }) => {
            assert_eq!((f(p.x), f(p.y)), (0.0, 0.0))
        }
        other => panic!("{other:?}"),
    }
}

#[test]
fn sampling_errors() {
    let scene = built(vec!["front"]);
    let image = Texture::Image(1);
    let solid = Texture::Solid(Rgba::none());
    assert!(matches!(
        scene.sample_color(&textured_quad(image, solid, true), 2),
        Err(SampleError::NoTriangle)
    ));
    assert!(matches!(
        scene.sample_color(&textured_quad(image, solid, false), 0),
        Err(SampleError::NoCoordinate)
    ));
    assert!(matches!(
        scene.sample_color(&textured_quad(Texture::Image(2), solid, true), 0),
        Err(SampleError::NoImage(2))
    ));
    assert!(matches!(
        scene.sample_color(&textured_quad(solid, Texture::Image(9), true), 0),
        Err(SampleError::NoImage(9))
    ));
    assert!(matches!(
        scene.sample_color(&textured_quad(Texture::Image(7), Texture::Image(9), true), 0),
        Err(SampleError::NoImage(7))
    ));
    assert!(matches!(
        scene.sample_color(&textured_quad(Texture::Image(7), solid, false), 5),
        Err(SampleError::NoTriangle)
    ));
}

#[test]
fn has_texture_knows_the_table() {
    let scene = built(vec!["front", "back"]);
    assert!(scene.has_texture(&Texture::Solid(Rgba::black())));
    assert!(scene.has_texture(&Texture::Image(0)));
    assert!(scene.has_texture(&Texture::Image(2)));
    assert!(!scene.has_texture(&Texture::Image(3)));
    assert!(!scene.has_texture(&Texture::Image(u32::MAX)));
}
