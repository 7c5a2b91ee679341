use lightpath::color::Rgba;
use lightpath::geometry::{
    GeomInfo, Geometry, LightQuad, Material, MeshGeometry, SphereGeometry, Texture, UvSource,
};
use lightpath::scalar::Scalar;
use lightpath::vector::{Vec2, Vec3};

fn s(x: f32) -> Scalar {
    Scalar::from_bits(x.to_bits())
}

fn f(x: Scalar) -> f32 {
    f32::from_bits(x.to_bits())
}

fn uv(p: Vec2) -> (f32, f32) {
    (f(p.x), f(p.y))
}

fn rgba(c: Rgba) -> [f32; 4] {
    [f(c.r), f(c.g), f(c.b), f(c.a)]
}

fn quad(with_uv: bool) -> MeshGeometry {
    let mut mesh = MeshGeometry::default();
    mesh.verts.push((s(0.0), s(0.0), s(0.0)));
    mesh.verts.push((s(1.0), s(0.0), s(0.0)));
    mesh.verts.push((s(1.0), s(1.0), s(0.0)));
    mesh.verts.push((s(0.0), s(1.0), s(0.0)));
    mesh.indices.push((0, 2, 1));
    mesh.indices.push((0, 3, 2));
    if with_uv {
        mesh.tex_coords.push(Vec2::new(s(1.0), s(0.0)));
        mesh.tex_coords.push(Vec2::new(s(0.0), s(0.0)));
        mesh.tex_coords.push(Vec2::new(s(0.0), s(1.0)));
        mesh.tex_coords.push(Vec2::new(s(1.0), s(1.0)));
    }
    mesh
}

#[test]
fn default_mesh_is_empty_and_well_formed() {
    let mesh = MeshGeometry::default();
    assert!(mesh.verts.is_empty() && mesh.indices.is_empty() && mesh.tex_coords.is_empty());
    assert!(mesh.is_well_formed());
    let other: MeshGeometry = lightpath::common::default();
    assert!(other.verts.is_empty());
}

#[test]
fn quads_are_well_formed() {
    assert!(quad(false).is_well_formed());
    assert!(quad(true).is_well_formed());
}

#[test]
fn triangle_beyond_the_vertices_is_ill_formed() {
    for bad in [(4, 0, 1), (0, 4, 1), (0, 1, 4), (u32::MAX, 0, 0)] {
        let mut mesh = quad(false);
        mesh.indices.push(bad);
        assert!(!mesh.is_well_formed(), "{bad:?}");
    }
}

#[test]
fn texture_coordinates_are_none_or_one_per_vertex() {
    let mut mesh = quad(true);
    mesh.tex_coords.pop();
    assert!(!mesh.is_well_formed());
    mesh.tex_coords.clear();
    assert!(mesh.is_well_formed());
    mesh.tex_coords.push(Vec2::new(s(0.0), s(0.0)));
    assert!(!mesh.is_well_formed());
}

#[test]
fn triangles_groups_by_three() {
    let flat: Vec<u32> = vec![0, 1, 2, 2, 3, 0, 7, 8, 9];
    assert_eq!(MeshGeometry::triangles(&flat), Some(vec![(0, 1, 2), (2, 3, 0), (7, 8, 9)]));
    assert_eq!(MeshGeometry::triangles(&Vec::new()), Some(Vec::new()));
}

#[test]
fn triangles_refuses_a_ragged_list() {
    assert_eq!(MeshGeometry::triangles(&vec![0]), None);
    assert_eq!(MeshGeometry::triangles(&vec![0, 1]), None);
    assert_eq!(MeshGeometry::triangles(&vec![0, 1, 2, 3]), None);
    assert_eq!(MeshGeometry::triangles(&vec![0, 1, 2, 3, 4]), None);
}

#[test]
fn compute_uv_gives_the_corners_in_index_order() {
    let mesh = quad(true);
    match mesh.compute_uv(0) {
        UvSource::Corners(a, b, c) => {
            assert_eq!((uv(a), uv(b), uv(c)), ((1.0, 0.0), (0.0, 1.0), (0.0, 0.0)));
        }
        other => panic!("{other:?}"),
    }
    match mesh.compute_uv(1) {
        UvSource::Corners(a, b, c) => {
            assert_eq!((uv(a), uv(b), uv(c)), ((1.0, 0.0), (1.0, 1.0), (0.0, 1.0)));
        }
        other => panic!("{other:?}"),
    }
}

#[test]
fn compute_uv_reports_what_is_missing() {
    assert!(matches!(quad(true).compute_uv(2), UvSource::NoTriangle));
    assert!(matches!(quad(true).compute_uv(u32::MAX), UvSource::NoTriangle));
    assert!(matches!(quad(false).compute_uv(0), UvSource::NoCoordinate));
    let mut short = quad(true);
    short.tex_coords.pop();
    assert!(matches!(short.compute_uv(0), UvSource::Corners(_, _, _)));
    assert!(matches!(short.compute_uv(1), UvSource::NoCoordinate));
}

#[test]
fn sphere_has_one_coordinate() {
    let sphere = SphereGeometry { radius: s(2.0), center: Vec3::new(s(1.0), s(2.0), s(3.0)) };
    let geometry = Geometry::with_material(Material::default(), GeomInfo::Sphere(sphere));
    assert!(!geometry.is_mesh());
    match geometry.compute_uv(17) {
        UvSource::Fixed(p) => assert_eq!(uv(p), (0.0, 0.0)),
        other => panic!("{other:?}"),
    }
}

#[test]
fn with_material_keeps_both() {
    let mut material = Material::default();
    material.reflectivity = s(0.75);
    let geometry = Geometry::with_material(material, GeomInfo::Mesh(quad(true)));
    assert!(geometry.is_mesh());
    assert_eq!(f(geometry.material.reflectivity), 0.75);
    match &geometry.info {
        GeomInfo::Mesh(mesh) => assert_eq!(mesh.indices, vec![(0, 2, 1), (0, 3, 2)]),
        GeomInfo::Sphere(_) => panic!("a mesh went in"),
    }
    assert!(matches!(geometry.compute_uv(1), UvSource::Corners(_, _, _)));
}

#[test]
fn default_material() {
    let m = Material::default();
    assert_eq!(rgba(m.color), [1.0, 0.0, 0.0, 1.0]);
    assert_eq!(rgba(m.specular), [1.0, 0.0, 0.0, 1.0]);
    assert_eq!(rgba(m.transmission), [1.0, 0.0, 0.0, 1.0]);
    assert_eq!(f(m.refraction), 1.0);
    assert_eq!(f(m.reflectivity), 0.0);
    assert_eq!(f(m.transparency), 0.0);
    match m.texture {
        Texture::Solid(c) => assert_eq!(rgba(c), [1.0, 0.0, 0.0, 1.0]),
        Texture::Image(_) => panic!("the default diffuse texture is solid"),
    }
    match m.emissive {
        Texture::Solid(c) => assert_eq!(rgba(c), [0.0, 0.0, 0.0, 0.0]),
        Texture::Image(_) => panic!("the default emissive texture is solid"),
    }
    assert!(m.is_opaque());
}

#[test]
fn opacity_follows_transparency() {
    let mut m = Material::default();
    for (t, opaque) in [(0.0, true), (-0.0, true), (-1.0, true), (1e-9, false), (1.0, false)] {
        m.transparency = s(t);
        assert_eq!(m.is_opaque(), opaque, "{t}");
    }
    m.transparency = s(f32::NAN);
    assert!(!m.is_opaque());
}

#[test]
fn light_quad_with_normal() {
    let q = LightQuad::with_normal(
        Vec3::new(s(1.0), s(2.0), s(3.0)),
        Vec3::new(s(4.0), s(0.0), s(0.0)),
        Vec3::new(s(0.0), s(0.0), s(5.0)),
        Vec3::new(s(0.0), s(-1.0), s(0.0)),
    );
    assert_eq!((f(q.bottom_left.x), f(q.bottom_left.y), f(q.bottom_left.z)), (1.0, 2.0, 3.0));
    assert_eq!((f(q.u_vec.x), f(q.v_vec.z)), (4.0, 5.0));
    assert_eq!((f(q.normal.x), f(q.normal.y), f(q.normal.z)), (0.0, -1.0, 0.0));
}

#[test]
fn vectors() {
    let v = Vec3::new(s(1.0), s(-2.0), s(0.0));
    let n = v.neg();
    assert_eq!((n.x.to_bits(), n.y.to_bits(), n.z.to_bits()), ((-1.0f32).to_bits(), 2.0f32.to_bits(), (-0.0f32).to_bits()));
    assert!(!v.is_zero());
    assert!(Vec3::new(s(0.0), s(-0.0), s(0.0)).is_zero());
    assert!(!Vec3::new(s(0.0), s(0.0), s(f32::NAN)).is_zero());
    assert!(!Vec3::new(s(0.0), s(f32::from_bits(1)), s(0.0)).is_zero());
}

#[test]
fn shapes_are_well_formed_when_their_mesh_is() {
    let sphere = SphereGeometry { radius: s(2.0), center: Vec3::new(s(1.0), s(2.0), s(3.0)) };
    assert!(Geometry::with_material(Material::default(), GeomInfo::Sphere(sphere)).is_well_formed());
    assert!(Geometry::with_material(Material::default(), GeomInfo::Mesh(quad(true))).is_well_formed());
    let mut broken = quad(true);
    broken.indices.push((0, 1, 9));
    assert!(!Geometry::with_material(Material::default(), GeomInfo::Mesh(broken)).is_well_formed());
}
