use lightpath::configs::{CamConfig, RayTransportConfig, RenderConfig};
use lightpath::consts::{Consts, AIR_REFRACT, EPSILON};
use lightpath::scalar::Scalar;
use lightpath::vector::Vec3;

fn s(x: f32) -> Scalar {
    Scalar::from_bits(x.to_bits())
}

fn f(x: Scalar) -> f32 {
    f32::from_bits(x.to_bits())
}

fn v(p: Vec3) -> [f32; 3] {
    [f(p.x), f(p.y), f(p.z)]
}

fn knobs(c: &RenderConfig) -> (u32, f32, bool, u32, u32, f32) {
    (
        c.max_depth,
        f(c.over_depth_prob),
        c.compare_all_lights,
        c.num_area_light_tests,
        c.rays_per_pixel,
        f(c.diffuse_strength),
    )
}

#[test]
fn new_keeps_its_arguments() {
    let c = RenderConfig::new(7, s(0.25), true, 3, 9, s(0.75), RayTransportConfig::LoopScatter(2));
    assert_eq!(knobs(&c), (7, 0.25, true, 3, 9, 0.75));
    assert!(matches!(c.ray_transport, RayTransportConfig::LoopScatter(2)));
}

#[test]
fn fastest_preset() {
    let c = RenderConfig::fastest();
    assert_eq!(knobs(&c), (4, 0.1, false, 1, 10, 1.0));
    assert!(matches!(c.ray_transport, RayTransportConfig::MonteCarloSingle));
}

#[test]
fn balanced_preset() {
    let c = RenderConfig::balanced();
    assert_eq!(knobs(&c), (4, 0.5, false, 4, 50, 1.0));
    match c.ray_transport {
        RayTransportConfig::MonteCarloScatter(p) => assert_eq!(f(p), 0.2),
        _ => panic!("balanced scatters with a probability"),
    }
}

#[test]
fn balanced_random_transport_preset() {
    let c = RenderConfig::balanced_random_transport();
    assert_eq!(knobs(&c), (4, 0.5, false, 1, 50, 1.0));
    assert!(matches!(c.ray_transport, RayTransportConfig::MonteCarloSingle));
}

#[test]
fn slowest_rand_preset() {
    let c = RenderConfig::slowest_rand();
    assert_eq!(knobs(&c), (5, 0.8, false, 50, 100, 1.0));
    match c.ray_transport {
        RayTransportConfig::MonteCarloScatter(p) => assert_eq!(f(p), 0.5),
        _ => panic!("slowest_rand scatters with a probability"),
    }
}

#[test]
fn slowest_preset() {
    let c = RenderConfig::slowest();
    assert_eq!(knobs(&c), (5, 0.8, true, 4, 20, 1.0));
    assert!(matches!(c.ray_transport, RayTransportConfig::LoopScatter(5)));
}

#[test]
fn zero_divisors_are_refused() {
    let single = RayTransportConfig::MonteCarloSingle;
    assert!(RenderConfig::check(s(0.1), &single));
    assert!(!RenderConfig::check(s(0.0), &single));
    assert!(!RenderConfig::check(s(-0.0), &single));
    assert!(RenderConfig::check(s(0.5), &RayTransportConfig::MonteCarloScatter(s(0.2))));
    assert!(!RenderConfig::check(s(0.5), &RayTransportConfig::MonteCarloScatter(s(0.0))));
    assert!(!RenderConfig::check(s(0.5), &RayTransportConfig::MonteCarloScatter(s(-0.0))));
    assert!(RenderConfig::check(s(0.5), &RayTransportConfig::LoopScatter(0)));
}

#[test]
fn transport_usability() {
    assert!(RayTransportConfig::MonteCarloSingle.is_usable());
    assert!(RayTransportConfig::LoopScatter(0).is_usable());
    assert!(RayTransportConfig::MonteCarloScatter(s(1.0)).is_usable());
    assert!(RayTransportConfig::MonteCarloScatter(s(f32::MIN_POSITIVE)).is_usable());
    assert!(!RayTransportConfig::MonteCarloScatter(s(0.0)).is_usable());
}

#[test]
fn camera_presets() {
    let fast = CamConfig::fast();
    assert_eq!((fast.w, fast.h), (640, 640));
    assert_eq!(v(fast.pos), [280.0, 265.0, -500.0]);
    assert_eq!(v(fast.lookat), [280.0, 260.0, 0.0]);
    assert_eq!(f(fast.fov), 60.0_f32.to_radians());

    let balanced = CamConfig::balanced();
    assert_eq!((balanced.w, balanced.h), (1920, 1080));
    assert_eq!(v(balanced.pos), [280.0, 265.0, -500.0]);
    assert_eq!(v(balanced.lookat), [280.0, 260.0, 0.0]);
    assert_eq!(f(balanced.fov), 60.0_f32.to_radians());

    let slow = CamConfig::slow();
    assert_eq!((slow.w, slow.h), (1920, 1080));
    assert_eq!(v(slow.pos), [280.0, 265.0, -480.0]);
    assert_eq!(v(slow.lookat), [280.0, 260.0, 0.0]);
    assert_eq!(f(slow.fov), 65.0_f32.to_radians());
}

#[test]
fn constant_table() {
    assert_eq!(Consts::W, 1920);
    assert_eq!(Consts::H, 1080);
    assert_eq!(Consts::MAX_DEPTH, 5);
    assert!(Consts::COMPARE_ALL_LIGHTS);
    assert_eq!(Consts::NUM_AREA_LIGHT_TESTS, 4);
    assert_eq!(Consts::RAYS_PER_PIXEL, 20);
    assert_eq!(Consts::NUM_SCATTER, 5);
    assert_eq!(f32::from_bits(Consts::CAM_FOV), 65.0_f32.to_radians());
    assert_eq!(f32::from_bits(Consts::DIFFUSE_STRENGTH), 1.0);
    assert_eq!(v(Consts::cam_pos()), [280.0, 265.0, -500.0]);
    assert_eq!(v(Consts::cam_lookat()), [280.0, 260.0, 0.0]);
}

#[test]
fn epsilon_and_air() {
    assert_eq!(f32::from_bits(EPSILON), 1e-3);
    assert_eq!(f32::from_bits(AIR_REFRACT), 1.00029);
}
