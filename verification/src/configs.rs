//! The knobs of a render and of its camera, and named presets of both.
use vstd::prelude::*;
use crate::scalar::Scalar;
use crate::vector::Vec3;

verus! {

/// How light that is not direct light is followed at a hit.
#[derive(Clone, Copy, Debug)]
pub enum RayTransportConfig {
    /// The ray reflects, refracts or scatters: exactly one of the three.
    MonteCarloSingle,
    /// The ray reflects and refracts, and scatters with this probability,
    /// which lies in `(0, 1]`.
    MonteCarloScatter(Scalar),
    /// The ray reflects and refracts, and at the first hit scatters this many
    /// times.
    LoopScatter(u32),
}

#[derive(Clone, Copy, Debug)]
pub struct RenderConfig {
    /// The depth beyond which no ray is followed.
    pub max_depth: u32,
    /// The inverse of the probability of still going deeper at the depth
    /// limit. It divides, so it is never zero.
    pub over_depth_prob: Scalar,
    /// Whether every light is evaluated at a hit, or one light picked at
    /// random and reweighted.
    pub compare_all_lights: bool,
    pub num_area_light_tests: u32,
    pub rays_per_pixel: u32,
    pub diffuse_strength: Scalar,
    pub ray_transport: RayTransportConfig,
}

#[derive(Clone, Copy, Debug)]
pub struct CamConfig {
    pub w: u32,
    pub h: u32,
    pub pos: Vec3,
    pub lookat: Vec3,
    /// Vertical field of view, in radians.
    pub fov: Scalar,
}

impl RayTransportConfig {
    /// A scatter probability divides what it lets through, so zero cannot be
    /// one.
    pub open spec fn usable(self) -> bool {
        match self {
            RayTransportConfig::MonteCarloScatter(p) => p.magnitude() != 0,
            _ => true,
        }
    }

    /// Whether the transport can be rendered with.
    pub fn is_usable(&self) -> (r: bool)
        ensures
            r == self.usable(),
    {
        match self {
            RayTransportConfig::MonteCarloScatter(p) => !p.is_zero(),
            _ => true,
        }
    }
}

impl RenderConfig {
    /// What `new` asks of its arguments: no divisor is zero.
    pub open spec fn accepts(over_depth_prob: Scalar, ray_transport: RayTransportConfig) -> bool {
        over_depth_prob.magnitude() != 0 && ray_transport.usable()
    }

    /// Whether the configuration is one that `new` makes.
    pub open spec fn valid(&self) -> bool {
        RenderConfig::accepts(self.over_depth_prob, self.ray_transport)
    }

    /// Whether `new` takes these two arguments.
    pub fn check(over_depth_prob: Scalar, ray_transport: &RayTransportConfig) -> (r: bool)
        ensures
            r == RenderConfig::accepts(over_depth_prob, *ray_transport),
    {
        !over_depth_prob.is_zero() && ray_transport.is_usable()
    }

    pub fn new(
        max_depth: u32,
        over_depth_prob: Scalar,
        compare_all_lights: bool,
        num_area_light_tests: u32,
        rays_per_pixel: u32,
        diffuse_strength: Scalar,
        ray_transport: RayTransportConfig,
    ) -> (c: RenderConfig)
        requires
            RenderConfig::accepts(over_depth_prob, ray_transport),
        ensures
            c == (RenderConfig {
                max_depth,
                over_depth_prob,
                compare_all_lights,
                num_area_light_tests,
                rays_per_pixel,
                diffuse_strength,
                ray_transport,
            }),
            c.valid(),
    {
        RenderConfig {
            max_depth,
            over_depth_prob,
            compare_all_lights,
            num_area_light_tests,
            rays_per_pixel,
            diffuse_strength,
            ray_transport,
        }
    }

    /// Depth 4, one light and one area sample per hit, 10 rays per pixel, one
    /// branch per bounce.
    pub fn fastest() -> (c: RenderConfig)
        ensures
            c.valid(),
            c.max_depth == 4,
            c.over_depth_prob.bits == 0x3DCC_CCCDu32,
            !c.compare_all_lights,
            c.num_area_light_tests == 1,
            c.rays_per_pixel == 10,
            c.diffuse_strength.bits == 0x3F80_0000u32,
            c.ray_transport is MonteCarloSingle,
    {
        RenderConfig::new(
            4,
            Scalar::from_bits(0x3DCC_CCCD),
            false,
            1,
            10,
            Scalar::one(),
            RayTransportConfig::MonteCarloSingle,
        )
    }

    /// Depth 4, one light and four area samples per hit, 50 rays per pixel,
    /// scatter with probability 0.2.
    pub fn balanced() -> (c: RenderConfig)
        ensures
            c.valid(),
            c.max_depth == 4,
            c.over_depth_prob.bits == 0x3F00_0000u32,
            !c.compare_all_lights,
            c.num_area_light_tests == 4,
            c.rays_per_pixel == 50,
            c.diffuse_strength.bits == 0x3F80_0000u32,
            c.ray_transport == RayTransportConfig::MonteCarloScatter(Scalar { bits: 0x3E4C_CCCD }),
    {
        RenderConfig::new(
            4,
            Scalar::from_bits(0x3F00_0000),
            false,
            4,
            50,
            Scalar::one(),
            RayTransportConfig::MonteCarloScatter(Scalar::from_bits(0x3E4C_CCCD)),
        )
    }

    /// As `balanced`, with one area sample per hit and one branch per
    /// bounce.
    pub fn balanced_random_transport() -> (c: RenderConfig)
        ensures
            c.valid(),
            c.max_depth == 4,
            c.over_depth_prob.bits == 0x3F00_0000u32,
            !c.compare_all_lights,
            c.num_area_light_tests == 1,
            c.rays_per_pixel == 50,
            c.diffuse_strength.bits == 0x3F80_0000u32,
            c.ray_transport is MonteCarloSingle,
    {
        RenderConfig::new(
            4,
            Scalar::from_bits(0x3F00_0000),
            false,
            1,
            50,
            Scalar::one(),
            RayTransportConfig::MonteCarloSingle,
        )
    }

    /// Depth 5, one light and 50 area samples per hit, 100 rays per pixel,
    /// scatter with probability 0.5. Everything is sampled, so the counts are
    /// high.
    pub fn slowest_rand() -> (c: RenderConfig)
        ensures
            c.valid(),
            c.max_depth == 5,
            c.over_depth_prob.bits == 0x3F4C_CCCDu32,
            !c.compare_all_lights,
            c.num_area_light_tests == 50,
            c.rays_per_pixel == 100,
            c.diffuse_strength.bits == 0x3F80_0000u32,
            c.ray_transport == RayTransportConfig::MonteCarloScatter(Scalar { bits: 0x3F00_0000 }),
    {
        RenderConfig::new(
            5,
            Scalar::from_bits(0x3F4C_CCCD),
            false,
            50,
            100,
            Scalar::one(),
            RayTransportConfig::MonteCarloScatter(Scalar::from_bits(0x3F00_0000)),
        )
    }

    /// Depth 5, every light and four area samples per hit, 20 rays per pixel,
    /// five scatters at the first hit. Little is left to chance.
    pub fn slowest() -> (c: RenderConfig)
        ensures
            c.valid(),
            c.max_depth == 5,
            c.over_depth_prob.bits == 0x3F4C_CCCDu32,
            c.compare_all_lights,
            c.num_area_light_tests == 4,
            c.rays_per_pixel == 20,
            c.diffuse_strength.bits == 0x3F80_0000u32,
            c.ray_transport == RayTransportConfig::LoopScatter(5),
    {
        RenderConfig::new(
            5,
            Scalar::from_bits(0x3F4C_CCCD),
            true,
            4,
            20,
            Scalar::one(),
            RayTransportConfig::LoopScatter(5),
        )
    }
}

impl CamConfig {
    /// The camera of every preset but for size, distance and angle: it looks
    /// from `(280, 265, z)` at `(280, 260, 0)`.
    pub open spec fn framed(w: u32, h: u32, z: u32, fov: u32) -> CamConfig {
        CamConfig {
            w,
            h,
            pos: Vec3 {
                x: Scalar { bits: 0x438C_0000 },
                y: Scalar { bits: 0x4384_8000 },
                z: Scalar { bits: z },
            },
            lookat: Vec3 {
                x: Scalar { bits: 0x438C_0000 },
                y: Scalar { bits: 0x4382_0000 },
                z: Scalar { bits: 0 },
            },
            fov: Scalar { bits: fov },
        }
    }

    fn frame(w: u32, h: u32, z: u32, fov: u32) -> (c: CamConfig)
        ensures
            c == CamConfig::framed(w, h, z, fov),
    {
        CamConfig {
            w,
            h,
            pos: Vec3::new(
                Scalar::from_bits(0x438C_0000),
                Scalar::from_bits(0x4384_8000),
                Scalar::from_bits(z),
            ),
            lookat: Vec3::new(
                Scalar::from_bits(0x438C_0000),
                Scalar::from_bits(0x4382_0000),
                Scalar::zero(),
            ),
            fov: Scalar::from_bits(fov),
        }
    }

    /// 640 by 640 pixels, from 500 in front, 60 degrees.
    pub fn fast() -> (c: CamConfig)
        ensures
            c == CamConfig::framed(640, 640, 0xC3FA_0000, 0x3F86_0A92),
    {
        CamConfig::frame(640, 640, 0xC3FA_0000, 0x3F86_0A92)
    }

    /// 1920 by 1080 pixels, from 500 in front, 60 degrees.
    pub fn balanced() -> (c: CamConfig)
        ensures
            c == CamConfig::framed(1920, 1080, 0xC3FA_0000, 0x3F86_0A92),
    {
        CamConfig::frame(1920, 1080, 0xC3FA_0000, 0x3F86_0A92)
    }

    /// 1920 by 1080 pixels, from 480 in front, 65 degrees.
    pub fn slow() -> (c: CamConfig)
        ensures
            c == CamConfig::framed(1920, 1080, 0xC3F0_0000, 0x3F91_361E),
    {
        CamConfig::frame(1920, 1080, 0xC3F0_0000, 0x3F91_361E)
    }
}

} // verus!
