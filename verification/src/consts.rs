//! The full-quality settings as one table of constants.
use vstd::prelude::*;
use crate::scalar::Scalar;
use crate::vector::Vec3;

verus! {

/// The encoding of `1e-3`: how far from a surface a spawned ray starts.
pub const EPSILON: u32 = 0x3A83_126F;

/// The encoding of `1.00029`, the refractive index of air.
pub const AIR_REFRACT: u32 = 0x3F80_0981;

pub struct Consts;

impl Consts {
    pub const W: u32 = 1920;

    pub const H: u32 = 1080;

    /// The encoding of 65 degrees in radians.
    pub const CAM_FOV: u32 = 0x3F91_361E;

    pub const MAX_DEPTH: u32 = 5;

    pub const COMPARE_ALL_LIGHTS: bool = true;

    pub const NUM_AREA_LIGHT_TESTS: u32 = 4;

    pub const RAYS_PER_PIXEL: u32 = 20;

    pub const NUM_SCATTER: u32 = 5;

    /// The encoding of `1.0`.
    pub const DIFFUSE_STRENGTH: u32 = 0x3F80_0000;

    /// The eye, at `(280, 265, -500)`.
    pub fn cam_pos() -> (p: Vec3)
        ensures
            p.x.bits == 0x438C_0000u32,
            p.y.bits == 0x4384_8000u32,
            p.z.bits == 0xC3FA_0000u32,
    {
        Vec3::new(
            Scalar::from_bits(0x438C_0000),
            Scalar::from_bits(0x4384_8000),
            Scalar::from_bits(0xC3FA_0000),
        )
    }

    /// The point looked at, `(280, 260, 0)`.
    pub fn cam_lookat() -> (p: Vec3)
        ensures
            p.x.bits == 0x438C_0000u32,
            p.y.bits == 0x4382_0000u32,
            p.z.bits == 0u32,
    {
        Vec3::new(Scalar::from_bits(0x438C_0000), Scalar::from_bits(0x4382_0000), Scalar::zero())
    }
}

} // verus!
