//! How a surface answers light.
use vstd::prelude::*;
use crate::color::Rgba;
use crate::geometry::Texture;
use crate::scalar::Scalar;
use crate::scalar::ONE_BITS;
use crate::scalar::ZERO_BITS;

verus! {

/// What a surface is made of. Reflectivity and transparency are
/// independent dials in `[0, 1]`; the refractive index is at least one.
#[derive(Clone, Copy, Debug)]
pub struct Material {
    /// Ambient colour (albedo).
    pub color: Rgba,
    /// Tint of reflections.
    pub specular: Rgba,
    /// Tint of refractions.
    pub transmission: Rgba,
    /// Refractive index.
    pub refraction: Scalar,
    pub reflectivity: Scalar,
    pub transparency: Scalar,
    /// Diffuse colour.
    pub texture: Texture,
    /// Emitted colour.
    pub emissive: Texture,
}

impl Material {
    /// An opaque, matt, red surface that emits nothing.
    pub open spec fn spec_default() -> Material {
        let red = Rgba::of_bits(ONE_BITS, ZERO_BITS, ZERO_BITS, ONE_BITS);
        Material {
            color: red,
            specular: red,
            transmission: red,
            refraction: Scalar { bits: ONE_BITS },
            reflectivity: Scalar { bits: ZERO_BITS },
            transparency: Scalar { bits: ZERO_BITS },
            texture: Texture::Solid(red),
            emissive: Texture::Solid(Rgba::of_bits(ZERO_BITS, ZERO_BITS, ZERO_BITS, ZERO_BITS)),
        }
    }

    /// Whether the surface lets no light through: `transparency <= 0`.
    pub open spec fn opaque(&self) -> bool {
        self.transparency.non_positive()
    }

    /// Whether the surface lets no light through.
    pub fn is_opaque(&self) -> (r: bool)
        ensures
            r == self.opaque(),
    {
        self.transparency.is_non_positive()
    }
}

impl Default for Material {
    fn default() -> (m: Material)
        ensures
            m == Material::spec_default(),
    {
        Material {
            color: Rgba::red(),
            specular: Rgba::red(),
            transmission: Rgba::red(),
            refraction: Scalar::one(),
            reflectivity: Scalar::zero(),
            transparency: Scalar::zero(),
            texture: Texture::Solid(Rgba::red()),
            emissive: Texture::Solid(Rgba::none()),
        }
    }
}

} // verus!
