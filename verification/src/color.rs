//! The radiance value: four linear-light channels.
use vstd::prelude::*;
use crate::scalar::Scalar;
use crate::scalar::ONE_BITS;
use crate::scalar::ZERO_BITS;

verus! {

/// A linear-light colour with alpha. The channels are carried here, never
/// combined: sums and products of colours are numeric work.
#[derive(Clone, Copy, Debug)]
pub struct Rgba {
    pub r: Scalar,
    pub g: Scalar,
    pub b: Scalar,
    pub a: Scalar,
}

impl Rgba {
    /// The colour with the given channel encodings.
    pub open spec fn of_bits(r: u32, g: u32, b: u32, a: u32) -> Rgba {
        Rgba { r: Scalar { bits: r }, g: Scalar { bits: g }, b: Scalar { bits: b }, a: Scalar {
            bits: a,
        } }
    }

    /// Opaque black, `(0, 0, 0, 1)`: what a path contributes when it ends.
    pub open spec fn spec_black() -> Rgba {
        Rgba::of_bits(ZERO_BITS, ZERO_BITS, ZERO_BITS, ONE_BITS)
    }

    pub fn new(r: Scalar, g: Scalar, b: Scalar, a: Scalar) -> (c: Rgba)
        ensures
            c == (Rgba { r, g, b, a }),
    {
        Rgba { r, g, b, a }
    }

    /// An opaque colour: alpha is one.
    pub fn rgb(r: Scalar, g: Scalar, b: Scalar) -> (c: Rgba)
        ensures
            c == (Rgba { r, g, b, a: Scalar { bits: ONE_BITS } }),
    {
        Rgba { r, g, b, a: Scalar::one() }
    }

    /// Opaque black, `(0, 0, 0, 1)`.
    pub fn black() -> (c: Rgba)
        ensures
            c == Rgba::spec_black(),
    {
        Rgba::rgb(Scalar::zero(), Scalar::zero(), Scalar::zero())
    }

    /// Opaque white, `(1, 1, 1, 1)`.
    pub fn white() -> (c: Rgba)
        ensures
            c == Rgba::of_bits(ONE_BITS, ONE_BITS, ONE_BITS, ONE_BITS),
    {
        Rgba::rgb(Scalar::one(), Scalar::one(), Scalar::one())
    }

    /// Opaque red, `(1, 0, 0, 1)`.
    pub fn red() -> (c: Rgba)
        ensures
            c == Rgba::of_bits(ONE_BITS, ZERO_BITS, ZERO_BITS, ONE_BITS),
    {
        Rgba::rgb(Scalar::one(), Scalar::zero(), Scalar::zero())
    }

    /// No colour at all, `(0, 0, 0, 0)`: a surface that emits nothing.
    pub fn none() -> (c: Rgba)
        ensures
            c == Rgba::of_bits(ZERO_BITS, ZERO_BITS, ZERO_BITS, ZERO_BITS),
    {
        Rgba::new(Scalar::zero(), Scalar::zero(), Scalar::zero(), Scalar::zero())
    }
}

} // verus!
