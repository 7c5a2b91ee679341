//! What the engine's routines share: the media on the two sides of a
//! surface, the regimes of the Fresnel term, the side of a surface on which a
//! spawned ray starts, and the random pick among the lights.
use vstd::prelude::*;
use crate::consts::AIR_REFRACT;
use crate::geometry::Material;
use crate::scalar::Scalar;
use crate::scalar::ONE_BITS;
use crate::vector::Vec3;

verus! {

/// The encoding of `0.9`: a normal whose `x` is larger in absolute value
/// counts as too close to the X axis to build a basis on it.
pub const AXIS_LIMIT: u32 = 0x3F66_6666;

/// How the reflected fraction of light at a surface is found, between a
/// medium with index `n1`, which the ray leaves, and one with index `n2`,
/// which it enters.
#[derive(Clone, Copy, Debug, PartialEq, Eq, Structural)]
pub enum FresnelRegime {
    /// The ray does not leave the denser medium: Schlick's polynomial is
    /// taken at the cosine of the angle of incidence.
    Incident,
    /// The ray leaves the denser medium below the critical angle: the
    /// polynomial is taken at the cosine of the angle of transmission.
    Transmitted,
    /// The ray leaves the denser medium beyond the critical angle. All light
    /// is reflected: the fraction is one, whatever the material.
    TotalInternal,
}

/// The side of a surface, told by its normal.
#[derive(Clone, Copy, Debug, PartialEq, Eq, Structural)]
pub enum Side {
    /// The side that the normal points to.
    Front,
    /// The other side.
    Back,
}

/// A coordinate axis to build an orthonormal basis with.
#[derive(Clone, Copy, Debug, PartialEq, Eq, Structural)]
pub enum Axis {
    X,
    Y,
}

/// The indices `(n1, n2)` of the medium left and the medium entered, for a
/// ray that travels in a medium of index `ray_eta` and meets a surface of
/// `material`. A ray in air enters the material; any other ray is taken to
/// leave it for air, also where it is inside another volume.
pub open spec fn media_of(ray_eta: Scalar, material: Material) -> (Scalar, Scalar) {
    if ray_eta.same(Scalar { bits: AIR_REFRACT }) {
        (Scalar { bits: AIR_REFRACT }, material.refraction)
    } else {
        (material.refraction, Scalar { bits: AIR_REFRACT })
    }
}

/// The regime for indices `n1` and `n2`, where `sin_t2` is the squared sine
/// of the angle of transmission, `(n1 / n2)^2 * (1 - cos^2)`.
pub open spec fn regime_of(n1: Scalar, n2: Scalar, sin_t2: Scalar) -> FresnelRegime {
    if n2.less(n1) {
        if (Scalar { bits: ONE_BITS }).less(sin_t2) {
            FresnelRegime::TotalInternal
        } else {
            FresnelRegime::Transmitted
        }
    } else {
        FresnelRegime::Incident
    }
}

/// The side on which a ray with direction `d` leaves a surface, from
/// `d . normal`: the back where that is negative, else the front.
pub open spec fn side_of(dot: Scalar) -> Side {
    if dot.negative() {
        Side::Back
    } else {
        Side::Front
    }
}

impl FresnelRegime {
    /// The reflected fraction where the regime alone decides it.
    pub open spec fn fixed(self) -> Option<Scalar> {
        match self {
            FresnelRegime::TotalInternal => Some(Scalar { bits: ONE_BITS }),
            _ => None,
        }
    }

    /// The reflected fraction where the regime alone decides it: exactly one
    /// under total internal reflection.
    pub fn fixed_coefficient(self) -> (r: Option<Scalar>)
        ensures
            r == self.fixed(),
    {
        match self {
            FresnelRegime::TotalInternal => Some(Scalar::one()),
            _ => None,
        }
    }
}

/// The default value of `T`, as `T`'s own `Default` gives it.
pub fn default<T: Default>() -> (r: T)
    ensures
        T::default.ensures((), r),
{
    T::default()
}

/// `fastrand::choice` over the indices below `len`: none where there is no
/// index, else one of them. Which one is the generator's business.
#[verifier::external_body]
pub(crate) fn choose_index(len: usize) -> (r: Option<usize>)
    ensures
        len == 0 ==> r is None,
        len > 0 ==> r is Some && r->0 < len,
{
    fastrand::choice(0..len)
}

/// Finds the indices of the medium left and of the medium entered.
pub fn media(ray_eta: Scalar, material: &Material) -> (r: (Scalar, Scalar))
    ensures
        r == media_of(ray_eta, *material),
{
    let air = Scalar::from_bits(AIR_REFRACT);
    if ray_eta.num_eq(air) {
        (air, material.refraction)
    } else {
        (material.refraction, air)
    }
}

/// Finds the regime of the Fresnel term.
pub fn fresnel_regime(n1: Scalar, n2: Scalar, sin_t2: Scalar) -> (r: FresnelRegime)
    ensures
        r == regime_of(n1, n2, sin_t2),
{
    if n1.gt(n2) {
        if sin_t2.gt(Scalar::one()) {
            FresnelRegime::TotalInternal
        } else {
            FresnelRegime::Transmitted
        }
    } else {
        FresnelRegime::Incident
    }
}

/// Finds the regime of the Fresnel term at a hit on `material` of a ray that
/// travels in a medium of index `ray_eta`: that between the two media of the
/// hit, in the order in which the ray passes them.
pub fn hit_regime(ray_eta: Scalar, material: &Material, sin_t2: Scalar) -> (r: FresnelRegime)
    ensures
        r == regime_of(media_of(ray_eta, *material).0, media_of(ray_eta, *material).1, sin_t2),
{
    let (n1, n2) = media(ray_eta, material);
    fresnel_regime(n1, n2, sin_t2)
}

/// Finds the side on which a spawned ray starts, from the dot product of its
/// direction and the normal.
pub fn offset_side(dot: Scalar) -> (r: Side)
    ensures
        r == side_of(dot),
{
    if dot.is_negative() {
        Side::Back
    } else {
        Side::Front
    }
}

/// The normal turned to the side that a ray comes from: the normal itself
/// where `incident . normal` is negative, else its opposite.
pub fn facing_normal(incident_dot_normal: Scalar, normal: Vec3) -> (r: Vec3)
    ensures
        r == (if incident_dot_normal.negative() {
            normal
        } else {
            normal.opposite()
        }),
{
    if incident_dot_normal.is_negative() {
        normal
    } else {
        normal.neg()
    }
}

/// The axis to cross a normal with, so that the two are not parallel: Y
/// where the normal's `x` exceeds `0.9` in absolute value, else X.
pub fn reference_axis(normal: Vec3) -> (r: Axis)
    ensures
        r == (if (Scalar { bits: AXIS_LIMIT }).less(normal.x.absolute()) {
            Axis::Y
        } else {
            Axis::X
        }),
{
    if normal.x.abs().gt(Scalar::from_bits(AXIS_LIMIT)) {
        Axis::Y
    } else {
        Axis::X
    }
}

/// Beyond the critical angle the reflected fraction is one: where the ray
/// leaves the denser medium and the squared sine of the angle of
/// transmission exceeds one, the regime fixes the fraction at exactly one.
pub proof fn lemma_total_internal_reflection(n1: Scalar, n2: Scalar, sin_t2: Scalar)
    requires
        n2.less(n1),
        (Scalar { bits: ONE_BITS }).less(sin_t2),
    ensures
        regime_of(n1, n2, sin_t2) == FresnelRegime::TotalInternal,
        regime_of(n1, n2, sin_t2).fixed() == Some(Scalar { bits: ONE_BITS }),
{
}

} // verus!
