//! The contract between the engine and what finds intersections for it.
use vstd::prelude::*;
use crate::geometry::Geometry;
use crate::scalar::Scalar;
use crate::scalar::INFINITY_BITS;
use crate::vector::Vec3;

verus! {

/// A ray: where it starts, where it points, and how far it reaches.
#[derive(Clone, Copy, Debug)]
pub struct Ray {
    pub origin: Vec3,
    pub direction: Vec3,
    pub max_distance: Scalar,
}

/// The name under which a backend knows a geometry.
#[derive(Clone, Copy, Debug, PartialEq, Eq, Structural, Hash)]
pub struct GeometryId(pub u32);

/// The nearest surface that a ray meets.
#[derive(Clone, Copy, Debug)]
pub struct RayHitResult {
    pub hit_point: Vec3,
    pub normal: Vec3,
    pub u: Scalar,
    pub v: Scalar,
    /// The identifier of the hit geometry.
    pub geometry_id: GeometryId,
    /// The index of the triangle hit in the geometry.
    pub triangle_id: u32,
}

impl Ray {
    /// A ray that reaches without bound.
    pub fn new(origin: Vec3, dir: Vec3) -> (r: Ray)
        ensures
            r == (Ray { origin, direction: dir, max_distance: Scalar { bits: INFINITY_BITS } }),
    {
        Ray::new_with_max_distance(origin, dir, Scalar::infinity())
    }

    pub fn new_with_max_distance(origin: Vec3, direction: Vec3, max_distance: Scalar) -> (r: Ray)
        ensures
            r == (Ray { origin, direction, max_distance }),
    {
        Ray { origin, direction, max_distance }
    }
}

/// What takes the scene's geometry in and builds an acceleration structure.
pub trait RayTracerBuilder {
    type Tracer: RayTracer;

    /// Takes one geometry in and names it.
    fn add_geometry(&mut self, geometry: &Geometry) -> Result<GeometryId, anyhow::Error>;

    /// Finishes the structure over what was taken in.
    fn build(&self) -> Result<Self::Tracer, anyhow::Error>;
}

/// A built acceleration structure: it finds the nearest surface that a ray
/// meets, or finds none.
pub trait RayTracer {
    fn intersect(&self, ray: Ray) -> Option<RayHitResult>;
}

} // verus!
