//! The light-transport engine's decisions.
//!
//! At every hit the engine decides what to evaluate: which lights, whether a
//! light reaches the point, whether to reflect, refract or scatter, where the
//! spawned ray starts and in which medium it travels, and when to stop. Each
//! decision is a function here, with the rule it follows as its contract.
//! The numbers that the decisions are taken on (cosines, Fresnel terms,
//! random draws) and the sums and products of the colours are numeric work,
//! which callers do around these functions.
use vstd::prelude::*;
use crate::color::Rgba;
use crate::common::choose_index;
use crate::common::media;
use crate::common::media_of;
use crate::common::offset_side;
use crate::common::side_of;
use crate::common::Side;
use crate::configs::RayTransportConfig;
use crate::configs::RenderConfig;
use crate::consts::AIR_REFRACT;
use crate::geometry::BuiltScene;
use crate::geometry::Geometry;
use crate::geometry::Light;
use crate::geometry::Material;
use crate::raytracer::Ray;
use crate::raytracer::RayHitResult;
use crate::raytracer::RayTracer;
use crate::scalar::Scalar;
use crate::scalar::ONE_BITS;
use crate::vector::Vec3;

verus! {

/// The encoding of `1 / 3`: a draw below it selects reflection.
pub const ONE_THIRD: u32 = 0x3EAA_AAAB;

/// The encoding of `2 / 3`: a draw below it, and not below a third, selects
/// refraction.
pub const TWO_THIRDS: u32 = 0x3F2A_AAAB;

/// The number of branches that one draw chooses among, and the factor that
/// keeps the chosen branch's result unbiased.
pub const NUM_CHOICES: u32 = 3;

pub struct Renderer<T: RayTracer, I> {
    scene: BuiltScene<T, I>,
    config: RenderConfig,
}

/// What following a ray comes to.
pub enum TraceStep<'a> {
    /// The ray is deeper than the configuration allows. It was not followed,
    /// and contributes black.
    Cutoff,
    /// The ray meets nothing, and contributes black.
    Miss,
    /// The ray meets a geometry that the scene does not hold: the backend and
    /// the scene disagree.
    Unknown(RayHitResult),
    /// The ray meets this geometry of the scene.
    Surface(RayHitResult, &'a Geometry),
}

/// Which lights are evaluated at a hit.
#[derive(Clone, Copy, Debug, PartialEq, Eq, Structural)]
pub enum LightSelection {
    /// Every light, each with its full contribution.
    Every,
    /// The light at `index` alone, its contribution multiplied by `scale`,
    /// the number of lights.
    One { index: usize, scale: usize },
    /// No light: the scene has none to pick.
    Nothing,
}

/// Whether a light reaches a point.
#[derive(Clone, Copy, Debug, PartialEq, Eq, Structural)]
pub enum Illumination {
    /// The light is behind the surface: no shadow ray is cast.
    Behind,
    /// Something stands between the point and the light.
    Shadowed,
    /// The light reaches the point.
    Lit,
}

/// A point seen from a light, or from a sample of an area light: the cosine
/// between the normal and the direction to the light, and the ray from the
/// point to the light that tests for shadow.
#[derive(Clone, Copy, Debug)]
pub struct ShadowProbe {
    pub light_cos: Scalar,
    pub shadow_ray: Ray,
}

/// What a light adds to the radiance at a hit: the product
/// `light * surface * weight / share`.
#[derive(Clone, Copy, Debug)]
pub struct LightTerm {
    /// The colour of the light.
    pub light: Rgba,
    /// The colour of the surface.
    pub surface: Rgba,
    /// The cosine between the normal and the direction to the light; one for
    /// a light without direction.
    pub weight: Scalar,
    /// The number of samples that the light is averaged over.
    pub share: u32,
}

/// A ray to spawn by reflection or refraction. What it brings back counts as
/// the product `tint * radiance * strength * fraction`.
#[derive(Clone, Copy, Debug)]
pub struct Bounce {
    /// The side of the surface on which the ray starts.
    pub side: Side,
    /// The depth of the spawned ray.
    pub depth: u32,
    /// The refractive index of the medium that the spawned ray travels in.
    pub medium: Scalar,
    /// The material's tint of this kind of light.
    pub tint: Rgba,
    /// The share of the light that the material lets through: its
    /// transparency for refraction, one for reflection.
    pub strength: Scalar,
    /// The fraction of the light that takes this way: the Fresnel term for
    /// reflection, what it leaves for refraction.
    pub fraction: Scalar,
}

/// How the samples of a diffuse bounce are shared out.
#[derive(Clone, Copy, Debug)]
pub enum ScatterShare {
    /// Each of the samples is divided by their number.
    Average(u32),
    /// The one sample is divided by the probability with which it was
    /// taken.
    Chance(Scalar),
    /// The one sample counts as it is.
    Whole,
}

/// Rays to spawn by diffuse scattering. What a ray in direction `d` brings
/// back counts as the product `radiance * surface * weight * max(d . n, 0)`,
/// shared out as `share` says.
#[derive(Clone, Copy, Debug)]
pub struct Scatter {
    /// How many directions are sampled.
    pub samples: u32,
    /// The depth of the spawned rays.
    pub depth: u32,
    /// The refractive index of the medium that the spawned rays travel in.
    pub medium: Scalar,
    /// The diffuse colour of the surface.
    pub surface: Rgba,
    /// The diffuse weight: what reflection leaves, times the diffuse
    /// strength.
    pub weight: Scalar,
    pub share: ScatterShare,
}

/// The numbers of a hit that its indirect light is planned on.
#[derive(Clone, Copy, Debug)]
pub struct Incidence {
    /// The refractive index of the medium that the incoming ray travels in.
    pub ray_eta: Scalar,
    /// The fraction of light that is reflected: the Fresnel term between the
    /// two media of the hit, over the floor of the material's reflectivity.
    pub reflect: Scalar,
    /// The fraction that is not reflected.
    pub refract: Scalar,
    /// The dot product of the reflected direction and the normal.
    pub reflect_facing: Scalar,
    /// The refracted direction; the zero vector where there is none.
    pub refract_dir: Vec3,
    /// The dot product of the refracted direction and the normal that faces
    /// the incoming ray.
    pub refract_facing: Scalar,
    /// The diffuse weight: what reflection leaves, times the diffuse
    /// strength.
    pub diffuse_weight: Scalar,
    /// The diffuse colour of the surface at the hit.
    pub diff: Rgba,
}

/// The indirect light of a hit: the rays to spawn, each where its kind of
/// light is followed and finds its way, and the factor on their sum.
#[derive(Clone, Copy, Debug)]
pub struct Indirect {
    pub reflect: Option<Bounce>,
    pub refract: Option<Bounce>,
    pub scatter: Option<Scatter>,
    pub scale: u32,
}

/// Which of the three kinds of indirect light are evaluated at a hit, and the
/// factor on their sum.
#[derive(Clone, Copy, Debug, PartialEq, Eq, Structural)]
pub struct TransportPlan {
    pub reflect: bool,
    pub refract: bool,
    pub scatter: bool,
    pub scale: u32,
}

impl<'a> TraceStep<'a> {
    /// The colour of a ray that ends without meeting a surface.
    pub open spec fn ended(&self) -> Option<Rgba> {
        match self {
            TraceStep::Cutoff | TraceStep::Miss => Some(Rgba::spec_black()),
            _ => None,
        }
    }

    /// The colour of the ray where it ends without meeting a surface: black.
    pub fn radiance(&self) -> (r: Option<Rgba>)
        ensures
            r == self.ended(),
    {
        match self {
            TraceStep::Cutoff | TraceStep::Miss => Some(Rgba::black()),
            _ => None,
        }
    }
}

impl LightSelection {
    /// Whether the light at index `i`, of `count` lights, is evaluated.
    pub open spec fn covers(self, i: int, count: int) -> bool {
        match self {
            LightSelection::Every => 0 <= i < count,
            LightSelection::One { index, scale } => i == index,
            LightSelection::Nothing => false,
        }
    }

    /// Whether this is a selection that the configuration allows among
    /// `count` lights: every light where all are compared; else one of them,
    /// weighted by their number; or nothing where there is none.
    pub open spec fn chosen_from(self, compare_all: bool, count: int) -> bool {
        if compare_all {
            self == LightSelection::Every
        } else if count == 0 {
            self == LightSelection::Nothing
        } else {
            self matches LightSelection::One { index, scale } && index < count && scale == count
        }
    }

    /// The selection among `count` lights, where `pick` is the index that
    /// was drawn for the case that one light stands for all.
    pub open spec fn of(compare_all: bool, count: int, pick: Option<usize>) -> LightSelection {
        if compare_all {
            LightSelection::Every
        } else {
            match pick {
                Some(index) => LightSelection::One { index, scale: count as usize },
                None => LightSelection::Nothing,
            }
        }
    }

    /// Makes the selection among `count` lights from the index that was
    /// drawn, if one was.
    pub fn pick(compare_all: bool, count: usize, pick: Option<usize>) -> (r: LightSelection)
        ensures
            r == LightSelection::of(compare_all, count as int, pick),
    {
        if compare_all {
            LightSelection::Every
        } else {
            match pick {
                Some(index) => LightSelection::One { index, scale: count },
                None => LightSelection::Nothing,
            }
        }
    }
}

impl Illumination {
    /// Whether light from a source with this cosine reaches the point, given
    /// what the shadow ray met.
    pub open spec fn of(light_cos: Scalar, occluder: Option<RayHitResult>) -> Illumination {
        if !light_cos.positive() {
            Illumination::Behind
        } else if occluder is Some {
            Illumination::Shadowed
        } else {
            Illumination::Lit
        }
    }

    /// Decides whether light reaches the point, from the cosine and from what
    /// the shadow ray met.
    pub fn decide(light_cos: Scalar, occluder: &Option<RayHitResult>) -> (r: Illumination)
        ensures
            r == Illumination::of(light_cos, *occluder),
    {
        if !light_cos.is_positive() {
            Illumination::Behind
        } else if occluder.is_some() {
            Illumination::Shadowed
        } else {
            Illumination::Lit
        }
    }

    /// Whether the light contributes. Where it does not, its contribution is
    /// black.
    pub fn is_lit(&self) -> (r: bool)
        ensures
            r == (*self == Illumination::Lit),
    {
        match self {
            Illumination::Lit => true,
            _ => false,
        }
    }
}

impl LightTerm {
    /// What a light of colour `light` adds at a surface of colour `surface`
    /// that it is seen from under the cosine `light_cos`, as one of `share`
    /// samples: the product of the three where the light reaches the surface,
    /// and nothing, which is black, where it does not.
    pub open spec fn of(
        light: Rgba,
        surface: Rgba,
        light_cos: Scalar,
        share: u32,
        reach: Illumination,
    ) -> Option<LightTerm> {
        if reach == Illumination::Lit {
            Some(LightTerm { light, surface, weight: light_cos, share })
        } else {
            None
        }
    }

    /// What an ambient light adds: its colour times the material's own, seen
    /// from no direction and never in shadow.
    pub open spec fn ambient(light: Light, material: Material) -> LightTerm {
        LightTerm {
            light: light.color,
            surface: material.color,
            weight: Scalar { bits: ONE_BITS },
            share: 1,
        }
    }

    /// Makes the term of a light from the outcome of its shadow test.
    pub fn shade(
        light: Rgba,
        surface: Rgba,
        light_cos: Scalar,
        share: u32,
        reach: Illumination,
    ) -> (r: Option<LightTerm>)
        ensures
            r == LightTerm::of(light, surface, light_cos, share, reach),
    {
        if reach.is_lit() {
            Some(LightTerm { light, surface, weight: light_cos, share })
        } else {
            None
        }
    }
}

impl TransportPlan {
    /// How many kinds of indirect light the plan evaluates.
    pub open spec fn branches(self) -> int {
        (if self.reflect {
            1int
        } else {
            0int
        }) + (if self.refract {
            1int
        } else {
            0int
        }) + (if self.scatter {
            1int
        } else {
            0int
        })
    }

    /// The plan for one draw among three equally likely branches: below a
    /// third reflection, else below two thirds refraction, else scattering,
    /// and the branch's result is tripled.
    pub open spec fn single(draw: Scalar) -> TransportPlan {
        if draw.less(Scalar { bits: ONE_THIRD }) {
            TransportPlan { reflect: true, refract: false, scatter: false, scale: NUM_CHOICES }
        } else if draw.less(Scalar { bits: TWO_THIRDS }) {
            TransportPlan { reflect: false, refract: true, scatter: false, scale: NUM_CHOICES }
        } else {
            TransportPlan { reflect: false, refract: false, scatter: true, scale: NUM_CHOICES }
        }
    }

    /// The plan that evaluates all three kinds and adds them up.
    pub open spec fn all() -> TransportPlan {
        TransportPlan { reflect: true, refract: true, scatter: true, scale: 1 }
    }
}

impl<T: RayTracer, I> Renderer<T, I> {
    pub closed spec fn spec_scene(&self) -> &BuiltScene<T, I> {
        &self.scene
    }

    pub closed spec fn spec_config(&self) -> RenderConfig {
        self.config
    }

    /// What a ray of depth `depth` comes to, given what the backend found for
    /// it. Beyond the depth limit that is a cutoff, whatever the scene holds.
    pub open spec fn step(&self, depth: u32, found: Option<RayHitResult>) -> TraceStep<'_> {
        if depth > self.spec_config().max_depth {
            TraceStep::Cutoff
        } else {
            match found {
                None => TraceStep::Miss,
                Some(hit) => {
                    let table = self.spec_scene().geometry@;
                    if table.contains_key(hit.geometry_id.0) {
                        TraceStep::Surface(hit, &table[hit.geometry_id.0])
                    } else {
                        TraceStep::Unknown(hit)
                    }
                },
            }
        }
    }

    /// Whether `reach` is the outcome of the shadow test of `probe`: behind
    /// for a cosine that is not positive, and else what the cosine and the
    /// backend's answer to the shadow ray make it.
    pub open spec fn reaches(&self, probe: ShadowProbe, reach: Illumination) -> bool {
        if !probe.light_cos.positive() {
            reach == Illumination::Behind
        } else {
            exists|occluder: Option<RayHitResult>|
                #[trigger] call_ensures(
                    T::intersect,
                    (&self.spec_scene().raytracer, probe.shadow_ray),
                    occluder,
                ) && reach == Illumination::of(probe.light_cos, occluder)
        }
    }

    /// Whether `term` is what a light of colour `light` adds at a surface of
    /// colour `surface`, as one of `share` samples, after the shadow test of
    /// `probe`.
    pub open spec fn adds(
        &self,
        probe: ShadowProbe,
        light: Rgba,
        surface: Rgba,
        share: u32,
        term: Option<LightTerm>,
    ) -> bool {
        exists|reach: Illumination| #[trigger]
            self.reaches(probe, reach) && term == LightTerm::of(
                light,
                surface,
                probe.light_cos,
                share,
                reach,
            )
    }

    /// The reflected ray at a hit of depth `depth` on `material`, where
    /// `reflect` is the reflected fraction of light, `n1` the index of the
    /// medium that the ray travels in, and `facing` the dot product of the
    /// reflected direction and the normal. Reflection happens where the
    /// fraction and the material's reflectivity are both positive. The ray
    /// stays in its medium, and what it brings back is tinted by the
    /// material's specular colour and scaled by the fraction.
    pub open spec fn reflection(
        material: Material,
        depth: u32,
        n1: Scalar,
        reflect: Scalar,
        facing: Scalar,
    ) -> Option<Bounce> {
        if reflect.positive() && material.reflectivity.positive() {
            Some(
                Bounce {
                    side: side_of(facing),
                    depth: (depth + 1) as u32,
                    medium: n1,
                    tint: material.specular,
                    strength: Scalar { bits: ONE_BITS },
                    fraction: reflect,
                },
            )
        } else {
            None
        }
    }

    /// The refracted ray at a hit of depth `depth` on `material`, where
    /// `refract` is the fraction of light that is not reflected, `n2` the
    /// index of the medium entered, `refract_dir` the refracted direction
    /// and `facing` its dot product with the normal that faces the incoming
    /// ray. Refraction happens where the fraction and the material's
    /// transparency are both positive and the direction is not the zero
    /// vector, which stands for total internal reflection. The ray travels in
    /// the medium entered, and what it brings back is tinted by the
    /// material's transmission colour and scaled by its transparency and by
    /// the fraction.
    pub open spec fn refraction(
        material: Material,
        depth: u32,
        n2: Scalar,
        refract: Scalar,
        refract_dir: Vec3,
        facing: Scalar,
    ) -> Option<Bounce> {
        if refract.positive() && material.transparency.positive() && !refract_dir.vanishes() {
            Some(
                Bounce {
                    side: side_of(facing),
                    depth: (depth + 1) as u32,
                    medium: n2,
                    tint: material.transmission,
                    strength: material.transparency,
                    fraction: refract,
                },
            )
        } else {
            None
        }
    }

    /// The diffuse bounce of the transport that scatters a fixed number of
    /// times: at the first hit only, on an opaque material, with a positive
    /// diffuse weight, that many samples, averaged. Every other transport
    /// has none.
    pub open spec fn looped_scatter(
        &self,
        material: Material,
        depth: u32,
        n1: Scalar,
        diffuse_weight: Scalar,
        diff: Rgba,
    ) -> Option<Scatter> {
        match self.spec_config().ray_transport {
            RayTransportConfig::LoopScatter(n) => if depth == 0 && material.opaque()
                && diffuse_weight.positive() {
                Some(
                    Scatter {
                        samples: n,
                        depth: 1,
                        medium: n1,
                        surface: diff,
                        weight: diffuse_weight,
                        share: ScatterShare::Average(n),
                    },
                )
            } else {
                None
            },
            _ => None,
        }
    }

    /// The diffuse bounce of the transports that scatter once, on any
    /// material, with a positive diffuse weight. Where the transport
    /// scatters with a probability, `draw` must not exceed it, and the sample
    /// is divided by it. Where the transport chooses one branch, the sample
    /// counts as it is.
    pub open spec fn chance_scatter(
        &self,
        material: Material,
        depth: u32,
        n1: Scalar,
        diffuse_weight: Scalar,
        diff: Rgba,
        draw: Scalar,
    ) -> Option<Scatter> {
        if diffuse_weight.positive() {
            match self.spec_config().ray_transport {
                RayTransportConfig::MonteCarloScatter(p) => if draw.at_most(p) {
                    Some(
                        Scatter {
                            samples: 1,
                            depth: (depth + 1) as u32,
                            medium: n1,
                            surface: diff,
                            weight: diffuse_weight,
                            share: ScatterShare::Chance(p),
                        },
                    )
                } else {
                    None
                },
                RayTransportConfig::MonteCarloSingle => Some(
                    Scatter {
                        samples: 1,
                        depth: (depth + 1) as u32,
                        medium: n1,
                        surface: diff,
                        weight: diffuse_weight,
                        share: ScatterShare::Whole,
                    },
                ),
                RayTransportConfig::LoopScatter(_) => None,
            }
        } else {
            None
        }
    }

    /// The diffuse bounce at a hit, as the transport has it: a fixed number
    /// of times, or once.
    pub open spec fn scattering(
        &self,
        material: Material,
        depth: u32,
        n1: Scalar,
        diffuse_weight: Scalar,
        diff: Rgba,
        draw: Scalar,
    ) -> Option<Scatter> {
        match self.spec_config().ray_transport {
            RayTransportConfig::LoopScatter(_) => self.looped_scatter(
                material,
                depth,
                n1,
                diffuse_weight,
                diff,
            ),
            _ => self.chance_scatter(material, depth, n1, diffuse_weight, diff, draw),
        }
    }

    /// The indirect light of a hit of depth `depth` on `material`, for the
    /// kinds of light that `plan` follows. The media are those of the hit: a
    /// ray in air enters the material, any other ray leaves it for air. With
    /// `n1` the index of the medium left and `n2` that of the medium entered,
    /// the reflected ray and the scattered rays go on in `n1`, and the
    /// refracted ray in `n2`. `draw` decides the scatter where the transport
    /// scatters with a probability.
    pub open spec fn indirect(
        &self,
        plan: TransportPlan,
        material: Material,
        depth: u32,
        at: Incidence,
        draw: Scalar,
    ) -> Indirect {
        let (n1, n2) = media_of(at.ray_eta, material);
        Indirect {
            reflect: if plan.reflect {
                Self::reflection(material, depth, n1, at.reflect, at.reflect_facing)
            } else {
                None
            },
            refract: if plan.refract {
                Self::refraction(
                    material,
                    depth,
                    n2,
                    at.refract,
                    at.refract_dir,
                    at.refract_facing,
                )
            } else {
                None
            },
            scatter: if plan.scatter {
                self.scattering(material, depth, n1, at.diffuse_weight, at.diff, draw)
            } else {
                None
            },
            scale: plan.scale,
        }
    }

    pub fn new(scene: BuiltScene<T, I>, config: RenderConfig) -> (r: Self)
        ensures
            *r.spec_scene() == scene,
            r.spec_config() == config,
    {
        Renderer { scene, config }
    }

    /// The scene that is rendered.
    pub fn scene(&self) -> (s: &BuiltScene<T, I>)
        ensures
            s == self.spec_scene(),
    {
        &self.scene
    }

    /// The configuration that is rendered with.
    pub fn config(&self) -> (c: &RenderConfig)
        ensures
            *c == self.spec_config(),
    {
        &self.config
    }

    /// Decides what a ray of depth `depth` comes to, from what the backend
    /// found for it.
    pub fn resolve(&self, depth: u32, found: Option<RayHitResult>) -> (r: TraceStep<'_>)
        ensures
            r == self.step(depth, found),
    {
        if depth > self.config.max_depth {
            return TraceStep::Cutoff;
        }
        match found {
            None => TraceStep::Miss,
            Some(hit) => match self.scene.get_geometry(hit.geometry_id) {
                Some(geometry) => TraceStep::Surface(hit, geometry),
                None => TraceStep::Unknown(hit),
            },
        }
    }

    /// Follows a ray of depth `depth` to the surface it meets. Beyond the
    /// depth limit the ray is cut off and the backend is not asked. Else the
    /// backend is asked, and the geometry that it names is looked up in the
    /// scene.
    pub fn trace(&self, ray: Ray, depth: u32) -> (r: TraceStep<'_>)
        ensures
            depth > self.spec_config().max_depth <==> r is Cutoff,
            depth > self.spec_config().max_depth ==> r.ended() == Some(Rgba::spec_black()),
            depth <= self.spec_config().max_depth ==> exists|found: Option<RayHitResult>|
                call_ensures(T::intersect, (&self.spec_scene().raytracer, ray), found) && r
                    == self.step(depth, found),
            r matches TraceStep::Surface(hit, geometry) ==> {
                &&& self.spec_scene().geometry@.contains_key(hit.geometry_id.0)
                &&& *geometry == self.spec_scene().geometry@[hit.geometry_id.0]
            },
            r matches TraceStep::Unknown(hit) ==> !self.spec_scene().geometry@.contains_key(
                hit.geometry_id.0,
            ),
    {
        if depth > self.config.max_depth {
            return TraceStep::Cutoff;
        }
        let found = self.scene.raytracer.intersect(ray);
        self.resolve(depth, found)
    }

    /// Selects the lights to evaluate at a hit: every light, or one picked
    /// uniformly at random, whose contribution then stands for all of them.
    pub fn direct_lighting(&self) -> (r: LightSelection)
        ensures
            r.chosen_from(
                self.spec_config().compare_all_lights,
                self.spec_scene().lights@.len() as int,
            ),
    {
        if self.config.compare_all_lights {
            LightSelection::Every
        } else {
            let count = self.scene.lights.len();
            let pick = choose_index(count);
            proof {
                lemma_pick_is_chosen(false, count as int, pick);
            }
            LightSelection::pick(false, count, pick)
        }
    }

    /// Tests whether a light reaches a point. A light behind the surface
    /// does not, and no shadow ray is cast for it. Else the shadow ray is
    /// cast, and the light reaches the point where the ray meets nothing.
    pub fn shadow_test(&self, probe: &ShadowProbe) -> (r: Illumination)
        ensures
            !probe.light_cos.positive() <==> r == Illumination::Behind,
            self.reaches(*probe, r),
    {
        if !probe.light_cos.is_positive() {
            return Illumination::Behind;
        }
        let occluder = self.scene.raytracer.intersect(probe.shadow_ray);
        Illumination::decide(probe.light_cos, &occluder)
    }

    /// What an ambient light adds at a hit on `material`.
    pub fn handle_ambient_light(light: &Light, material: &Material) -> (r: LightTerm)
        ensures
            r == LightTerm::ambient(*light, *material),
    {
        LightTerm { light: light.color, surface: material.color, weight: Scalar::one(), share: 1 }
    }

    /// What a point light adds at a hit whose diffuse colour is `diffuse`:
    /// its colour times the diffuse colour times the cosine where it reaches
    /// the hit, and nothing where it is behind the surface or in shadow.
    pub fn handle_point_light(&self, light: &Light, diffuse: Rgba, probe: &ShadowProbe) -> (r:
        Option<LightTerm>)
        ensures
            !probe.light_cos.positive() ==> r is None,
            self.adds(*probe, light.color, diffuse, 1, r),
    {
        let reach = self.shadow_test(probe);
        LightTerm::shade(light.color, diffuse, probe.light_cos, 1, reach)
    }

    /// What the samples of an area light add at a hit whose diffuse colour is
    /// `diff`: each as a point light at the sample, and as its share of their
    /// number. There are as many samples as the configuration asks for.
    pub fn handle_square_light(&self, light: &Light, diff: Rgba, probes: &Vec<ShadowProbe>) -> (r:
        Vec<Option<LightTerm>>)
        requires
            probes@.len() == self.spec_config().num_area_light_tests,
        ensures
            r@.len() == probes@.len(),
            forall|i: int|
                0 <= i < probes@.len() && !probes@[i].light_cos.positive() ==> #[trigger] r@[i]
                    is None,
            forall|i: int|
                0 <= i < probes@.len() ==> self.adds(
                    probes@[i],
                    light.color,
                    diff,
                    self.spec_config().num_area_light_tests,
                    #[trigger] r@[i],
                ),
    {
        let share = self.config.num_area_light_tests;
        let mut out: Vec<Option<LightTerm>> = Vec::new();
        let mut i: usize = 0;
        while i < probes.len()
            invariant
                i <= probes@.len(),
                out@.len() == i,
                share == self.spec_config().num_area_light_tests,
                forall|k: int|
                    0 <= k < i && !probes@[k].light_cos.positive() ==> #[trigger] out@[k] is None,
                forall|k: int|
                    0 <= k < i ==> self.adds(probes@[k], light.color, diff, share, #[trigger] out@[k]),
            decreases probes@.len() - i,
        {
            let reach = self.shadow_test(&probes[i]);
            let term = LightTerm::shade(light.color, diff, probes[i].light_cos, share, reach);
            out.push(term);
            i = i + 1;
        }
        out
    }

    /// Plans the reflected ray at a hit.
    pub fn reflect(
        &self,
        material: &Material,
        depth: u32,
        n1: Scalar,
        reflect: Scalar,
        facing: Scalar,
    ) -> (r: Option<Bounce>)
        requires
            depth < u32::MAX,
        ensures
            r == Self::reflection(*material, depth, n1, reflect, facing),
    {
        if reflect.is_positive() && material.reflectivity.is_positive() {
            Some(
                Bounce {
                    side: offset_side(facing),
                    depth: depth + 1,
                    medium: n1,
                    tint: material.specular,
                    strength: Scalar::one(),
                    fraction: reflect,
                },
            )
        } else {
            None
        }
    }

    /// Plans the refracted ray at a hit.
    pub fn refract(
        &self,
        material: &Material,
        depth: u32,
        n2: Scalar,
        refract: Scalar,
        refract_dir: Vec3,
        facing: Scalar,
    ) -> (r: Option<Bounce>)
        requires
            depth < u32::MAX,
        ensures
            r == Self::refraction(*material, depth, n2, refract, refract_dir, facing),
    {
        if refract.is_positive() && material.transparency.is_positive() && !refract_dir.is_zero() {
            Some(
                Bounce {
                    side: offset_side(facing),
                    depth: depth + 1,
                    medium: n2,
                    tint: material.transmission,
                    strength: material.transparency,
                    fraction: refract,
                },
            )
        } else {
            None
        }
    }

    /// Plans the diffuse bounce of the transport that scatters a fixed number
    /// of times.
    pub fn loop_scatter(
        &self,
        material: &Material,
        depth: u32,
        n1: Scalar,
        diffuse_weight: Scalar,
        diff: Rgba,
    ) -> (r: Option<Scatter>)
        ensures
            r == self.looped_scatter(*material, depth, n1, diffuse_weight, diff),
    {
        match self.config.ray_transport {
            RayTransportConfig::LoopScatter(n) => {
                if depth == 0 && material.is_opaque() && diffuse_weight.is_positive() {
                    Some(
                        Scatter {
                            samples: n,
                            depth: 1,
                            medium: n1,
                            surface: diff,
                            weight: diffuse_weight,
                            share: ScatterShare::Average(n),
                        },
                    )
                } else {
                    None
                }
            },
            _ => None,
        }
    }

    /// Plans the diffuse bounce of the transports that scatter once, from a
    /// uniform draw in `[0, 1)`.
    pub fn scatter_rand(
        &self,
        material: &Material,
        depth: u32,
        n1: Scalar,
        diffuse_weight: Scalar,
        diff: Rgba,
        draw: Scalar,
    ) -> (r: Option<Scatter>)
        requires
            depth < u32::MAX,
        ensures
            r == self.chance_scatter(*material, depth, n1, diffuse_weight, diff, draw),
    {
        if !diffuse_weight.is_positive() {
            return None;
        }
        match self.config.ray_transport {
            RayTransportConfig::MonteCarloScatter(p) => {
                if draw.le(p) {
                    Some(
                        Scatter {
                            samples: 1,
                            depth: depth + 1,
                            medium: n1,
                            surface: diff,
                            weight: diffuse_weight,
                            share: ScatterShare::Chance(p),
                        },
                    )
                } else {
                    None
                }
            },
            RayTransportConfig::MonteCarloSingle => Some(
                Scatter {
                    samples: 1,
                    depth: depth + 1,
                    medium: n1,
                    surface: diff,
                    weight: diffuse_weight,
                    share: ScatterShare::Whole,
                },
            ),
            RayTransportConfig::LoopScatter(_) => None,
        }
    }

    /// Whether a draw decides if light scatters at a hit: the transport
    /// scatters with a probability. No other transport consumes a random
    /// number for the decision.
    pub fn scatter_draws(&self) -> (r: bool)
        ensures
            r == (self.spec_config().ray_transport is MonteCarloScatter),
    {
        match self.config.ray_transport {
            RayTransportConfig::MonteCarloScatter(_) => true,
            _ => false,
        }
    }

    /// Plans the diffuse bounce at a hit, as the transport has it: a fixed
    /// number of times, or once. `draw` is a uniform draw in `[0, 1)` where
    /// `scatter_draws` asks for one, and is not looked at elsewhere.
    pub fn scatter(
        &self,
        material: &Material,
        depth: u32,
        n1: Scalar,
        diffuse_weight: Scalar,
        diff: Rgba,
        draw: Scalar,
    ) -> (r: Option<Scatter>)
        requires
            depth < u32::MAX,
        ensures
            r == self.scattering(*material, depth, n1, diffuse_weight, diff, draw),
    {
        match self.config.ray_transport {
            RayTransportConfig::LoopScatter(_) => self.loop_scatter(
                material,
                depth,
                n1,
                diffuse_weight,
                diff,
            ),
            _ => self.scatter_rand(material, depth, n1, diffuse_weight, diff, draw),
        }
    }

    /// Whether the transport chooses one branch by a draw, rather than
    /// evaluating all three.
    pub fn random_light_transport(&self) -> (r: bool)
        ensures
            r == (self.spec_config().ray_transport is MonteCarloSingle),
    {
        match self.config.ray_transport {
            RayTransportConfig::MonteCarloSingle => true,
            _ => false,
        }
    }

    /// Selects one of the three kinds of indirect light by a uniform draw in
    /// `[0, 1)`.
    pub fn choose_branch(draw: Scalar) -> (r: TransportPlan)
        ensures
            r == TransportPlan::single(draw),
    {
        if draw.lt(Scalar::from_bits(ONE_THIRD)) {
            TransportPlan { reflect: true, refract: false, scatter: false, scale: NUM_CHOICES }
        } else if draw.lt(Scalar::from_bits(TWO_THIRDS)) {
            TransportPlan { reflect: false, refract: true, scatter: false, scale: NUM_CHOICES }
        } else {
            TransportPlan { reflect: false, refract: false, scatter: true, scale: NUM_CHOICES }
        }
    }

    /// Plans the indirect light of a hit for the kinds of light that `plan`
    /// follows: finds the media of the hit, and plans each ray in its
    /// medium.
    fn plan_indirect(
        &self,
        plan: TransportPlan,
        material: &Material,
        depth: u32,
        at: &Incidence,
        draw: Scalar,
    ) -> (r: Indirect)
        requires
            depth < u32::MAX,
        ensures
            r == self.indirect(plan, *material, depth, *at, draw),
    {
        let (n1, n2) = media(at.ray_eta, material);
        let reflect = if plan.reflect {
            self.reflect(material, depth, n1, at.reflect, at.reflect_facing)
        } else {
            None
        };
        let refract = if plan.refract {
            self.refract(material, depth, n2, at.refract, at.refract_dir, at.refract_facing)
        } else {
            None
        };
        let scatter = if plan.scatter {
            self.scatter(material, depth, n1, at.diffuse_weight, at.diff, draw)
        } else {
            None
        };
        Indirect { reflect, refract, scatter, scale: plan.scale }
    }

    /// Plans the indirect light of a hit for the transports that reflect,
    /// refract and scatter at every hit: all three, each in its medium,
    /// added up. `draw` is a uniform draw in `[0, 1)` where `scatter_draws`
    /// asks for one, and is not looked at elsewhere.
    pub fn reflect_refract_scatter(
        &self,
        material: &Material,
        depth: u32,
        at: &Incidence,
        draw: Scalar,
    ) -> (r: Indirect)
        requires
            depth < u32::MAX,
        ensures
            r == self.indirect(TransportPlan::all(), *material, depth, *at, draw),
    {
        let all = TransportPlan { reflect: true, refract: true, scatter: true, scale: 1 };
        self.plan_indirect(all, material, depth, at, draw)
    }

    /// Plans the indirect light of a hit for the transport that follows one
    /// kind of light: `branch` is a uniform draw in `[0, 1)` that selects the
    /// kind, whose result is tripled. `draw` is as for
    /// `reflect_refract_scatter`.
    pub fn random_reflect_refract_scatter(
        &self,
        material: &Material,
        depth: u32,
        at: &Incidence,
        branch: Scalar,
        draw: Scalar,
    ) -> (r: Indirect)
        requires
            depth < u32::MAX,
        ensures
            r == self.indirect(TransportPlan::single(branch), *material, depth, *at, draw),
    {
        self.plan_indirect(Self::choose_branch(branch), material, depth, at, draw)
    }
}

/// A scene without lights has no direct light: whatever the configuration,
/// no light is evaluated, and the direct term stays the black it starts
/// from.
pub proof fn lemma_no_lights_no_direct_light(selection: LightSelection, compare_all: bool, i: int)
    requires
        selection.chosen_from(compare_all, 0),
    ensures
        !selection.covers(i, 0),
{
}

/// Only lights of the scene are evaluated.
pub proof fn lemma_selection_in_range(
    selection: LightSelection,
    compare_all: bool,
    count: int,
    i: int,
)
    requires
        selection.chosen_from(compare_all, count),
        selection.covers(i, count),
    ensures
        0 <= i < count,
{
}

/// A selection made from a drawn index is one that the configuration
/// allows, given that an index was drawn exactly if there is a light, and is
/// that of a light.
pub proof fn lemma_pick_is_chosen(compare_all: bool, count: int, pick: Option<usize>)
    requires
        0 <= count <= usize::MAX,
        pick is Some <==> count > 0,
        pick is Some ==> pick->0 < count,
    ensures
        LightSelection::of(compare_all, count, pick).chosen_from(compare_all, count),
{
}

/// A point light adds its colour times the diffuse colour times the cosine
/// exactly where the cosine is positive and the shadow ray meets nothing.
/// With a cosine that is zero, negative or no number, or with any occluder,
/// it adds nothing: its contribution is black.
pub proof fn lemma_point_light(
    light: Rgba,
    diffuse: Rgba,
    light_cos: Scalar,
    occluder: Option<RayHitResult>,
)
    ensures
        Illumination::of(light_cos, occluder) == Illumination::Lit <==> light_cos.positive()
            && occluder is None,
        light_cos.positive() && occluder is None ==> LightTerm::of(
            light,
            diffuse,
            light_cos,
            1,
            Illumination::of(light_cos, occluder),
        ) == Some(LightTerm { light, surface: diffuse, weight: light_cos, share: 1 }),
        light_cos.non_positive() || occluder is Some ==> LightTerm::of(
            light,
            diffuse,
            light_cos,
            1,
            Illumination::of(light_cos, occluder),
        ) is None,
{
}

/// Beyond the depth limit a ray is cut off and contributes black, whatever
/// the scene holds and whatever the backend would find.
pub proof fn lemma_cutoff_is_black<T: RayTracer, I>(
    renderer: Renderer<T, I>,
    depth: u32,
    found: Option<RayHitResult>,
)
    requires
        depth > renderer.spec_config().max_depth,
    ensures
        renderer.step(depth, found) is Cutoff,
        renderer.step(depth, found).ended() == Some(Rgba::spec_black()),
{
}

/// Every spawned ray is one level deeper than the ray that spawned it, so a
/// path ends after as many hits as the depth limit allows.
pub proof fn lemma_spawned_rays_are_deeper<T: RayTracer, I>(
    renderer: Renderer<T, I>,
    material: Material,
    depth: u32,
    medium: Scalar,
    fraction: Scalar,
    direction: Vec3,
    facing: Scalar,
    diff: Rgba,
    draw: Scalar,
)
    requires
        depth < u32::MAX,
    ensures
        Renderer::<T, I>::reflection(material, depth, medium, fraction, facing) matches Some(b)
            ==> b.depth == depth + 1,
        Renderer::<T, I>::refraction(
            material,
            depth,
            medium,
            fraction,
            direction,
            facing,
        ) matches Some(b) ==> b.depth == depth + 1,
        renderer.looped_scatter(material, depth, medium, fraction, diff) matches Some(s)
            ==> s.depth == depth + 1,
        renderer.chance_scatter(material, depth, medium, fraction, diff, draw) matches Some(s)
            ==> s.depth == depth + 1,
{
}

/// At a hit the ray is between air and the material: a ray that travels in
/// air enters the material, and any other ray leaves it for air. The
/// reflected ray and the scattered rays go on in the medium that the ray came
/// in, the refracted ray in the medium that it enters.
pub proof fn lemma_indirect_media<T: RayTracer, I>(
    renderer: Renderer<T, I>,
    plan: TransportPlan,
    material: Material,
    depth: u32,
    at: Incidence,
    draw: Scalar,
)
    ensures
        ({
            let air = Scalar { bits: AIR_REFRACT };
            let (n1, n2) = if at.ray_eta.same(air) {
                (air, material.refraction)
            } else {
                (material.refraction, air)
            };
            let planned = renderer.indirect(plan, material, depth, at, draw);
            &&& planned.reflect matches Some(b) ==> b.medium == n1
            &&& planned.refract matches Some(b) ==> b.medium == n2
            &&& planned.scatter matches Some(s) ==> s.medium == n1
        }),
{
}

/// A hit at the depth limit is still shaded, and every ray that it spawns is
/// beyond the limit: it is cut off and brings back black, whatever the
/// backend would find for it.
pub proof fn lemma_rays_spawned_at_the_limit_are_black<T: RayTracer, I>(
    renderer: Renderer<T, I>,
    plan: TransportPlan,
    material: Material,
    at: Incidence,
    draw: Scalar,
    hit: RayHitResult,
    found: Option<RayHitResult>,
)
    requires
        renderer.spec_config().max_depth < u32::MAX,
    ensures
        ({
            let limit = renderer.spec_config().max_depth;
            let planned = renderer.indirect(plan, material, limit, at, draw);
            let black = Some(Rgba::spec_black());
            &&& !(renderer.step(limit, Some(hit)) is Cutoff)
            &&& planned.reflect matches Some(b) ==> renderer.step(b.depth, found).ended() == black
            &&& planned.refract matches Some(b) ==> renderer.step(b.depth, found).ended() == black
            &&& planned.scatter matches Some(s) ==> renderer.step(s.depth, found).ended() == black
        }),
{
}

/// One draw selects exactly one of the three branches, and triples it.
pub proof fn lemma_single_branch(draw: Scalar)
    ensures
        TransportPlan::single(draw).branches() == 1,
        TransportPlan::single(draw).scale == 3,
{
}

} // verus!
