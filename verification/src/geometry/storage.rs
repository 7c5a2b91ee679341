//! The scene while it is put together, and the scene as the engine reads it.
use vstd::prelude::*;
use crate::color::Rgba;
use crate::geometry::lemma_well_formed_mesh_has_corners;
use crate::geometry::GeomInfo;
use crate::geometry::Geometry;
use crate::geometry::Light;
use crate::geometry::Texture;
use crate::geometry::UvSource;
use crate::raytracer::GeometryId;
use crate::raytracer::RayTracer;
use crate::raytracer::RayTracerBuilder;
use fxhash::FxHashMap;

verus! {

/// The hasher of `fxhash`; the table of geometries is keyed through it.
#[verifier::external_type_specification]
#[verifier::external_body]
pub struct ExFxHasher(fxhash::FxHasher);

/// The hasher factory that builds a hasher by its `Default`.
#[verifier::external_type_specification]
#[verifier::external_body]
#[verifier::reject_recursive_types(H)]
pub struct ExBuildHasherDefault<H>(core::hash::BuildHasherDefault<H>);

/// What a backend reports when it cannot take a geometry or cannot finish.
#[verifier::external_type_specification]
#[verifier::external_body]
pub struct ExBackendFailure(anyhow::Error);

/// `HashMap::insert` on the geometry table: afterwards `id` maps to `geometry`
/// and every other key maps to what it did. The table hashes `u32` keys with
/// `fxhash`, which gives equal keys equal hashes.
#[verifier::external_body]
fn table_insert(table: &mut FxHashMap<u32, Geometry>, id: u32, geometry: Geometry)
    ensures
        final(table)@ == old(table)@.insert(id, geometry),
{
    table.insert(id, geometry);
}

/// `HashMap::get` on the geometry table: the geometry that `id` maps to, if
/// it maps to one.
#[verifier::external_body]
fn table_get(table: &FxHashMap<u32, Geometry>, id: u32) -> (r: Option<&Geometry>)
    ensures
        r == (if table@.contains_key(id) {
            Some(&table@[id])
        } else {
            None
        }),
{
    table.get(&id)
}

/// A scene under construction. `I` is the type of the images that the texture
/// table holds.
pub struct Scene<I> {
    pub lights: Vec<Light>,
    pub geometry: Vec<Geometry>,
    pub textures: Vec<I>,
}

/// Why a scene could not be built.
#[derive(Debug)]
pub enum SceneError {
    /// The backend refused the geometry at this position of the scene's list.
    Geometry(usize, anyhow::Error),
    /// The backend took every geometry and then failed to finish.
    Backend(anyhow::Error),
}

/// A scene that is ready to render: read-only from here on.
pub struct BuiltScene<T: RayTracer, I> {
    pub lights: Vec<Light>,
    pub geometry: FxHashMap<u32, Geometry>,
    pub textures: Vec<I>,
    pub raytracer: T,
}

/// Why a surface's colours cannot be read.
#[derive(Clone, Copy, Debug)]
pub enum SampleError {
    /// The mesh has no triangle of that index.
    NoTriangle,
    /// The triangle names a vertex without a texture coordinate.
    NoCoordinate,
    /// The material names an image that the texture table does not hold.
    NoImage(u32),
}

/// How the diffuse and the emissive colour at a point of a surface are found.
#[derive(Clone, Copy, Debug)]
pub enum ColorSample {
    /// Both are solid colours: diffuse, then emissive.
    Solid(Rgba, Rgba),
    /// At least one is read from an image at the texture coordinate that
    /// `uv` yields. Every image that `diffuse` or `emissive` names is in the
    /// texture table, and `uv` is `Corners` or `Fixed`.
    Textured { uv: UvSource, diffuse: Texture, emissive: Texture },
}

/// The images of `loaded`, in order, where every entry holds one.
pub open spec fn all_loaded<I>(loaded: Seq<Option<I>>) -> Seq<I> {
    Seq::new(loaded.len(), |i: int| loaded[i]->0)
}

/// The table that holds each geometry under the identifier given for it:
/// `geometry[i]` under `ids[i]`. Where an identifier occurs twice, the later
/// geometry has it.
pub open spec fn assemble(geometry: Seq<Geometry>, ids: Seq<GeometryId>) -> Map<u32, Geometry>
    decreases geometry.len(),
{
    if geometry.len() == 0 || ids.len() != geometry.len() {
        Map::empty()
    } else {
        assemble(geometry.drop_last(), ids.drop_last()).insert(ids.last().0, geometry.last())
    }
}

/// Whether `answer` is what a backend of type `B`, in some state of it, gave
/// when it was handed `geometry`.
pub open spec fn answered<B: RayTracerBuilder>(
    geometry: Geometry,
    answer: Result<GeometryId, anyhow::Error>,
) -> bool {
    exists|backend: &mut B| #[trigger] call_ensures(B::add_geometry, (backend, &geometry), answer)
}

/// Whether `answer` is what a backend of type `B`, in some state of it, gave
/// when it was asked to finish.
pub open spec fn finished<B: RayTracerBuilder>(answer: Result<B::Tracer, anyhow::Error>) -> bool {
    exists|backend: &B| #[trigger] call_ensures(B::build, (backend,), answer)
}

/// Whether the backend took each of `geometry` and named it as `ids` has it:
/// `ids[i]` is its answer for `geometry[i]`.
pub open spec fn named_by<B: RayTracerBuilder>(
    geometry: Seq<Geometry>,
    ids: Seq<GeometryId>,
) -> bool {
    &&& ids.len() == geometry.len()
    &&& forall|i: int|
        0 <= i < geometry.len() ==> answered::<B>(geometry[i], Ok(#[trigger] ids[i]))
}

/// Whether the backend took each of `geometry`.
pub open spec fn taken<B: RayTracerBuilder>(geometry: Seq<Geometry>) -> bool {
    exists|ids: Seq<GeometryId>| named_by::<B>(geometry, ids)
}

/// Hands one geometry to the backend.
fn offer<B: RayTracerBuilder>(backend: &mut B, geometry: &Geometry) -> (r: Result<
    GeometryId,
    anyhow::Error,
>)
    ensures
        answered::<B>(*geometry, r),
{
    backend.add_geometry(geometry)
}

/// Lets the backend finish.
fn finish<B: RayTracerBuilder>(backend: &B) -> (r: Result<B::Tracer, anyhow::Error>)
    ensures
        finished::<B>(r),
{
    backend.build()
}

/// Builds the table that holds `geometry[i]` under `ids[i]`.
pub fn index_geometry(geometry: Vec<Geometry>, ids: &Vec<GeometryId>) -> (table: FxHashMap<
    u32,
    Geometry,
>)
    requires
        ids@.len() == geometry@.len(),
    ensures
        table@ == assemble(geometry@, ids@),
{
    let mut table: FxHashMap<u32, Geometry> = FxHashMap::default();
    let count: usize = ids.len();
    let mut at: usize = 0;
    for item in it: geometry
        invariant
            it.seq() == geometry@,
            ids@.len() == geometry@.len(),
            at == it.index(),
            at <= count == ids@.len(),
            table@ == assemble(geometry@.take(it.index()), ids@.take(it.index())),
    {
        let ghost n = it.index();
        let id = ids[at];
        table_insert(&mut table, id.0, item);
        at = at + 1;
        proof {
            assert(geometry@.take(n + 1).drop_last() =~= geometry@.take(n));
            assert(ids@.take(n + 1).drop_last() =~= ids@.take(n));
        }
    }
    proof {
        assert(geometry@.take(geometry@.len() as int) =~= geometry@);
        assert(ids@.take(ids@.len() as int) =~= ids@);
    }
    table
}

impl<I> Scene<I> {
    /// A scene without lights or geometry, whose texture table holds the
    /// default texture at index zero.
    pub fn new(default_texture: I) -> (s: Scene<I>)
        ensures
            s.lights@.len() == 0,
            s.geometry@.len() == 0,
            s.textures@ == seq![default_texture],
    {
        let mut textures: Vec<I> = Vec::new();
        textures.push(default_texture);
        Scene { lights: Vec::new(), geometry: Vec::new(), textures }
    }

    pub fn add_geometry(&mut self, geom: Geometry)
        ensures
            final(self).geometry@ == old(self).geometry@.push(geom),
            final(self).lights == old(self).lights,
            final(self).textures == old(self).textures,
    {
        self.geometry.push(geom);
    }

    pub fn add_light(&mut self, light: Light)
        ensures
            final(self).lights@ == old(self).lights@.push(light),
            final(self).geometry == old(self).geometry,
            final(self).textures == old(self).textures,
    {
        self.lights.push(light);
    }

    /// Appends the images of a batch of files to the texture table, provided
    /// that every file gave one: `loaded` holds, file by file, the image that
    /// was decoded, or `None`. With a `None` among them nothing is appended,
    /// and the error is the position of the first. Images that the table held
    /// keep their indices either way.
    pub fn add_textures_batch_from_files(&mut self, loaded: Vec<Option<I>>) -> (r: Result<
        (),
        usize,
    >)
        ensures
            r is Ok <==> forall|i: int| 0 <= i < loaded@.len() ==> loaded@[i] is Some,
            r is Ok ==> final(self).textures@ == old(self).textures@ + all_loaded(loaded@),
            r is Err ==> final(self).textures@ == old(self).textures@,
            old(self).textures@.is_prefix_of(final(self).textures@),
            r is Err ==> {
                &&& r->Err_0 < loaded@.len()
                &&& loaded@[r->Err_0 as int] is None
                &&& forall|i: int| 0 <= i < r->Err_0 ==> loaded@[i] is Some
            },
            final(self).lights == old(self).lights,
            final(self).geometry == old(self).geometry,
    {
        let mut i: usize = 0;
        while i < loaded.len()
            invariant
                i <= loaded@.len(),
                forall|k: int| 0 <= k < i ==> loaded@[k] is Some,
            decreases loaded@.len() - i,
        {
            if loaded[i].is_none() {
                return Err(i);
            }
            i = i + 1;
        }
        let ghost before = self.textures@;
        for entry in it: loaded
            invariant
                it.seq() == loaded@,
                forall|k: int| 0 <= k < loaded@.len() ==> loaded@[k] is Some,
                self.textures@ == before + all_loaded(loaded@.take(it.index())),
                self.lights == old(self).lights,
                self.geometry == old(self).geometry,
        {
            match entry {
                Some(image) => {
                    self.textures.push(image);
                },
                None => {},
            }
            assert(self.textures@ =~= before + all_loaded(loaded@.take(it.index() + 1)));
        }
        assert(loaded@.take(loaded@.len() as int) =~= loaded@);
        Ok(())
    }

    /// Hands every geometry to the backend, in the scene's order, keeps each
    /// under the identifier that the backend gave for it, and lets the
    /// backend finish. The first refusal of the backend ends the build: of a
    /// geometry, with its position in the scene's list, or of finishing.
    pub fn build_scene<B: RayTracerBuilder>(self, raytracer_builder: &mut B) -> (r: Result<
        BuiltScene<B::Tracer, I>,
        SceneError,
    >)
        ensures
            r matches Ok(built) ==> {
                &&& built.lights == self.lights
                &&& built.textures == self.textures
                &&& finished::<B>(Ok(built.raytracer))
                &&& exists|ids: Seq<GeometryId>|
                    named_by::<B>(self.geometry@, ids) && built.geometry@ == #[trigger] assemble(
                        self.geometry@,
                        ids,
                    )
            },
            r matches Err(SceneError::Geometry(at, cause)) ==> {
                &&& at < self.geometry@.len()
                &&& answered::<B>(self.geometry@[at as int], Err(cause))
                &&& taken::<B>(self.geometry@.take(at as int))
            },
            r matches Err(SceneError::Backend(cause)) ==> {
                &&& finished::<B>(Err(cause))
                &&& taken::<B>(self.geometry@)
            },
    {
        let mut ids: Vec<GeometryId> = Vec::new();
        let mut i: usize = 0;
        while i < self.geometry.len()
            invariant
                i <= self.geometry@.len(),
                named_by::<B>(self.geometry@.take(i as int), ids@),
            decreases self.geometry@.len() - i,
        {
            let answer = offer(raytracer_builder, &self.geometry[i]);
            match answer {
                Ok(id) => {
                    ids.push(id);
                    assert(self.geometry@.take(i + 1).drop_last() =~= self.geometry@.take(
                        i as int,
                    ));
                },
                Err(e) => {
                    assert(answered::<B>(self.geometry@[i as int], Err(e)));
                    assert(taken::<B>(self.geometry@.take(i as int))) by {
                        assert(named_by::<B>(self.geometry@.take(i as int), ids@));
                    }
                    return Err(SceneError::Geometry(i, e));
                },
            }
            i = i + 1;
        }
        assert(self.geometry@.take(i as int) =~= self.geometry@);
        let Scene { lights, geometry, textures } = self;
        let table = index_geometry(geometry, &ids);
        assert(taken::<B>(geometry@)) by {
            assert(named_by::<B>(geometry@, ids@));
        }
        match finish(raytracer_builder) {
            Ok(raytracer) => Ok(BuiltScene { lights, geometry: table, textures, raytracer }),
            Err(e) => Err(SceneError::Backend(e)),
        }
    }
}

impl<T: RayTracer, I> BuiltScene<T, I> {
    /// Whether the texture table holds what `texture` needs: a solid colour
    /// needs nothing, an image must be in the table.
    pub open spec fn holds(&self, texture: Texture) -> bool {
        match texture {
            Texture::Solid(_) => true,
            Texture::Image(id) => id < self.textures@.len(),
        }
    }

    /// The image that `texture` names and the texture table lacks, if any.
    pub open spec fn missing(&self, texture: Texture) -> Option<u32> {
        match texture {
            Texture::Solid(_) => None,
            Texture::Image(id) => if id < self.textures@.len() {
                None
            } else {
                Some(id)
            },
        }
    }

    /// How the diffuse and the emissive colour of `geom` at a point of
    /// primitive `prim_id` are found. With two solid colours no texture
    /// coordinate is looked up. Otherwise the coordinate's source is looked up
    /// first, then the diffuse texture, then the emissive one, and the first
    /// that is missing is the error.
    pub open spec fn color_sample(&self, geom: &Geometry, prim_id: u32) -> Result<
        ColorSample,
        SampleError,
    > {
        let material = geom.material;
        if let (Texture::Solid(diffuse), Texture::Solid(emissive)) = (
            material.texture,
            material.emissive,
        ) {
            Ok(ColorSample::Solid(diffuse, emissive))
        } else {
            match geom.uv_source(prim_id) {
                UvSource::NoTriangle => Err(SampleError::NoTriangle),
                UvSource::NoCoordinate => Err(SampleError::NoCoordinate),
                uv => match (self.missing(material.texture), self.missing(material.emissive)) {
                    (Some(id), _) => Err(SampleError::NoImage(id)),
                    (None, Some(id)) => Err(SampleError::NoImage(id)),
                    (None, None) => Ok(
                        ColorSample::Textured {
                            uv,
                            diffuse: material.texture,
                            emissive: material.emissive,
                        },
                    ),
                },
            }
        }
    }

    /// The geometry that the backend knows as `id`, if the scene has it.
    pub fn get_geometry(&self, id: GeometryId) -> (r: Option<&Geometry>)
        ensures
            r == (if self.geometry@.contains_key(id.0) {
                Some(&self.geometry@[id.0])
            } else {
                None
            }),
    {
        table_get(&self.geometry, id.0)
    }

    /// Whether the texture table holds what `texture` needs.
    pub fn has_texture(&self, texture: &Texture) -> (r: bool)
        ensures
            r == self.holds(*texture),
    {
        match texture {
            Texture::Solid(_) => true,
            Texture::Image(id) => (*id as usize) < self.textures.len(),
        }
    }

    /// Finds how the diffuse and the emissive colour of `geom` at a point of
    /// primitive `prim_id` are to be read.
    pub fn sample_color(&self, geom: &Geometry, prim_id: u32) -> (r: Result<
        ColorSample,
        SampleError,
    >)
        ensures
            r == self.color_sample(geom, prim_id),
    {
        if let Texture::Solid(diffuse) = geom.material.texture {
            if let Texture::Solid(emissive) = geom.material.emissive {
                return Ok(ColorSample::Solid(diffuse, emissive));
            }
        }
        let uv = geom.compute_uv(prim_id);
        match uv {
            UvSource::NoTriangle => {
                return Err(SampleError::NoTriangle);
            },
            UvSource::NoCoordinate => {
                return Err(SampleError::NoCoordinate);
            },
            _ => {},
        }
        if let Texture::Image(id) = geom.material.texture {
            if !self.has_texture(&geom.material.texture) {
                return Err(SampleError::NoImage(id));
            }
        }
        if let Texture::Image(id) = geom.material.emissive {
            if !self.has_texture(&geom.material.emissive) {
                return Err(SampleError::NoImage(id));
            }
        }
        Ok(ColorSample::Textured { uv, diffuse: geom.material.texture, emissive: geom.material.emissive })
    }
}

/// The colours of a well-formed shape can be read wherever the backend can
/// hit it: for a sphere, and for a triangle of a mesh that has texture
/// coordinates, given that the texture table holds the images that the
/// material names.
pub proof fn lemma_sample_color_succeeds<T: RayTracer, I>(
    scene: BuiltScene<T, I>,
    geom: Geometry,
    prim_id: u32,
)
    requires
        geom.well_formed(),
        geom.info matches GeomInfo::Mesh(mesh) ==> mesh.tex_coords@.len() > 0 && prim_id
            < mesh.indices@.len(),
        scene.holds(geom.material.texture),
        scene.holds(geom.material.emissive),
    ensures
        scene.color_sample(&geom, prim_id) is Ok,
{
    if let GeomInfo::Mesh(mesh) = geom.info {
        lemma_well_formed_mesh_has_corners(mesh, prim_id);
    }
}

/// Where the backend gave every geometry an identifier of its own, each
/// geometry is found in the table under its identifier.
pub proof fn lemma_assemble_distinct(geometry: Seq<Geometry>, ids: Seq<GeometryId>, i: int)
    requires
        ids.len() == geometry.len(),
        0 <= i < geometry.len(),
        forall|a: int, b: int| 0 <= a < b < ids.len() ==> ids[a] != ids[b],
    ensures
        assemble(geometry, ids).contains_key(ids[i].0),
        assemble(geometry, ids)[ids[i].0] == geometry[i],
    decreases geometry.len(),
{
    if i < geometry.len() - 1 {
        lemma_assemble_distinct(geometry.drop_last(), ids.drop_last(), i);
    }
}

/// The table holds nothing but the scene's geometries, each under an
/// identifier that the backend gave.
pub proof fn lemma_assemble_sound(geometry: Seq<Geometry>, ids: Seq<GeometryId>, key: u32)
    requires
        ids.len() == geometry.len(),
        assemble(geometry, ids).contains_key(key),
    ensures
        exists|i: int|
            0 <= i < geometry.len() && #[trigger] ids[i].0 == key && assemble(geometry, ids)[key]
                == geometry[i],
    decreases geometry.len(),
{
    if geometry.len() > 0 {
        if ids.last().0 == key {
            assert(ids[geometry.len() - 1].0 == key);
        } else {
            lemma_assemble_sound(geometry.drop_last(), ids.drop_last(), key);
            let i = choose|i: int|
                0 <= i < geometry.drop_last().len() && #[trigger] ids.drop_last()[i].0 == key
                    && assemble(geometry.drop_last(), ids.drop_last())[key]
                    == geometry.drop_last()[i];
            assert(ids[i].0 == key);
        }
    }
}

} // verus!
