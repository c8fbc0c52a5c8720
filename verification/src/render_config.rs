//! Change tracking of render configurations, their builder, and their validation.
//!
//! Validation reads a configuration through [`ConfigChanges`]: sizes, counts, and the
//! outcome of each per-value range check. Computing those range checks on the
//! floating-point scene data is the embedding application's part.
use vstd::prelude::*;
use crate::texture::TextureData;

verus! {

/// Lifecycle action for one resource of a configuration.
#[derive(Clone, Copy, Debug)]
pub enum Change<T> {
    /// Keep the existing resource unchanged.
    Keep,
    /// Create the resource for the first time (first render only).
    Create(T),
    /// Replace the existing resource with new data.
    Update(T),
    /// Remove the resource.
    Delete,
}

/// Errors found when validating a render configuration.
#[derive(Clone, Copy, Debug, PartialEq, Eq, Structural)]
pub enum RenderConfigBuilderError {
    PaneDistanceOutOfBounds,
    PaneWidthOutOfBounds,
    InvalidCameraDirection,
    InvalidUniforms,
    InvalidSpheres,
    InvalidUVs,
    InvalidMeshes,
    InvalidLights,
    InvalidTextures,
    CannotDeleteNonexistent,
}

impl RenderConfigBuilderError {
    /// The user-facing text of the error.
    pub fn message(&self) -> (r: &'static str)
        ensures
            r@ == error_text(*self),
    {
        match self {
            RenderConfigBuilderError::PaneDistanceOutOfBounds => "Pane-Distance is out of bounds",
            RenderConfigBuilderError::PaneWidthOutOfBounds => "Pane-Distance is out of bounds",
            RenderConfigBuilderError::InvalidCameraDirection => "Invalid camera direction",
            RenderConfigBuilderError::InvalidUniforms => "Invalid Uniforms",
            RenderConfigBuilderError::InvalidSpheres => "Invalid Spheres",
            RenderConfigBuilderError::InvalidUVs => "Invalid UVs",
            RenderConfigBuilderError::InvalidMeshes => "Invalid Meshes",
            RenderConfigBuilderError::InvalidLights => "Invalid Lights",
            RenderConfigBuilderError::InvalidTextures => "Invalid Textures",
            RenderConfigBuilderError::CannotDeleteNonexistent => "Cannot delete none existent",
        }
    }
}

/// The text of each error.
pub open spec fn error_text(e: RenderConfigBuilderError) -> Seq<char> {
    match e {
        RenderConfigBuilderError::PaneDistanceOutOfBounds => "Pane-Distance is out of bounds"@,
        RenderConfigBuilderError::PaneWidthOutOfBounds => "Pane-Distance is out of bounds"@,
        RenderConfigBuilderError::InvalidCameraDirection => "Invalid camera direction"@,
        RenderConfigBuilderError::InvalidUniforms => "Invalid Uniforms"@,
        RenderConfigBuilderError::InvalidSpheres => "Invalid Spheres"@,
        RenderConfigBuilderError::InvalidUVs => "Invalid UVs"@,
        RenderConfigBuilderError::InvalidMeshes => "Invalid Meshes"@,
        RenderConfigBuilderError::InvalidLights => "Invalid Lights"@,
        RenderConfigBuilderError::InvalidTextures => "Invalid Textures"@,
        RenderConfigBuilderError::CannotDeleteNonexistent => "Cannot delete none existent"@,
    }
}

/// What validation and the engines read of the global rendering parameters.
#[derive(Clone, Copy, Debug)]
pub struct UniformsFacts {
    pub width: u32,
    pub height: u32,
    pub total_samples: u32,
    pub spheres_count: u32,
    pub bvh_node_count: u32,
    pub bvh_triangle_count: u32,
    /// The camera's pane distance lies in `[0, 100]`.
    pub pane_distance_in_range: bool,
    /// The camera's pane width lies in `[0, 100]`.
    pub pane_width_in_range: bool,
    /// The camera direction's squared length is below `f32::EPSILON`.
    pub camera_dir_is_zero: bool,
}

/// A complete scene configuration: for each resource, what to do with it.
///
/// The payload types are parameters: the embedding application instantiates them with
/// its scene data, and [`ConfigChanges`] instantiates them with what the checks and
/// the engines read of that data.
pub struct RenderConfig<U, S, V, M, L, N, I, B, X> {
    pub uniforms: Change<U>,
    pub spheres: Change<S>,
    pub uvs: Change<V>,
    pub meshes: Change<M>,
    pub lights: Change<L>,
    pub bvh_nodes: Change<N>,
    pub bvh_indices: Change<I>,
    pub bvh_triangles: Change<B>,
    pub textures: Change<X>,
}

/// A render configuration seen through what its checks and the engines read:
/// spheres and lights by one flag per primitive telling whether its radius is
/// positive; UVs (the flat coordinate array), meshes and the BVH buffers by their
/// lengths; textures by their data.
pub type ConfigChanges = RenderConfig<
    UniformsFacts,
    Vec<bool>,
    usize,
    usize,
    Vec<bool>,
    usize,
    usize,
    usize,
    Vec<TextureData>,
>;

/// Collects the parts of a [`RenderConfig`]; a part that is not set is kept.
pub struct RenderConfigBuilder<U, S, V, M, L, N, I, B, X> {
    pub uniforms: Option<Change<U>>,
    pub spheres: Option<Change<S>>,
    pub uvs: Option<Change<V>>,
    pub meshes: Option<Change<M>>,
    pub lights: Option<Change<L>>,
    pub bvh_nodes: Option<Change<N>>,
    pub bvh_indices: Option<Change<I>>,
    pub bvh_triangles: Option<Change<B>>,
    pub textures: Option<Change<X>>,
}

impl<U, S, V, M, L, N, I, B, X> RenderConfig<U, S, V, M, L, N, I, B, X> {
    /// A builder with no part set.
    pub fn builder() -> (r: RenderConfigBuilder<U, S, V, M, L, N, I, B, X>)
        ensures
            r == RenderConfigBuilder::<U, S, V, M, L, N, I, B, X>::empty(),
    {
        RenderConfigBuilder::new()
    }
}

impl<U, S, V, M, L, N, I, B, X> RenderConfigBuilder<U, S, V, M, L, N, I, B, X> {
    /// The builder with no part set.
    pub open spec fn empty() -> Self {
        RenderConfigBuilder {
            uniforms: None,
            spheres: None,
            uvs: None,
            meshes: None,
            lights: None,
            bvh_nodes: None,
            bvh_indices: None,
            bvh_triangles: None,
            textures: None,
        }
    }

    /// A builder with no part set.
    pub fn new() -> (r: Self)
        ensures
            r == Self::empty(),
    {
        RenderConfigBuilder {
            uniforms: None,
            spheres: None,
            uvs: None,
            meshes: None,
            lights: None,
            bvh_nodes: None,
            bvh_indices: None,
            bvh_triangles: None,
            textures: None,
        }
    }

    /// Updates Uniforms (`Change::Update`).
    pub fn uniforms(self, uniforms: U) -> (r: Self)
        ensures
            r == (RenderConfigBuilder { uniforms: Some(Change::Update(uniforms)), ..self }),
    {
        RenderConfigBuilder { uniforms: Some(Change::Update(uniforms)), ..self }
    }

    /// Creates Uniforms (`Change::Create`).
    pub fn uniforms_create(self, uniforms: U) -> (r: Self)
        ensures
            r == (RenderConfigBuilder { uniforms: Some(Change::Create(uniforms)), ..self }),
    {
        RenderConfigBuilder { uniforms: Some(Change::Create(uniforms)), ..self }
    }

    /// Keeps Uniforms unchanged (`Change::Keep`).
    pub fn uniforms_no_change(self) -> (r: Self)
        ensures
            r == (RenderConfigBuilder { uniforms: Some(Change::Keep), ..self }),
    {
        RenderConfigBuilder { uniforms: Some(Change::Keep), ..self }
    }

    /// Deletes Uniforms (`Change::Delete`).
    pub fn uniforms_delete(self) -> (r: Self)
        ensures
            r == (RenderConfigBuilder { uniforms: Some(Change::Delete), ..self }),
    {
        RenderConfigBuilder { uniforms: Some(Change::Delete), ..self }
    }

    /// Updates spheres (`Change::Update`).
    pub fn spheres(self, spheres: S) -> (r: Self)
        ensures
            r == (RenderConfigBuilder { spheres: Some(Change::Update(spheres)), ..self }),
    {
        RenderConfigBuilder { spheres: Some(Change::Update(spheres)), ..self }
    }

    /// Creates spheres (`Change::Create`).
    pub fn spheres_create(self, spheres: S) -> (r: Self)
        ensures
            r == (RenderConfigBuilder { spheres: Some(Change::Create(spheres)), ..self }),
    {
        RenderConfigBuilder { spheres: Some(Change::Create(spheres)), ..self }
    }

    /// Keeps spheres unchanged (`Change::Keep`).
    pub fn spheres_no_change(self) -> (r: Self)
        ensures
            r == (RenderConfigBuilder { spheres: Some(Change::Keep), ..self }),
    {
        RenderConfigBuilder { spheres: Some(Change::Keep), ..self }
    }

    /// Deletes spheres (`Change::Delete`).
    pub fn spheres_delete(self) -> (r: Self)
        ensures
            r == (RenderConfigBuilder { spheres: Some(Change::Delete), ..self }),
    {
        RenderConfigBuilder { spheres: Some(Change::Delete), ..self }
    }

    /// Updates UV coordinates (`Change::Update`).
    pub fn uvs(self, uvs: V) -> (r: Self)
        ensures
            r == (RenderConfigBuilder { uvs: Some(Change::Update(uvs)), ..self }),
    {
        RenderConfigBuilder { uvs: Some(Change::Update(uvs)), ..self }
    }

    /// Creates UV coordinates (`Change::Create`).
    pub fn uvs_create(self, uvs: V) -> (r: Self)
        ensures
            r == (RenderConfigBuilder { uvs: Some(Change::Create(uvs)), ..self }),
    {
        RenderConfigBuilder { uvs: Some(Change::Create(uvs)), ..self }
    }

    /// Keeps UV coordinates unchanged (`Change::Keep`).
    pub fn uvs_no_change(self) -> (r: Self)
        ensures
            r == (RenderConfigBuilder { uvs: Some(Change::Keep), ..self }),
    {
        RenderConfigBuilder { uvs: Some(Change::Keep), ..self }
    }

    /// Deletes UV coordinates (`Change::Delete`).
    pub fn uvs_delete(self) -> (r: Self)
        ensures
            r == (RenderConfigBuilder { uvs: Some(Change::Delete), ..self }),
    {
        RenderConfigBuilder { uvs: Some(Change::Delete), ..self }
    }

    /// Updates meshes (`Change::Update`).
    pub fn meshes(self, meshes: M) -> (r: Self)
        ensures
            r == (RenderConfigBuilder { meshes: Some(Change::Update(meshes)), ..self }),
    {
        RenderConfigBuilder { meshes: Some(Change::Update(meshes)), ..self }
    }

    /// Creates meshes (`Change::Create`).
    pub fn meshes_create(self, meshes: M) -> (r: Self)
        ensures
            r == (RenderConfigBuilder { meshes: Some(Change::Create(meshes)), ..self }),
    {
        RenderConfigBuilder { meshes: Some(Change::Create(meshes)), ..self }
    }

    /// Keeps meshes unchanged (`Change::Keep`).
    pub fn meshes_no_change(self) -> (r: Self)
        ensures
            r == (RenderConfigBuilder { meshes: Some(Change::Keep), ..self }),
    {
        RenderConfigBuilder { meshes: Some(Change::Keep), ..self }
    }

    /// Deletes meshes (`Change::Delete`).
    pub fn meshes_delete(self) -> (r: Self)
        ensures
            r == (RenderConfigBuilder { meshes: Some(Change::Delete), ..self }),
    {
        RenderConfigBuilder { meshes: Some(Change::Delete), ..self }
    }

    /// Updates lights (`Change::Update`).
    pub fn lights(self, lights: L) -> (r: Self)
        ensures
            r == (RenderConfigBuilder { lights: Some(Change::Update(lights)), ..self }),
    {
        RenderConfigBuilder { lights: Some(Change::Update(lights)), ..self }
    }

    /// Creates lights (`Change::Create`).
    pub fn lights_create(self, lights: L) -> (r: Self)
        ensures
            r == (RenderConfigBuilder { lights: Some(Change::Create(lights)), ..self }),
    {
        RenderConfigBuilder { lights: Some(Change::Create(lights)), ..self }
    }

    /// Keeps lights unchanged (`Change::Keep`).
    pub fn lights_no_change(self) -> (r: Self)
        ensures
            r == (RenderConfigBuilder { lights: Some(Change::Keep), ..self }),
    {
        RenderConfigBuilder { lights: Some(Change::Keep), ..self }
    }

    /// Deletes lights (`Change::Delete`).
    pub fn lights_delete(self) -> (r: Self)
        ensures
            r == (RenderConfigBuilder { lights: Some(Change::Delete), ..self }),
    {
        RenderConfigBuilder { lights: Some(Change::Delete), ..self }
    }

    /// Updates BVH nodes (`Change::Update`).
    pub fn bvh_nodes(self, nodes: N) -> (r: Self)
        ensures
            r == (RenderConfigBuilder { bvh_nodes: Some(Change::Update(nodes)), ..self }),
    {
        RenderConfigBuilder { bvh_nodes: Some(Change::Update(nodes)), ..self }
    }

    /// Creates BVH nodes (`Change::Create`).
    pub fn bvh_nodes_create(self, nodes: N) -> (r: Self)
        ensures
            r == (RenderConfigBuilder { bvh_nodes: Some(Change::Create(nodes)), ..self }),
    {
        RenderConfigBuilder { bvh_nodes: Some(Change::Create(nodes)), ..self }
    }

    /// Keeps BVH nodes unchanged (`Change::Keep`).
    pub fn bvh_nodes_no_change(self) -> (r: Self)
        ensures
            r == (RenderConfigBuilder { bvh_nodes: Some(Change::Keep), ..self }),
    {
        RenderConfigBuilder { bvh_nodes: Some(Change::Keep), ..self }
    }

    /// Deletes BVH nodes (`Change::Delete`).
    pub fn bvh_nodes_delete(self) -> (r: Self)
        ensures
            r == (RenderConfigBuilder { bvh_nodes: Some(Change::Delete), ..self }),
    {
        RenderConfigBuilder { bvh_nodes: Some(Change::Delete), ..self }
    }

    /// Updates BVH indices (`Change::Update`).
    pub fn bvh_indices(self, indices: I) -> (r: Self)
        ensures
            r == (RenderConfigBuilder { bvh_indices: Some(Change::Update(indices)), ..self }),
    {
        RenderConfigBuilder { bvh_indices: Some(Change::Update(indices)), ..self }
    }

    /// Creates BVH indices (`Change::Create`).
    pub fn bvh_indices_create(self, indices: I) -> (r: Self)
        ensures
            r == (RenderConfigBuilder { bvh_indices: Some(Change::Create(indices)), ..self }),
    {
        RenderConfigBuilder { bvh_indices: Some(Change::Create(indices)), ..self }
    }

    /// Keeps BVH indices unchanged (`Change::Keep`).
    pub fn bvh_indices_no_change(self) -> (r: Self)
        ensures
            r == (RenderConfigBuilder { bvh_indices: Some(Change::Keep), ..self }),
    {
        RenderConfigBuilder { bvh_indices: Some(Change::Keep), ..self }
    }

    /// Deletes BVH indices (`Change::Delete`).
    pub fn bvh_indices_delete(self) -> (r: Self)
        ensures
            r == (RenderConfigBuilder { bvh_indices: Some(Change::Delete), ..self }),
    {
        RenderConfigBuilder { bvh_indices: Some(Change::Delete), ..self }
    }

    /// Updates BVH triangles (`Change::Update`).
    pub fn bvh_triangles(self, triangles: B) -> (r: Self)
        ensures
            r == (RenderConfigBuilder { bvh_triangles: Some(Change::Update(triangles)), ..self }),
    {
        RenderConfigBuilder { bvh_triangles: Some(Change::Update(triangles)), ..self }
    }

    /// Creates BVH triangles (`Change::Create`).
    pub fn bvh_triangles_create(self, triangles: B) -> (r: Self)
        ensures
            r == (RenderConfigBuilder { bvh_triangles: Some(Change::Create(triangles)), ..self }),
    {
        RenderConfigBuilder { bvh_triangles: Some(Change::Create(triangles)), ..self }
    }

    /// Keeps BVH triangles unchanged (`Change::Keep`).
    pub fn bvh_triangles_no_change(self) -> (r: Self)
        ensures
            r == (RenderConfigBuilder { bvh_triangles: Some(Change::Keep), ..self }),
    {
        RenderConfigBuilder { bvh_triangles: Some(Change::Keep), ..self }
    }

    /// Deletes BVH triangles (`Change::Delete`).
    pub fn bvh_triangles_delete(self) -> (r: Self)
        ensures
            r == (RenderConfigBuilder { bvh_triangles: Some(Change::Delete), ..self }),
    {
        RenderConfigBuilder { bvh_triangles: Some(Change::Delete), ..self }
    }

    /// Updates textures (`Change::Update`).
    pub fn textures(self, textures: X) -> (r: Self)
        ensures
            r == (RenderConfigBuilder { textures: Some(Change::Update(textures)), ..self }),
    {
        RenderConfigBuilder { textures: Some(Change::Update(textures)), ..self }
    }

    /// Creates textures (`Change::Create`).
    pub fn textures_create(self, textures: X) -> (r: Self)
        ensures
            r == (RenderConfigBuilder { textures: Some(Change::Create(textures)), ..self }),
    {
        RenderConfigBuilder { textures: Some(Change::Create(textures)), ..self }
    }

    /// Keeps textures unchanged (`Change::Keep`).
    pub fn textures_no_change(self) -> (r: Self)
        ensures
            r == (RenderConfigBuilder { textures: Some(Change::Keep), ..self }),
    {
        RenderConfigBuilder { textures: Some(Change::Keep), ..self }
    }

    /// Deletes textures (`Change::Delete`).
    pub fn textures_delete(self) -> (r: Self)
        ensures
            r == (RenderConfigBuilder { textures: Some(Change::Delete), ..self }),
    {
        RenderConfigBuilder { textures: Some(Change::Delete), ..self }
    }

    /// Builds the configuration; every part that was not set is kept (`Change::Keep`).
    pub fn build(self) -> (r: RenderConfig<U, S, V, M, L, N, I, B, X>)
        ensures
            r.uniforms == change_or_keep(self.uniforms),
            r.spheres == change_or_keep(self.spheres),
            r.uvs == change_or_keep(self.uvs),
            r.meshes == change_or_keep(self.meshes),
            r.lights == change_or_keep(self.lights),
            r.bvh_nodes == change_or_keep(self.bvh_nodes),
            r.bvh_indices == change_or_keep(self.bvh_indices),
            r.bvh_triangles == change_or_keep(self.bvh_triangles),
            r.textures == change_or_keep(self.textures),
    {
        RenderConfig {
            uniforms: unwrap_or_keep(self.uniforms),
            spheres: unwrap_or_keep(self.spheres),
            uvs: unwrap_or_keep(self.uvs),
            meshes: unwrap_or_keep(self.meshes),
            lights: unwrap_or_keep(self.lights),
            bvh_nodes: unwrap_or_keep(self.bvh_nodes),
            bvh_indices: unwrap_or_keep(self.bvh_indices),
            bvh_triangles: unwrap_or_keep(self.bvh_triangles),
            textures: unwrap_or_keep(self.textures),
        }
    }
}

/// A part that was set, or `Change::Keep`.
pub open spec fn change_or_keep<T>(o: Option<Change<T>>) -> Change<T> {
    match o {
        Some(c) => c,
        None => Change::Keep,
    }
}

fn unwrap_or_keep<T>(o: Option<Change<T>>) -> (r: Change<T>)
    ensures
        r == change_or_keep(o),
{
    match o {
        Some(c) => c,
        None => Change::Keep,
    }
}

/// Outcome of validating a configuration.
pub enum Verdict {
    Valid,
    Invalid(RenderConfigBuilderError),
    /// Validation reaches a deletion that is not implemented yet.
    Unimplemented,
}

pub open spec fn is_create<T>(c: Change<T>) -> bool {
    c is Create
}

/// Result of checking the configuration for a first render: every resource but the
/// BVH buffers must be created.
pub open spec fn init_verdict<U, S, V, M, L, N, I, B, X>(c: RenderConfig<U, S, V, M, L, N, I, B, X>) -> Result<(), RenderConfigBuilderError> {
    if !is_create(c.uniforms) {
        Err(RenderConfigBuilderError::InvalidUniforms)
    } else if !is_create(c.spheres) {
        Err(RenderConfigBuilderError::InvalidSpheres)
    } else if !is_create(c.uvs) {
        Err(RenderConfigBuilderError::InvalidUVs)
    } else if !is_create(c.meshes) {
        Err(RenderConfigBuilderError::InvalidMeshes)
    } else if !is_create(c.lights) {
        Err(RenderConfigBuilderError::InvalidLights)
    } else if !is_create(c.textures) {
        Err(RenderConfigBuilderError::InvalidTextures)
    } else {
        Ok(())
    }
}

/// Check of the uniforms; creating them again after the first render is refused.
pub open spec fn uniforms_check(u: Change<UniformsFacts>) -> Option<RenderConfigBuilderError> {
    match u {
        Change::Create(_) => Some(RenderConfigBuilderError::InvalidUniforms),
        Change::Update(f) => {
            if !f.pane_distance_in_range {
                Some(RenderConfigBuilderError::PaneDistanceOutOfBounds)
            } else if !f.pane_width_in_range {
                Some(RenderConfigBuilderError::PaneWidthOutOfBounds)
            } else if f.camera_dir_is_zero {
                Some(RenderConfigBuilderError::InvalidCameraDirection)
            } else {
                None
            }
        },
        Change::Delete => Some(RenderConfigBuilderError::CannotDeleteNonexistent),
        Change::Keep => None,
    }
}

/// Some primitive among `flags` has a non-positive radius.
pub open spec fn some_radius_not_positive(flags: Seq<bool>) -> bool {
    exists|i: int| 0 <= i < flags.len() && !(#[trigger] flags[i])
}

/// Check of a list of spheres or lights, failing with `e`; creating the list again
/// after the first render is refused.
pub open spec fn radii_check(c: Change<Vec<bool>>, e: RenderConfigBuilderError) -> Option<
    RenderConfigBuilderError,
> {
    match c {
        Change::Create(_) => Some(e),
        Change::Update(f) => if some_radius_not_positive(f@) {
            Some(e)
        } else {
            None
        },
        _ => None,
    }
}

/// Check of the UV coordinates: the flat array holds pairs, and is not created again
/// after the first render.
pub open spec fn uvs_check(c: Change<usize>) -> Option<RenderConfigBuilderError> {
    match c {
        Change::Create(_) => Some(RenderConfigBuilderError::InvalidUVs),
        Change::Update(n) => if n % 2 != 0 {
            Some(RenderConfigBuilderError::InvalidUVs)
        } else {
            None
        },
        _ => None,
    }
}

/// Result of validating a configuration for a render after the first one: the
/// resources are checked in order (uniforms, spheres, UVs, meshes, lights, textures),
/// and a resource that is created again, rather than updated, is refused.
pub open spec fn verdict(c: ConfigChanges) -> Verdict {
    if uniforms_check(c.uniforms) is Some {
        Verdict::Invalid(uniforms_check(c.uniforms)->0)
    } else if radii_check(c.spheres, RenderConfigBuilderError::InvalidSpheres) is Some {
        Verdict::Invalid(RenderConfigBuilderError::InvalidSpheres)
    } else if c.uvs is Delete {
        Verdict::Unimplemented
    } else if uvs_check(c.uvs) is Some {
        Verdict::Invalid(RenderConfigBuilderError::InvalidUVs)
    } else if c.meshes is Delete {
        Verdict::Unimplemented
    } else if c.meshes is Create {
        Verdict::Invalid(RenderConfigBuilderError::InvalidMeshes)
    } else if c.lights is Delete {
        Verdict::Unimplemented
    } else if radii_check(c.lights, RenderConfigBuilderError::InvalidLights) is Some {
        Verdict::Invalid(RenderConfigBuilderError::InvalidLights)
    } else if c.textures is Delete {
        Verdict::Unimplemented
    } else if c.textures is Create {
        Verdict::Invalid(RenderConfigBuilderError::InvalidTextures)
    } else {
        Verdict::Valid
    }
}

/// A configuration that changes nothing but the spheres, given as `Update(flags)`.
pub open spec fn only_spheres_updated(c: ConfigChanges, flags: Vec<bool>) -> bool {
    &&& c.uniforms is Keep
    &&& c.spheres == Change::Update(flags)
    &&& c.uvs is Keep
    &&& c.meshes is Keep
    &&& c.lights is Keep
    &&& c.textures is Keep
}

/// A configuration that changes nothing but the lights, given as `Update(flags)`.
pub open spec fn only_lights_updated(c: ConfigChanges, flags: Vec<bool>) -> bool {
    &&& c.uniforms is Keep
    &&& c.spheres is Keep
    &&& c.uvs is Keep
    &&& c.meshes is Keep
    &&& c.lights == Change::Update(flags)
    &&& c.textures is Keep
}

/// One sphere (or light) with a non-positive radius, wherever it stands in the list,
/// makes validation fail with `InvalidSpheres` (or `InvalidLights`); a list whose radii
/// are all positive passes.
pub proof fn lemma_any_bad_radius_is_refused(c: ConfigChanges, flags: Vec<bool>, i: int)
    ensures
        only_spheres_updated(c, flags) && 0 <= i < flags@.len() && !flags@[i] ==> verdict(c)
            == Verdict::Invalid(RenderConfigBuilderError::InvalidSpheres),
        only_lights_updated(c, flags) && 0 <= i < flags@.len() && !flags@[i] ==> verdict(c)
            == Verdict::Invalid(RenderConfigBuilderError::InvalidLights),
        (only_spheres_updated(c, flags) || only_lights_updated(c, flags)) && (forall|j: int|
            0 <= j < flags@.len() ==> #[trigger] flags@[j]) ==> verdict(c) == Verdict::Valid,
{
    if 0 <= i < flags@.len() && !flags@[i] {
        assert(some_radius_not_positive(flags@));
    }
}

/// The UV coordinates are pairs: a configuration that changes nothing but the UVs,
/// given as a flat array of `n` numbers, is refused with `InvalidUVs` exactly when `n`
/// is odd.
pub proof fn lemma_uvs_must_be_pairs(c: ConfigChanges, n: usize)
    requires
        c.uniforms is Keep,
        c.spheres is Keep,
        c.uvs == Change::Update(n),
        c.meshes is Keep,
        c.lights is Keep,
        c.textures is Keep,
    ensures
        n % 2 == 1 ==> verdict(c) == Verdict::Invalid(RenderConfigBuilderError::InvalidUVs),
        n % 2 == 0 ==> verdict(c) == Verdict::Valid,
{
}

fn all_true(flags: &Vec<bool>) -> (r: bool)
    ensures
        r == !some_radius_not_positive(flags@),
{
    let mut i: usize = 0;
    while i < flags.len()
        invariant
            i <= flags@.len(),
            forall|j: int| 0 <= j < i ==> #[trigger] flags@[j],
        decreases flags@.len() - i,
    {
        if !flags[i] {
            return false;
        }
        i = i + 1;
    }
    true
}

fn check_radii(c: &Change<Vec<bool>>, e: RenderConfigBuilderError) -> (r: Option<
    RenderConfigBuilderError,
>)
    ensures
        r == radii_check(*c, e),
{
    match c {
        Change::Create(_) => Some(e),
        Change::Update(f) => if all_true(f) {
            None
        } else {
            Some(e)
        },
        _ => None,
    }
}

/// Validation of `c` reaches the deletion of a resource whose deletion is not
/// implemented yet (UVs, meshes, lights or textures).
pub fn reaches_unimplemented_deletion(c: &ConfigChanges) -> (r: bool)
    ensures
        r == verdict(*c) is Unimplemented,
{
    let uniforms_ok = match &c.uniforms {
        Change::Update(u) => u.pane_distance_in_range && u.pane_width_in_range
            && !u.camera_dir_is_zero,
        Change::Create(_) | Change::Delete => false,
        Change::Keep => true,
    };
    if !uniforms_ok || check_radii(&c.spheres, RenderConfigBuilderError::InvalidSpheres).is_some() {
        return false;
    }
    match &c.uvs {
        Change::Delete => {
            return true;
        },
        Change::Update(n) => {
            if *n % 2 != 0 {
                return false;
            }
        },
        Change::Create(_) => {
            return false;
        },
        Change::Keep => {},
    }
    match &c.meshes {
        Change::Delete => {
            return true;
        },
        Change::Create(_) => {
            return false;
        },
        _ => {},
    }
    if matches!(c.lights, Change::Delete) {
        return true;
    }
    if check_radii(&c.lights, RenderConfigBuilderError::InvalidLights).is_some() {
        return false;
    }
    matches!(c.textures, Change::Delete)
}

/// Validation of a configuration for a render after the first one.
pub trait Validate {
    /// Validation of this configuration is implemented (it deletes nothing that
    /// cannot be deleted yet).
    spec fn validation_supported(&self) -> bool;

    fn validate(&self) -> Result<&Self, RenderConfigBuilderError>
        requires
            self.validation_supported(),
    ;
}

/// Validation of a configuration for the first render.
pub trait ValidateInit {
    fn validate_init(&self) -> Result<&Self, RenderConfigBuilderError>;
}

impl<U, S, V, M, L, N, I, B, X> ValidateInit for RenderConfig<U, S, V, M, L, N, I, B, X> {
    /// Checks that every resource but the BVH buffers is created.
    fn validate_init(&self) -> (r: Result<&Self, RenderConfigBuilderError>)
        ensures
            match init_verdict(*self) {
                Ok(()) => r == Ok::<&Self, RenderConfigBuilderError>(self),
                Err(e) => r == Err::<&Self, RenderConfigBuilderError>(e),
            },
    {
        if !matches!(self.uniforms, Change::Create(_)) {
            return Err(RenderConfigBuilderError::InvalidUniforms);
        }
        if !matches!(self.spheres, Change::Create(_)) {
            return Err(RenderConfigBuilderError::InvalidSpheres);
        }
        if !matches!(self.uvs, Change::Create(_)) {
            return Err(RenderConfigBuilderError::InvalidUVs);
        }
        if !matches!(self.meshes, Change::Create(_)) {
            return Err(RenderConfigBuilderError::InvalidMeshes);
        }
        if !matches!(self.lights, Change::Create(_)) {
            return Err(RenderConfigBuilderError::InvalidLights);
        }
        if !matches!(self.textures, Change::Create(_)) {
            return Err(RenderConfigBuilderError::InvalidTextures);
        }
        Ok(self)
    }
}

impl Validate for ConfigChanges {
    open spec fn validation_supported(&self) -> bool {
        !(verdict(*self) is Unimplemented)
    }

    /// Checks, in this order, the uniforms (camera range flags), the radii of the
    /// spheres, the UV array length, the meshes, the radii of the lights and the
    /// textures. Deleting the uniforms is refused, and so is creating any of these
    /// resources again after the first render. Deleting UVs, meshes, lights or
    /// textures is not supported.
    fn validate(&self) -> (r: Result<&Self, RenderConfigBuilderError>)
        ensures
            match verdict(*self) {
                Verdict::Valid => r == Ok::<&Self, RenderConfigBuilderError>(self),
                Verdict::Invalid(e) => r == Err::<&Self, RenderConfigBuilderError>(e),
                Verdict::Unimplemented => false,
            },
    {
        match &self.uniforms {
            Change::Create(_) => {
                return Err(RenderConfigBuilderError::InvalidUniforms);
            },
            Change::Update(u) => {
                if !u.pane_distance_in_range {
                    return Err(RenderConfigBuilderError::PaneDistanceOutOfBounds);
                }
                if !u.pane_width_in_range {
                    return Err(RenderConfigBuilderError::PaneWidthOutOfBounds);
                }
                if u.camera_dir_is_zero {
                    return Err(RenderConfigBuilderError::InvalidCameraDirection);
                }
            },
            Change::Delete => {
                return Err(RenderConfigBuilderError::CannotDeleteNonexistent);
            },
            Change::Keep => {},
        }
        if check_radii(&self.spheres, RenderConfigBuilderError::InvalidSpheres).is_some() {
            return Err(RenderConfigBuilderError::InvalidSpheres);
        }
        match &self.uvs {
            Change::Update(n) => {
                if *n % 2 != 0 {
                    return Err(RenderConfigBuilderError::InvalidUVs);
                }
            },
            Change::Create(_) => {
                return Err(RenderConfigBuilderError::InvalidUVs);
            },
            _ => {},
        }
        if matches!(self.meshes, Change::Create(_)) {
            return Err(RenderConfigBuilderError::InvalidMeshes);
        }
        if check_radii(&self.lights, RenderConfigBuilderError::InvalidLights).is_some() {
            return Err(RenderConfigBuilderError::InvalidLights);
        }
        if matches!(self.textures, Change::Create(_)) {
            return Err(RenderConfigBuilderError::InvalidTextures);
        }
        Ok(self)
    }
}

} // verus!
