//! What a GPU engine does with its buffers when a configuration arrives, and the
//! CPU-side handling of the pixels it reads back.
use vstd::prelude::*;
use crate::render_config::{
    Change, ConfigChanges, RenderConfigBuilderError, UniformsFacts, Validate, ValidateInit, Verdict,
    init_verdict, verdict,
};
use crate::progressive::{ProgressiveRenderHelper, SAMPLES_PER_PASS, ceil_div};
use crate::texture::{TextureData, TextureInfo, bytes_before, flattened, info_for, process_textures};

verus! {

/// What happens to one GPU buffer when a configuration is applied.
#[derive(Clone, Copy, Debug, PartialEq, Eq, Structural)]
pub enum BufferAction {
    /// Nothing is done with the buffer.
    Leave,
    /// The buffer is created from the configuration's data (first render).
    Init,
    /// The buffer is recreated from the configuration's data.
    Update,
    /// The buffer is replaced by an empty one.
    Delete,
}

/// The buffer work for one incoming configuration.
#[derive(Clone, Copy, Debug, PartialEq, Eq, Structural)]
pub struct UpdatePlan {
    pub uniforms: BufferAction,
    /// New byte size of the output and staging buffers, when the resolution changes.
    pub resize_to: Option<u64>,
    /// New total sample count for the progressive pass bookkeeping.
    pub resample: Option<u32>,
    pub spheres: BufferAction,
    pub uvs: BufferAction,
    pub meshes: BufferAction,
    pub lights: BufferAction,
    pub bvh_nodes: BufferAction,
    pub bvh_indices: BufferAction,
    pub bvh_triangles: BufferAction,
    pub textures: BufferAction,
}

/// Size in bytes of an RGBA8 image of the given size.
pub open spec fn image_bytes(width: int, height: int) -> int {
    width * height * 4
}

/// The action for a resource in the first render.
pub open spec fn first_action<T>(c: Change<T>) -> BufferAction {
    if c is Create {
        BufferAction::Init
    } else {
        BufferAction::Leave
    }
}

/// The action for a resource in a later render. (Validation refuses a `Create` of
/// these resources after the first render, so no plan holds one; it would leave the
/// buffer as it is.)
pub open spec fn later_action<T>(c: Change<T>) -> BufferAction {
    match c {
        Change::Keep | Change::Create(_) => BufferAction::Leave,
        Change::Update(_) => BufferAction::Update,
        Change::Delete => BufferAction::Delete,
    }
}

/// The action for a BVH buffer in a later render, where `Create` is taken as `Update`.
pub open spec fn later_bvh_action<T>(c: Change<T>) -> BufferAction {
    match c {
        Change::Keep => BufferAction::Leave,
        Change::Update(_) | Change::Create(_) => BufferAction::Update,
        Change::Delete => BufferAction::Delete,
    }
}

/// The uniforms that a configuration carries, if it carries any.
pub open spec fn carried_uniforms(c: ConfigChanges) -> Option<UniformsFacts> {
    match c.uniforms {
        Change::Create(u) | Change::Update(u) => Some(u),
        _ => None,
    }
}

/// The image sizes that a configuration can carry fit the byte arithmetic.
pub open spec fn sizes_fit(c: ConfigChanges, current_pixels: u64) -> bool {
    &&& current_pixels * 4 <= u64::MAX
    &&& carried_uniforms(c) is Some ==> image_bytes(
        carried_uniforms(c)->0.width as int,
        carried_uniforms(c)->0.height as int,
    ) <= u64::MAX
}

/// The configuration passes validation and carries a size to compare with the
/// engine's current image, so the plan computes image byte sizes.
pub open spec fn computes_sizes(initialized: bool, c: ConfigChanges) -> bool {
    if initialized {
        verdict(c) is Valid && c.uniforms is Update
    } else {
        init_verdict(c) is Ok
    }
}

/// The plan for a configuration arriving at an engine whose image currently holds
/// `current_pixels` pixels.
pub open spec fn planned_update(
    initialized: bool,
    current_pixels: u64,
    c: ConfigChanges,
) -> Result<UpdatePlan, RenderConfigBuilderError> {
    if !initialized {
        match init_verdict(c) {
            Err(e) => Err(e),
            Ok(()) => {
                let u = carried_uniforms(c)->0;
                let bytes = image_bytes(u.width as int, u.height as int);
                let changed = bytes != current_pixels * 4;
                Ok(
                    UpdatePlan {
                        uniforms: BufferAction::Init,
                        resize_to: if changed { Some(bytes as u64) } else { None },
                        resample: if changed { Some(u.total_samples) } else { None },
                        spheres: first_action(c.spheres),
                        uvs: first_action(c.uvs),
                        meshes: first_action(c.meshes),
                        lights: first_action(c.lights),
                        bvh_nodes: first_action(c.bvh_nodes),
                        bvh_indices: first_action(c.bvh_indices),
                        bvh_triangles: first_action(c.bvh_triangles),
                        textures: first_action(c.textures),
                    },
                )
            },
        }
    } else {
        match verdict(c) {
            Verdict::Invalid(e) => Err(e),
            _ => {
                let (resize_to, resample) = match c.uniforms {
                    Change::Update(u) => {
                        let bytes = image_bytes(u.width as int, u.height as int);
                        (
                            if bytes != current_pixels * 4 {
                                Some(bytes as u64)
                            } else {
                                None
                            },
                            Some(u.total_samples),
                        )
                    },
                    _ => (None, None),
                };
                Ok(
                    UpdatePlan {
                        uniforms: later_action(c.uniforms),
                        resize_to,
                        resample,
                        spheres: later_action(c.spheres),
                        uvs: later_action(c.uvs),
                        meshes: later_action(c.meshes),
                        lights: later_action(c.lights),
                        bvh_nodes: later_bvh_action(c.bvh_nodes),
                        bvh_indices: later_bvh_action(c.bvh_indices),
                        bvh_triangles: later_bvh_action(c.bvh_triangles),
                        textures: later_action(c.textures),
                    },
                )
            },
        }
    }
}

/// A configuration that keeps every resource.
pub open spec fn keeps_everything(c: ConfigChanges) -> bool {
    &&& c.uniforms is Keep
    &&& c.spheres is Keep
    &&& c.uvs is Keep
    &&& c.meshes is Keep
    &&& c.lights is Keep
    &&& c.bvh_nodes is Keep
    &&& c.bvh_indices is Keep
    &&& c.bvh_triangles is Keep
    &&& c.textures is Keep
}

/// After the first render, a configuration that keeps everything is valid and
/// leaves every buffer, the image size and the pass bookkeeping as they are;
/// before the first render it is refused for its uniforms.
pub proof fn lemma_keep_everything_changes_nothing(c: ConfigChanges, current_pixels: u64)
    requires
        keeps_everything(c),
    ensures
        verdict(c) is Valid,
        planned_update(true, current_pixels, c) == Ok::<UpdatePlan, RenderConfigBuilderError>(
            UpdatePlan {
                uniforms: BufferAction::Leave,
                resize_to: None,
                resample: None,
                spheres: BufferAction::Leave,
                uvs: BufferAction::Leave,
                meshes: BufferAction::Leave,
                lights: BufferAction::Leave,
                bvh_nodes: BufferAction::Leave,
                bvh_indices: BufferAction::Leave,
                bvh_triangles: BufferAction::Leave,
                textures: BufferAction::Leave,
            },
        ),
        planned_update(false, current_pixels, c) == Err::<UpdatePlan, RenderConfigBuilderError>(
            RenderConfigBuilderError::InvalidUniforms,
        ),
{
}

/// After the first render, a configuration that creates the uniforms, spheres, UVs,
/// meshes, lights or textures again is refused; the BVH buffers take a `Create` as
/// an update.
pub proof fn lemma_create_refused_after_init(c: ConfigChanges, current_pixels: u64)
    requires
        !(verdict(c) is Unimplemented),
    ensures
        (c.uniforms is Create || c.spheres is Create || c.uvs is Create || c.meshes is Create
            || c.lights is Create || c.textures is Create) ==> planned_update(
            true,
            current_pixels,
            c,
        ) is Err,
        planned_update(true, current_pixels, c) is Ok && c.bvh_nodes is Create
            ==> planned_update(true, current_pixels, c)->Ok_0.bvh_nodes == BufferAction::Update,
        planned_update(true, current_pixels, c) is Ok && c.bvh_indices is Create
            ==> planned_update(true, current_pixels, c)->Ok_0.bvh_indices == BufferAction::Update,
        planned_update(true, current_pixels, c) is Ok && c.bvh_triangles is Create
            ==> planned_update(true, current_pixels, c)->Ok_0.bvh_triangles
            == BufferAction::Update,
{
}

/// The buffer action that a change asks for after the first render: an update
/// rebuilds the buffer, a deletion empties it, a kept resource is left alone.
pub open spec fn asked_action<T>(c: Change<T>, a: BufferAction) -> bool {
    &&& c is Update ==> a == BufferAction::Update
    &&& c is Delete ==> a == BufferAction::Delete
    &&& c is Keep ==> a == BufferAction::Leave
}

/// After the first render, every accepted configuration is carried out resource by
/// resource: each updated resource is rebuilt from the new data, each deleted one is
/// emptied and each kept one left alone; the pass bookkeeping follows updated uniforms.
pub proof fn lemma_later_plan_follows_each_change(current_pixels: u64, c: ConfigChanges)
    requires
        planned_update(true, current_pixels, c) is Ok,
    ensures
        ({
            let p = planned_update(true, current_pixels, c)->Ok_0;
            &&& asked_action(c.uniforms, p.uniforms)
            &&& asked_action(c.spheres, p.spheres)
            &&& asked_action(c.uvs, p.uvs)
            &&& asked_action(c.meshes, p.meshes)
            &&& asked_action(c.lights, p.lights)
            &&& asked_action(c.bvh_nodes, p.bvh_nodes)
            &&& asked_action(c.bvh_indices, p.bvh_indices)
            &&& asked_action(c.bvh_triangles, p.bvh_triangles)
            &&& asked_action(c.textures, p.textures)
            &&& (c.uniforms matches Change::Update(u) ==> p.resample == Some(u.total_samples))
            &&& (!(c.uniforms is Update) ==> p.resample is None && p.resize_to is None)
        }),
{
}

/// The first accepted configuration creates every resource it carries and nothing
/// else; the image buffers are resized, and the pass bookkeeping reset to the new
/// sample count, exactly when the new image's byte size differs from the current one.
pub proof fn lemma_first_plan_creates_what_is_given(current_pixels: u64, c: ConfigChanges)
    requires
        planned_update(false, current_pixels, c) is Ok,
        sizes_fit(c, current_pixels),
    ensures
        ({
            let p = planned_update(false, current_pixels, c)->Ok_0;
            let u = c.uniforms->Create_0;
            let bytes = u.width * u.height * 4;
            &&& c.uniforms is Create && p.uniforms == BufferAction::Init
            &&& (p.bvh_nodes == BufferAction::Init) == (c.bvh_nodes is Create)
            &&& (p.bvh_indices == BufferAction::Init) == (c.bvh_indices is Create)
            &&& (p.bvh_triangles == BufferAction::Init) == (c.bvh_triangles is Create)
            &&& p.spheres == BufferAction::Init && p.uvs == BufferAction::Init
            &&& p.meshes == BufferAction::Init && p.lights == BufferAction::Init
            &&& p.textures == BufferAction::Init
            &&& (p.resize_to is Some) == (bytes != current_pixels * 4)
            &&& p.resize_to is Some ==> p.resize_to->0 == bytes && p.resample == Some(
                u.total_samples,
            )
            &&& p.resize_to is None ==> p.resample is None
        }),
{
}

/// The counts written into the uniforms before a dispatch: a list that is created or
/// updated counts its new length, a deleted one counts zero, and only a kept one keeps
/// the count already in the uniforms `u`.
pub proof fn lemma_upload_counts_follow_the_lists(c: ConfigChanges, u: UniformsFacts)
    ensures
        ({
            let p = planned_upload(c, u);
            &&& (c.spheres matches Change::Create(v) ==> v@.len() <= u32::MAX ==> p.spheres_count
                == v@.len())
            &&& (c.spheres matches Change::Update(v) ==> v@.len() <= u32::MAX ==> p.spheres_count
                == v@.len())
            &&& (c.spheres is Delete ==> p.spheres_count == 0)
            &&& (c.spheres is Keep ==> p.spheres_count == u.spheres_count)
            &&& (c.bvh_nodes matches Change::Create(n) ==> n <= u32::MAX ==> p.bvh_node_count == n)
            &&& (c.bvh_nodes matches Change::Update(n) ==> n <= u32::MAX ==> p.bvh_node_count == n)
            &&& (c.bvh_nodes is Delete ==> p.bvh_node_count == 0)
            &&& (c.bvh_nodes is Keep ==> p.bvh_node_count == u.bvh_node_count)
            &&& (c.bvh_triangles matches Change::Create(n) ==> n <= u32::MAX ==> p.bvh_triangle_count
                == n)
            &&& (c.bvh_triangles matches Change::Update(n) ==> n <= u32::MAX ==> p.bvh_triangle_count
                == n)
            &&& (c.bvh_triangles is Delete ==> p.bvh_triangle_count == 0)
            &&& (c.bvh_triangles is Keep ==> p.bvh_triangle_count == u.bvh_triangle_count)
        }),
{
}

/// What is in force for a resource once `incoming` is applied on top of `current`:
/// a `Keep` leaves the earlier resource in force.
pub open spec fn in_force<T>(current: Change<T>, incoming: Change<T>) -> Change<T> {
    if incoming is Keep {
        current
    } else {
        incoming
    }
}

/// The resource in force once `incoming` is applied on top of `current`; an engine
/// stores its uniforms this way, so that a `Keep` leaves the earlier ones in force.
pub fn keep_in_force<T>(current: Change<T>, incoming: Change<T>) -> (r: Change<T>)
    ensures
        r == in_force(current, incoming),
{
    match incoming {
        Change::Keep => current,
        other => other,
    }
}

/// An engine always has uniforms in force: the first accepted configuration creates
/// them, and every later accepted one updates them or keeps the earlier ones (whose
/// size then stays the same).
pub proof fn lemma_uniforms_stay_in_force(
    initialized: bool,
    current_pixels: u64,
    current: Change<UniformsFacts>,
    c: ConfigChanges,
)
    requires
        initialized ==> (current is Create || current is Update),
        planned_update(initialized, current_pixels, c) is Ok,
    ensures
        in_force(current, c.uniforms) is Create || in_force(current, c.uniforms) is Update,
        c.uniforms is Keep ==> in_force(current, c.uniforms) == current,
{
}

/// Byte size of an RGBA8 image.
pub fn image_byte_size(width: u32, height: u32) -> (r: u64)
    requires
        image_bytes(width as int, height as int) <= u64::MAX,
    ensures
        r == image_bytes(width as int, height as int),
{
    proof {
        assert((width as int) * (height as int) <= (width as int) * (height as int) * 4)
            by (nonlinear_arith);
    }
    (width as u64) * (height as u64) * 4
}

fn first_action_of<T>(c: &Change<T>) -> (r: BufferAction)
    ensures
        r == first_action(*c),
{
    match c {
        Change::Create(_) => BufferAction::Init,
        _ => BufferAction::Leave,
    }
}

fn later_action_of<T>(c: &Change<T>) -> (r: BufferAction)
    ensures
        r == later_action(*c),
{
    match c {
        Change::Keep | Change::Create(_) => BufferAction::Leave,
        Change::Update(_) => BufferAction::Update,
        Change::Delete => BufferAction::Delete,
    }
}

fn later_bvh_action_of<T>(c: &Change<T>) -> (r: BufferAction)
    ensures
        r == later_bvh_action(*c),
{
    match c {
        Change::Keep => BufferAction::Leave,
        Change::Update(_) | Change::Create(_) => BufferAction::Update,
        Change::Delete => BufferAction::Delete,
    }
}

/// Decides what an engine does with its buffers for configuration `c`.
///
/// Before the first render (`initialized` false) the configuration must create
/// every resource but the BVH buffers; afterwards it must pass [`Validate`].
/// `current_pixels` is the pixel count of the engine's current image; when the new
/// configuration changes the image byte size, the output buffers are resized and the
/// pass bookkeeping is reset to the new sample count.
pub fn plan_update(initialized: bool, current_pixels: u64, c: &ConfigChanges) -> (r: Result<
    UpdatePlan,
    RenderConfigBuilderError,
>)
    requires
        computes_sizes(initialized, *c) ==> sizes_fit(*c, current_pixels),
        initialized ==> c.validation_supported(),
    ensures
        r == planned_update(initialized, current_pixels, *c),
{
    if !initialized {
        match c.validate_init() {
            Err(e) => Err(e),
            Ok(_) => {
                let old_size = current_pixels * 4;
                let u = match &c.uniforms {
                    Change::Create(u) => *u,
                    _ => vstd::pervasive::unreached(),
                };
                let new_size = image_byte_size(u.width, u.height);
                let changed = old_size != new_size;
                Ok(
                    UpdatePlan {
                        uniforms: BufferAction::Init,
                        resize_to: if changed {
                            Some(new_size)
                        } else {
                            None
                        },
                        resample: if changed {
                            Some(u.total_samples)
                        } else {
                            None
                        },
                        spheres: first_action_of(&c.spheres),
                        uvs: first_action_of(&c.uvs),
                        meshes: first_action_of(&c.meshes),
                        lights: first_action_of(&c.lights),
                        bvh_nodes: first_action_of(&c.bvh_nodes),
                        bvh_indices: first_action_of(&c.bvh_indices),
                        bvh_triangles: first_action_of(&c.bvh_triangles),
                        textures: first_action_of(&c.textures),
                    },
                )
            },
        }
    } else {
        match c.validate() {
            Err(e) => Err(e),
            Ok(_) => {
                let (resize_to, resample) = match &c.uniforms {
                    Change::Update(u) => {
                        let old_size = current_pixels * 4;
                        let new_size = image_byte_size(u.width, u.height);
                        (
                            if old_size != new_size {
                                Some(new_size)
                            } else {
                                None
                            },
                            Some(u.total_samples),
                        )
                    },
                    _ => (None, None),
                };
                Ok(
                    UpdatePlan {
                        uniforms: later_action_of(&c.uniforms),
                        resize_to,
                        resample,
                        spheres: later_action_of(&c.spheres),
                        uvs: later_action_of(&c.uvs),
                        meshes: later_action_of(&c.meshes),
                        lights: later_action_of(&c.lights),
                        bvh_nodes: later_bvh_action_of(&c.bvh_nodes),
                        bvh_indices: later_bvh_action_of(&c.bvh_indices),
                        bvh_triangles: later_bvh_action_of(&c.bvh_triangles),
                        textures: later_action_of(&c.textures),
                    },
                )
            },
        }
    }
}

/// Buffer uploads and object counts written to the GPU before a dispatch.
#[derive(Clone, Copy, Debug, PartialEq, Eq, Structural)]
pub struct UploadPlan {
    /// Sphere count written into the uniforms.
    pub spheres_count: u32,
    /// BVH node count written into the uniforms.
    pub bvh_node_count: u32,
    /// BVH triangle count written into the uniforms.
    pub bvh_triangle_count: u32,
    pub spheres: bool,
    pub uvs: bool,
    pub lights: bool,
    pub bvh_nodes: bool,
    pub bvh_indices: bool,
    pub bvh_triangles: bool,
    pub textures: bool,
}

/// A resource is created or updated, so its data is written to the GPU.
pub open spec fn carries_data<T>(c: Change<T>) -> bool {
    c is Create || c is Update
}

/// The count written for a list given by its flags: its length when it is written,
/// zero when it is deleted, the count set in the uniforms otherwise.
pub open spec fn list_count(c: Change<Vec<bool>>, base: u32) -> u32 {
    match c {
        Change::Create(v) | Change::Update(v) => v@.len() as u32,
        Change::Delete => 0,
        Change::Keep => base,
    }
}

/// The count written for a buffer given by its length.
pub open spec fn len_count(c: Change<usize>, base: u32) -> u32 {
    match c {
        Change::Create(n) | Change::Update(n) => n as u32,
        Change::Delete => 0,
        Change::Keep => base,
    }
}

/// The upload plan for configuration `c`, whose uniforms are `u`.
pub open spec fn planned_upload(c: ConfigChanges, u: UniformsFacts) -> UploadPlan {
    UploadPlan {
        spheres_count: list_count(c.spheres, u.spheres_count),
        bvh_node_count: len_count(c.bvh_nodes, u.bvh_node_count),
        bvh_triangle_count: len_count(c.bvh_triangles, u.bvh_triangle_count),
        spheres: carries_data(c.spheres),
        uvs: carries_data(c.uvs),
        lights: carries_data(c.lights),
        bvh_nodes: carries_data(c.bvh_nodes),
        bvh_indices: carries_data(c.bvh_indices),
        bvh_triangles: carries_data(c.bvh_triangles),
        textures: carries_data(c.textures),
    }
}

fn carries<T>(c: &Change<T>) -> (r: bool)
    ensures
        r == carries_data(*c),
{
    match c {
        Change::Create(_) | Change::Update(_) => true,
        _ => false,
    }
}

/// Decides the counts written into the uniforms and the buffers written before a
/// dispatch, for the engine's current configuration `c`, which must carry uniforms.
pub fn plan_upload(c: &ConfigChanges) -> (r: UploadPlan)
    requires
        carried_uniforms(*c) is Some,
    ensures
        r == planned_upload(*c, carried_uniforms(*c)->0),
{
    let u = match &c.uniforms {
        Change::Create(u) | Change::Update(u) => *u,
        _ => vstd::pervasive::unreached(),
    };
    let spheres_count = match &c.spheres {
        Change::Create(v) | Change::Update(v) => v.len() as u32,
        Change::Delete => 0,
        Change::Keep => u.spheres_count,
    };
    let bvh_node_count = match &c.bvh_nodes {
        Change::Create(n) | Change::Update(n) => *n as u32,
        Change::Delete => 0,
        Change::Keep => u.bvh_node_count,
    };
    let bvh_triangle_count = match &c.bvh_triangles {
        Change::Create(n) | Change::Update(n) => *n as u32,
        Change::Delete => 0,
        Change::Keep => u.bvh_triangle_count,
    };
    UploadPlan {
        spheres_count,
        bvh_node_count,
        bvh_triangle_count,
        spheres: carries(&c.spheres),
        uvs: carries(&c.uvs),
        lights: carries(&c.lights),
        bvh_nodes: carries(&c.bvh_nodes),
        bvh_indices: carries(&c.bvh_indices),
        bvh_triangles: carries(&c.bvh_triangles),
        textures: carries(&c.textures),
    }
}

/// Width of the image of the engine's current configuration `c`.
pub fn get_width(c: &ConfigChanges) -> (r: u32)
    requires
        carried_uniforms(*c) is Some,
    ensures
        r == carried_uniforms(*c)->0.width,
{
    match &c.uniforms {
        Change::Create(u) | Change::Update(u) => u.width,
        _ => vstd::pervasive::unreached(),
    }
}

/// Height of the image of the engine's current configuration `c`.
pub fn get_height(c: &ConfigChanges) -> (r: u32)
    requires
        carried_uniforms(*c) is Some,
    ensures
        r == carried_uniforms(*c)->0.height,
{
    match &c.uniforms {
        Change::Create(u) | Change::Update(u) => u.height,
        _ => vstd::pervasive::unreached(),
    }
}

/// Pixel count of the image of the engine's current configuration `c`.
pub fn get_image_buffer_size(c: &ConfigChanges) -> (r: u64)
    requires
        carried_uniforms(*c) is Some,
    ensures
        r == carried_uniforms(*c)->0.width * carried_uniforms(*c)->0.height,
{
    let w = get_width(c);
    let h = get_height(c);
    proof {
        assert((w as int) * (h as int) <= (u32::MAX as int) * (u32::MAX as int)) by (nonlinear_arith)
            requires w <= u32::MAX, h <= u32::MAX;
    }
    (w as u64) * (h as u64)
}

/// Sample count of the default uniforms.
pub const DEFAULT_TOTAL_SAMPLES: u32 = 500;

/// The sample count an engine starts with for configuration `c`: that of its
/// uniforms, or the default when the uniforms are kept.
pub open spec fn initial_samples(c: ConfigChanges) -> u32 {
    match c.uniforms {
        Change::Create(u) | Change::Update(u) => u.total_samples,
        _ => DEFAULT_TOTAL_SAMPLES,
    }
}

/// The pass bookkeeping an engine starts with for configuration `c`; a
/// configuration that deletes its uniforms cannot start an engine.
pub fn initial_pass_helper(c: &ConfigChanges) -> (r: ProgressiveRenderHelper)
    requires
        !(c.uniforms is Delete),
    ensures
        r.total_samples == initial_samples(*c),
        r.total_passes == ceil_div(initial_samples(*c) as int, SAMPLES_PER_PASS as int),
        r.current_pass == 0,
        r.samples_per_pass == SAMPLES_PER_PASS,
{
    let total_samples = match &c.uniforms {
        Change::Create(u) | Change::Update(u) => u.total_samples,
        _ => DEFAULT_TOTAL_SAMPLES,
    };
    ProgressiveRenderHelper::new(total_samples)
}

/// Sizes and texture contents of the GPU buffers made for a first render.
pub struct InitialBuffers {
    /// Byte size of the output and staging buffers (RGBA8 pixels).
    pub output_bytes: u64,
    /// Byte size of the accumulation buffer (four `f32` per pixel).
    pub accumulation_bytes: u64,
    pub texture_data: Vec<u32>,
    pub texture_info: Vec<TextureInfo>,
}

/// The textures a configuration creates.
pub open spec fn created_textures(c: ConfigChanges) -> Seq<TextureData> {
    match c.textures {
        Change::Create(t) => t@,
        _ => Seq::empty(),
    }
}

/// Computes the GPU buffers for a first render. Every resource but the BVH buffers
/// must be created, and the sizes are computed in 32-bit arithmetic.
pub fn initial_buffers(c: &ConfigChanges) -> (r: InitialBuffers)
    requires
        init_verdict(*c) is Ok,
        carried_uniforms(*c)->0.width * carried_uniforms(*c)->0.height * 16 <= u32::MAX,
        bytes_before(created_textures(*c), created_textures(*c).len() as int) <= u32::MAX,
    ensures
        r.output_bytes == carried_uniforms(*c)->0.width * carried_uniforms(*c)->0.height * 4,
        r.accumulation_bytes == carried_uniforms(*c)->0.width * carried_uniforms(*c)->0.height
            * 16,
        r.texture_data@ == flattened(created_textures(*c)),
        r.texture_info@.len() == created_textures(*c).len(),
        forall|i: int|
            0 <= i < created_textures(*c).len() ==> #[trigger] r.texture_info@[i] == info_for(
                created_textures(*c),
                i,
            ),
{
    let w = get_width(c);
    let h = get_height(c);
    proof {
        assert((w as int) * (h as int) <= (w as int) * (h as int) * 16) by (nonlinear_arith);
    }
    let output_bytes = (w * h * 4) as u64;
    let accumulation_bytes = (w * h * 16) as u64;
    let (texture_data, texture_info) = match &c.textures {
        Change::Create(t) => process_textures(t.as_slice()),
        _ => (Vec::new(), Vec::new()),
    };
    InitialBuffers { output_bytes, accumulation_bytes, texture_data, texture_info }
}

/// Position of channel `k` of pixel `(x, y)` in a row-major RGBA8 image of width `w`.
pub open spec fn channel_index(w: int, y: int, x: int, k: int) -> int {
    (y * w + x) * 4 + k
}

/// Channel `k` of output pixel `(x, y)` of [`mirror_rows`]: the pixel at the mirrored
/// position `(w - 1 - x, y)` of `data`, with an opaque alpha channel.
pub open spec fn mirrored_channel(data: Seq<u8>, w: int, y: int, x: int, k: int) -> u8 {
    if k == 3 {
        255
    } else {
        data[channel_index(w, y, w - 1 - x, k)]
    }
}

proof fn lemma_channel_bounds(w: int, h: int, y: int, x: int, k: int)
    requires
        0 <= y < h,
        0 <= x < w,
        0 <= k < 4,
    ensures
        0 <= channel_index(w, y, x, k) < w * h * 4,
        channel_index(w, y, x, k) == (y * w + x) * 4 + k,
{
    assert(y * w + x < (y + 1) * w) by (nonlinear_arith)
        requires x < w;
    assert((y + 1) * w <= h * w) by (nonlinear_arith)
        requires y + 1 <= h, 0 <= w;
    assert(0 <= y * w) by (nonlinear_arith)
        requires 0 <= y, 0 <= w;
    assert(w * h * 4 == (h * w) * 4) by (nonlinear_arith);
}

/// The displayed image shows each row left to right as the GPU wrote it right to
/// left: the first pixel of a row takes the colour of the row's last read-back pixel
/// and the last takes that of the first, and every pixel is opaque.
pub proof fn lemma_mirror_swaps_row_ends(data: Seq<u8>, w: int, y: int, k: int)
    requires
        w >= 1,
        y >= 0,
        0 <= k < 3,
    ensures
        mirrored_channel(data, w, y, 0, k) == data[y * w * 4 + (w - 1) * 4 + k],
        mirrored_channel(data, w, y, w - 1, k) == data[y * w * 4 + k],
        mirrored_channel(data, w, y, 0, 3) == 255,
        mirrored_channel(data, w, y, w - 1, 3) == 255,
{
    assert((y * w + (w - 1)) * 4 + k == y * w * 4 + (w - 1) * 4 + k) by (nonlinear_arith);
    assert((y * w + 0) * 4 + k == y * w * 4 + k) by (nonlinear_arith);
}

/// Turns the RGBA8 pixels read back from the GPU into the displayed image: each row
/// is mirrored horizontally and every alpha channel is set to 255.
pub fn mirror_rows(data: &[u8], width: usize, height: usize) -> (r: Vec<u8>)
    requires
        width * height * 4 <= data@.len(),
    ensures
        r@.len() == width * height * 4,
        forall|y: int, x: int, k: int|
            0 <= y < height && 0 <= x < width && 0 <= k < 4 ==> #[trigger] r@[channel_index(
                width as int,
                y,
                x,
                k,
            )] == mirrored_channel(data@, width as int, y, x, k),
{
    let ghost w = width as int;
    let ghost h = height as int;
    let mut result: Vec<u8> = Vec::new();
    let mut y: usize = 0;
    proof {
        assert(0 * w * 4 == 0) by (nonlinear_arith);
    }
    while y < height
        invariant
            w == width,
            h == height,
            width * height * 4 <= data@.len(),
            y <= height,
            result@.len() == y * w * 4,
            forall|yy: int, x: int, k: int|
                0 <= yy < y && 0 <= x < w && 0 <= k < 4 ==> #[trigger] result@[channel_index(
                    w,
                    yy,
                    x,
                    k,
                )] == mirrored_channel(data@, w, yy, x, k),
        decreases height - y,
    {
        let mut j: usize = 0;
        while j < width
            invariant
                w == width,
                h == height,
                width * height * 4 <= data@.len(),
                y < height,
                j <= width,
                result@.len() == (y * w + j) * 4,
                forall|yy: int, x: int, k: int|
                    (0 <= yy < y && 0 <= x < w && 0 <= k < 4) || (yy == y && 0 <= x < j && 0
                        <= k < 4) ==> #[trigger] result@[channel_index(w, yy, x, k)]
                        == mirrored_channel(data@, w, yy, x, k),
            decreases width - j,
        {
            let ghost before = result@;
            let src = width - 1 - j;
            proof {
                lemma_channel_bounds(w, h, y as int, src as int, 0);
                lemma_channel_bounds(w, h, y as int, src as int, 2);
                lemma_channel_bounds(w, h, y as int, j as int, 3);
            }
            let n = data.len();
            proof {
                assert((y as int) * (w) + (src as int) < n) by (nonlinear_arith)
                    requires
                        ((y as int) * w + (src as int)) * 4 + 2 < n,
                        0 <= (y as int) * w + (src as int);
                assert(0 <= (y as int) * w) by (nonlinear_arith)
                    requires 0 <= y, 0 <= w;
            }
            let base = (y * width + src) * 4;
            result.push(data[base]);
            result.push(data[base + 1]);
            result.push(data[base + 2]);
            result.push(255u8);
            proof {
                assert forall|yy: int, x: int, k: int|
                    (0 <= yy < y && 0 <= x < w && 0 <= k < 4) || (yy == y && 0 <= x < j + 1 && 0
                        <= k < 4) implies #[trigger] result@[channel_index(w, yy, x, k)]
                    == mirrored_channel(data@, w, yy, x, k) by {
                    lemma_channel_bounds(w, h, yy, x, k);
                    if yy < y {
                        assert(channel_index(w, yy, x, k) < (y * w) * 4) by (nonlinear_arith)
                            requires
                                yy < y,
                                0 <= x < w,
                                0 <= k < 4,
                                channel_index(w, yy, x, k) == (yy * w + x) * 4 + k;
                        assert(result@[channel_index(w, yy, x, k)] == before[channel_index(
                            w,
                            yy,
                            x,
                            k,
                        )]);
                    } else if x < j {
                        assert(result@[channel_index(w, yy, x, k)] == before[channel_index(
                            w,
                            yy,
                            x,
                            k,
                        )]);
                    } else {
                        assert(channel_index(w, yy, x, k) == before.len() + k);
                        assert(channel_index(w, y as int, src as int, k) == base + k);
                    }
                }
            }
            j = j + 1;
        }
        proof {
            assert((y * w + w) * 4 == (y + 1) * w * 4) by (nonlinear_arith);
        }
        y = y + 1;
    }
    proof {
        assert(h * w * 4 == w * h * 4) by (nonlinear_arith);
    }
    result
}

} // verus!
