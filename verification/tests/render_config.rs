use render_baby::gpu_plan::{
    get_height, get_image_buffer_size, get_width, image_byte_size, initial_buffers,
    initial_pass_helper, keep_in_force, mirror_rows,
    plan_update, plan_upload, BufferAction, UpdatePlan,
};
use render_baby::render_config::{
    Change, ConfigChanges, RenderConfig, RenderConfigBuilder, RenderConfigBuilderError,
    UniformsFacts, Validate, ValidateInit,
};
use render_baby::texture::TextureData;

fn facts(width: u32, height: u32) -> UniformsFacts {
    UniformsFacts {
        width,
        height,
        total_samples: 500,
        spheres_count: 9,
        bvh_node_count: 8,
        bvh_triangle_count: 7,
        pane_distance_in_range: true,
        pane_width_in_range: true,
        camera_dir_is_zero: false,
    }
}

fn all_create() -> ConfigChanges {
    RenderConfig {
        uniforms: Change::Create(facts(400, 300)),
        spheres: Change::Create(vec![true, true]),
        uvs: Change::Create(4),
        meshes: Change::Create(1),
        lights: Change::Create(vec![true]),
        bvh_nodes: Change::Keep,
        bvh_indices: Change::Keep,
        bvh_triangles: Change::Keep,
        textures: Change::Create(vec![TextureData::new(1, 2, vec![5, 6])]),
    }
}

fn all_keep() -> ConfigChanges {
    RenderConfig::builder().build()
}

#[test]
fn builder_defaults_to_keep() {
    let c: ConfigChanges = RenderConfig::builder().spheres_create(vec![true]).build();
    assert!(matches!(c.uniforms, Change::Keep));
    assert!(matches!(c.spheres, Change::Create(_)));
    assert!(matches!(c.textures, Change::Keep));
    assert!(matches!(c.bvh_triangles, Change::Keep));
}

#[test]
fn builder_methods_pick_variants() {
    let b: RenderConfigBuilder<UniformsFacts, Vec<bool>, usize, usize, Vec<bool>, usize, usize, usize, Vec<TextureData>> =
        RenderConfigBuilder::new()
            .uniforms(facts(1, 1))
            .uvs_delete()
            .meshes_no_change()
            .lights(vec![false])
            .bvh_nodes_create(3)
            .bvh_indices(4)
            .bvh_triangles_delete()
            .textures_no_change();
    let c = b.build();
    assert!(matches!(c.uniforms, Change::Update(_)));
    assert!(matches!(c.uvs, Change::Delete));
    assert!(matches!(c.meshes, Change::Keep));
    assert!(matches!(c.lights, Change::Update(_)));
    assert!(matches!(c.bvh_nodes, Change::Create(3)));
    assert!(matches!(c.bvh_indices, Change::Update(4)));
    assert!(matches!(c.bvh_triangles, Change::Delete));
}

#[test]
fn later_setter_wins() {
    let c: ConfigChanges = RenderConfig::builder().spheres(vec![true]).spheres_delete().build();
    assert!(matches!(c.spheres, Change::Delete));
}

#[test]
fn validate_init_accepts_all_create() {
    assert!(all_create().validate_init().is_ok());
}

#[test]
fn validate_init_reports_first_missing_create() {
    let mut c = all_create();
    c.uniforms = Change::Keep;
    assert_eq!(c.validate_init().err(), Some(RenderConfigBuilderError::InvalidUniforms));
    let mut c = all_create();
    c.spheres = Change::Update(vec![]);
    assert_eq!(c.validate_init().err(), Some(RenderConfigBuilderError::InvalidSpheres));
    let mut c = all_create();
    c.uvs = Change::Delete;
    assert_eq!(c.validate_init().err(), Some(RenderConfigBuilderError::InvalidUVs));
    let mut c = all_create();
    c.meshes = Change::Keep;
    assert_eq!(c.validate_init().err(), Some(RenderConfigBuilderError::InvalidMeshes));
    let mut c = all_create();
    c.lights = Change::Keep;
    assert_eq!(c.validate_init().err(), Some(RenderConfigBuilderError::InvalidLights));
    let mut c = all_create();
    c.textures = Change::Keep;
    assert_eq!(c.validate_init().err(), Some(RenderConfigBuilderError::InvalidTextures));
}

#[test]
fn validate_accepts_keep_everything() {
    assert!(all_keep().validate().is_ok());
}

#[test]
fn validate_refuses_create_after_first_render() {
    assert_eq!(all_create().validate().err(), Some(RenderConfigBuilderError::InvalidUniforms));
    let c: ConfigChanges = RenderConfig::builder().spheres_create(vec![true]).build();
    assert_eq!(c.validate().err(), Some(RenderConfigBuilderError::InvalidSpheres));
    let c: ConfigChanges = RenderConfig::builder().uvs_create(2).build();
    assert_eq!(c.validate().err(), Some(RenderConfigBuilderError::InvalidUVs));
    let c: ConfigChanges = RenderConfig::builder().meshes_create(1).build();
    assert_eq!(c.validate().err(), Some(RenderConfigBuilderError::InvalidMeshes));
    let c: ConfigChanges = RenderConfig::builder().lights_create(vec![true]).build();
    assert_eq!(c.validate().err(), Some(RenderConfigBuilderError::InvalidLights));
    let c: ConfigChanges = RenderConfig::builder().textures_create(vec![]).build();
    assert_eq!(c.validate().err(), Some(RenderConfigBuilderError::InvalidTextures));
    // the BVH buffers may be given anew: the engine takes them as an update
    let c: ConfigChanges = RenderConfig::builder().bvh_nodes_create(3).build();
    assert!(c.validate().is_ok());
}

#[test]
fn validate_reports_each_error() {
    let mut u = facts(10, 10);
    u.pane_distance_in_range = false;
    let c: ConfigChanges = RenderConfig::builder().uniforms(u).build();
    assert_eq!(c.validate().err(), Some(RenderConfigBuilderError::PaneDistanceOutOfBounds));
    let mut u = facts(10, 10);
    u.pane_width_in_range = false;
    let c: ConfigChanges = RenderConfig::builder().uniforms(u).build();
    assert_eq!(c.validate().err(), Some(RenderConfigBuilderError::PaneWidthOutOfBounds));
    let mut u = facts(10, 10);
    u.camera_dir_is_zero = true;
    let c: ConfigChanges = RenderConfig::builder().uniforms(u).build();
    assert_eq!(c.validate().err(), Some(RenderConfigBuilderError::InvalidCameraDirection));
    let c: ConfigChanges = RenderConfig::builder().uniforms_delete().build();
    assert_eq!(c.validate().err(), Some(RenderConfigBuilderError::CannotDeleteNonexistent));
    let c: ConfigChanges = RenderConfig::builder().spheres(vec![true, false]).build();
    assert_eq!(c.validate().err(), Some(RenderConfigBuilderError::InvalidSpheres));
    let c: ConfigChanges = RenderConfig::builder().uvs(3).build();
    assert_eq!(c.validate().err(), Some(RenderConfigBuilderError::InvalidUVs));
    let c: ConfigChanges = RenderConfig::builder().lights(vec![false]).build();
    assert_eq!(c.validate().err(), Some(RenderConfigBuilderError::InvalidLights));
    // deleting spheres is allowed
    let c: ConfigChanges = RenderConfig::builder().spheres_delete().build();
    assert!(c.validate().is_ok());
}

#[test]
fn validate_checks_uniforms_before_spheres() {
    let mut u = facts(10, 10);
    u.camera_dir_is_zero = true;
    let c: ConfigChanges = RenderConfig::builder().uniforms(u).spheres(vec![false]).build();
    assert_eq!(c.validate().err(), Some(RenderConfigBuilderError::InvalidCameraDirection));
}

#[test]
fn error_messages() {
    assert_eq!(RenderConfigBuilderError::PaneDistanceOutOfBounds.message(), "Pane-Distance is out of bounds");
    assert_eq!(RenderConfigBuilderError::PaneWidthOutOfBounds.message(), "Pane-Distance is out of bounds");
    assert_eq!(RenderConfigBuilderError::InvalidTextures.message(), "Invalid Textures");
    assert_eq!(RenderConfigBuilderError::CannotDeleteNonexistent.message(), "Cannot delete none existent");
}

#[test]
fn first_render_plan_inits_created_buffers() {
    let plan = plan_update(false, 400 * 300, &all_create()).unwrap();
    assert_eq!(plan.uniforms, BufferAction::Init);
    assert_eq!(plan.resize_to, None);
    assert_eq!(plan.resample, None);
    assert_eq!(plan.spheres, BufferAction::Init);
    assert_eq!(plan.textures, BufferAction::Init);
    assert_eq!(plan.bvh_nodes, BufferAction::Leave);
}

#[test]
fn first_render_plan_resizes_on_new_resolution() {
    let plan = plan_update(false, 100, &all_create()).unwrap();
    assert_eq!(plan.resize_to, Some(400 * 300 * 4));
    assert_eq!(plan.resample, Some(500));
}

#[test]
fn first_render_plan_refuses_missing_create() {
    assert_eq!(plan_update(false, 100, &all_keep()), Err(RenderConfigBuilderError::InvalidUniforms));
}

#[test]
fn later_plan_follows_changes() {
    let c: ConfigChanges = RenderConfig::builder()
        .uniforms(facts(2, 2))
        .spheres(vec![true])
        .uvs(2)
        .meshes_delete()
        .bvh_nodes_create(5)
        .build();
    let plan = plan_update(true, 4, &c).unwrap();
    assert_eq!(
        plan,
        UpdatePlan {
            uniforms: BufferAction::Update,
            resize_to: None,
            resample: Some(500),
            spheres: BufferAction::Update,
            uvs: BufferAction::Update,
            meshes: BufferAction::Delete,
            lights: BufferAction::Leave,
            bvh_nodes: BufferAction::Update,
            bvh_indices: BufferAction::Leave,
            bvh_triangles: BufferAction::Leave,
            textures: BufferAction::Leave,
        }
    );
    let plan = plan_update(true, 5, &c).unwrap();
    assert_eq!(plan.resize_to, Some(16));
}

#[test]
fn keep_everything_plans_nothing() {
    let plan = plan_update(true, 12, &all_keep()).unwrap();
    assert_eq!(plan.uniforms, BufferAction::Leave);
    assert_eq!(plan.resize_to, None);
    assert_eq!(plan.resample, None);
    assert_eq!(plan.textures, BufferAction::Leave);
}

#[test]
fn later_plan_refuses_invalid_config() {
    let c: ConfigChanges = RenderConfig::builder().uvs(1).build();
    assert_eq!(plan_update(true, 12, &c), Err(RenderConfigBuilderError::InvalidUVs));
    let c: ConfigChanges = RenderConfig::builder().spheres_create(vec![true]).build();
    assert_eq!(plan_update(true, 12, &c), Err(RenderConfigBuilderError::InvalidSpheres));
}

#[test]
fn kept_uniforms_stay_in_force() {
    let current: Change<u32> = Change::Update(7);
    assert!(matches!(keep_in_force(current, Change::Keep), Change::Update(7)));
    assert!(matches!(keep_in_force(Change::Create(1u32), Change::Update(2)), Change::Update(2)));
}

#[test]
fn upload_plan_counts() {
    let c = all_create();
    let p = plan_upload(&c);
    assert_eq!(p.spheres_count, 2);
    assert_eq!(p.bvh_node_count, 8);
    assert_eq!(p.bvh_triangle_count, 7);
    assert!(p.spheres && p.uvs && p.lights && p.textures);
    assert!(!p.bvh_nodes && !p.bvh_indices && !p.bvh_triangles);
    let d: ConfigChanges = RenderConfig::builder()
        .uniforms(facts(1, 1))
        .spheres_delete()
        .bvh_nodes(3)
        .bvh_triangles_delete()
        .build();
    let p = plan_upload(&d);
    assert_eq!(p.spheres_count, 0);
    assert_eq!(p.bvh_node_count, 3);
    assert_eq!(p.bvh_triangle_count, 0);
    assert!(!p.spheres && p.bvh_nodes);
}

#[test]
fn image_sizes() {
    let c = all_create();
    assert_eq!(get_width(&c), 400);
    assert_eq!(get_height(&c), 300);
    assert_eq!(get_image_buffer_size(&c), 120_000);
    assert_eq!(image_byte_size(400, 300), 480_000);
    let b = initial_buffers(&c);
    assert_eq!(b.output_bytes, 480_000);
    assert_eq!(b.accumulation_bytes, 1_920_000);
    assert_eq!(b.texture_data, vec![5, 6]);
    assert_eq!(b.texture_info.len(), 1);
    assert_eq!(b.texture_info[0].offset, 0);
    assert_eq!(b.texture_info[0].height, 2);
}

#[test]
fn mirror_rows_flips_rows_and_sets_alpha() {
    // 2x2 image, pixels numbered by position
    let data: Vec<u8> = vec![
        1, 2, 3, 4, 5, 6, 7, 8, // row 0
        9, 10, 11, 12, 13, 14, 15, 16, // row 1
    ];
    let out = mirror_rows(&data, 2, 2);
    assert_eq!(out, vec![5, 6, 7, 255, 1, 2, 3, 255, 13, 14, 15, 255, 9, 10, 11, 255]);
    assert!(mirror_rows(&data, 0, 5).is_empty());
}

#[test]
fn initial_helper_uses_uniform_samples_or_default() {
    let h = initial_pass_helper(&all_create());
    assert_eq!(h.total_samples, 500);
    let mut u = facts(1, 1);
    u.total_samples = 7;
    let c: ConfigChanges = RenderConfig::builder().uniforms(u).build();
    assert_eq!(initial_pass_helper(&c).total_passes, 7);
    assert_eq!(initial_pass_helper(&all_keep()).total_passes, 500);
}
