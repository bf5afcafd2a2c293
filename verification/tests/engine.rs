//! End-to-end tests of the rendering core: mesh validation, clear-state
//! semantics, attribute checking, the deferred pipeline, and instancing.

use render_core::camera::Camera;
use render_core::command::UniformName;
use render_core::context::Context;
use render_core::cpu_mesh::CpuMesh;
use render_core::cpu_mesh::Indices;
use render_core::deferred_pipeline::DebugType;
use render_core::deferred_pipeline::DeferredPipeline;
use render_core::error::Attribute;
use render_core::error::CoreError;
use render_core::error::ValidationKind;
use render_core::instanced_model::InstancedModel;
use render_core::light::DirectionalLight;
use render_core::light::Lights;
use render_core::material::ColorMaterial;
use render_core::material::DepthMaterial;
use render_core::material::ForwardMaterial;
use render_core::material::Material;
use render_core::math::Aabb;
use render_core::math::Mat4;
use render_core::math::Vec3;
use render_core::mesh::Mesh;
use render_core::model::Model;
use render_core::model::ShadedGeometry;
use render_core::render_states::ClearState;
use render_core::render_states::Viewport;
use render_core::render_states::WriteMask;
use render_core::render_states::DEPTH_FAR;
use render_core::render_target::copy_from;
use render_core::render_target::RenderTargetArray;
use render_core::shader::shaded_fragment_shader;
use render_core::shader::LightingModel;
use render_core::shader::Program;
use render_core::texture::ColorTargetTexture2DArray;
use render_core::texture::DepthTargetTexture2DArray;

fn triangle_positions() -> Vec<i64> {
    // One triangle: (0,0,0), (4,0,0), (0,4,2).
    vec![0, 0, 0, 4, 0, 0, 0, 4, 2]
}

fn triangle_mesh() -> CpuMesh {
    CpuMesh::from_positions(triangle_positions())
}

fn translation(x: i64, y: i64, z: i64) -> Mat4 {
    Mat4 {
        m00: 1, m01: 0, m02: 0, m03: x,
        m10: 0, m11: 1, m12: 0, m13: y,
        m20: 0, m21: 0, m22: 1, m23: z,
        m30: 0, m31: 0, m32: 0, m33: 1,
    }
}

fn identity_camera(width: u32, height: u32) -> Camera {
    Camera::new(
        Viewport::new_at_origo(width, height),
        Vec3::new(0, 0, 0),
        Mat4::identity(),
        Mat4::identity(),
    )
    .expect("identity camera")
}

fn mesh_with_normals() -> CpuMesh {
    let mut m = triangle_mesh();
    m.normals = Some(vec![0, 0, 1, 0, 0, 1, 0, 0, 1]);
    m
}

#[test]
fn valid_mesh_constructs_and_aabb_contains_vertices() {
    let context = Context::new();
    let mut cpu = triangle_mesh();
    cpu.indices = Some(Indices::U8(vec![0, 1, 2]));
    let mesh = Mesh::new(&context, &cpu).expect("valid mesh");
    let aabb = mesh.aabb();
    assert_eq!(aabb.min, Vec3::new(0, 0, 0));
    assert_eq!(aabb.max, Vec3::new(4, 4, 2));
    for v in [Vec3::new(0, 0, 0), Vec3::new(4, 0, 0), Vec3::new(0, 4, 2)] {
        assert!(aabb.contains(v));
    }
}

#[test]
fn mesh_with_out_of_range_index_is_rejected() {
    let context = Context::new();
    let mut cpu = triangle_mesh();
    cpu.indices = Some(Indices::U16(vec![0, 1, 3]));
    let r = Mesh::new(&context, &cpu);
    assert_eq!(
        r.err(),
        Some(CoreError::Validation(ValidationKind::IndexOutOfRange))
    );
}

#[test]
fn mismatched_normals_fail_validation() {
    let context = Context::new();
    let mut cpu = triangle_mesh();
    cpu.normals = Some(vec![0, 0, 1]);
    let r = Mesh::new(&context, &cpu);
    assert_eq!(
        r.err(),
        Some(CoreError::Validation(ValidationKind::MismatchedNormals))
    );
}

#[test]
fn mismatched_uvs_and_colors_fail_validation() {
    let mut cpu = triangle_mesh();
    cpu.uvs = Some(vec![0, 0, 1]);
    assert_eq!(
        cpu.validate().err(),
        Some(CoreError::Validation(ValidationKind::MismatchedUvs))
    );
    let mut cpu2 = triangle_mesh();
    cpu2.colors = Some(vec![255; 5]);
    assert_eq!(
        cpu2.validate().err(),
        Some(CoreError::Validation(ValidationKind::MismatchedColors))
    );
}

#[test]
fn empty_and_ragged_positions_fail_validation() {
    let empty = CpuMesh::from_positions(Vec::new());
    assert_eq!(
        empty.validate().err(),
        Some(CoreError::Validation(ValidationKind::EmptyPositions))
    );
    let ragged = CpuMesh::from_positions(vec![1, 2]);
    assert_eq!(
        ragged.validate().err(),
        Some(CoreError::Validation(ValidationKind::PositionCountNotTriples))
    );
    let two_vertices = CpuMesh::from_positions(vec![0, 0, 0, 1, 1, 1]);
    assert_eq!(
        two_vertices.validate().err(),
        Some(CoreError::Validation(ValidationKind::VertexCountNotTriangles))
    );
    let huge = CpuMesh::from_positions(vec![1 << 40, 0, 0, 0, 0, 0, 0, 0, 0]);
    assert_eq!(
        huge.validate().err(),
        Some(CoreError::Validation(ValidationKind::PositionOutOfRange))
    );
}

#[test]
fn texture_allocation_rejects_bad_dimensions() {
    let context = Context::new();
    assert_eq!(
        ColorTargetTexture2DArray::new(&context, 0, 4, 2, false).err(),
        Some(CoreError::ResourceCreation)
    );
    assert_eq!(
        DepthTargetTexture2DArray::new(&context, 4, 5000, 1).err(),
        Some(CoreError::ResourceCreation)
    );
}

#[test]
fn empty_shader_source_fails_compilation() {
    let r = Program::compile(String::new(), String::from("void main() {}"));
    assert_eq!(r.err(), Some(CoreError::ShaderCompilation));
}

#[test]
fn write_with_clear_none_preserves_pixels() {
    let context = Context::new();
    let color = ColorTargetTexture2DArray::new(&context, 2, 2, 1, false).unwrap();
    let depth = DepthTargetTexture2DArray::new(&context, 2, 2, 1).unwrap();
    let mut target = RenderTargetArray::new(&context, color, depth).unwrap();
    // First paint a known state everywhere.
    target
        .write(&vec![0], 0, ClearState::color_and_depth(10, 20, 30, 40, 77), &Vec::new())
        .unwrap();
    // A write that clears nothing and draws nothing must change nothing.
    target.write(&vec![0], 0, ClearState::none(), &Vec::new()).unwrap();
    let (color, depth) = target.into_textures();
    let color = color.unwrap();
    let depth = depth.unwrap();
    for y in 0..2 {
        for x in 0..2 {
            let p = color.pixel_at(0, y, x);
            assert_eq!((p.r, p.g, p.b, p.a), (10, 20, 30, 40));
            assert_eq!(depth.pixel_at(0, y, x), 77);
        }
    }
}

#[test]
fn write_with_full_clear_sets_every_pixel_exactly() {
    let context = Context::new();
    let color = ColorTargetTexture2DArray::new(&context, 3, 2, 2, false).unwrap();
    let depth = DepthTargetTexture2DArray::new(&context, 3, 2, 1).unwrap();
    let mut target = RenderTargetArray::new(&context, color, depth).unwrap();
    target
        .write(&vec![0, 1], 0, ClearState::color_and_depth(1, 2, 3, 4, 99), &Vec::new())
        .unwrap();
    let (color, depth) = target.into_textures();
    let color = color.unwrap();
    let depth = depth.unwrap();
    for layer in 0..2 {
        for y in 0..2 {
            for x in 0..3 {
                let p = color.pixel_at(layer, y, x);
                assert_eq!((p.r, p.g, p.b, p.a), (1, 2, 3, 4));
            }
        }
    }
    for y in 0..2 {
        for x in 0..3 {
            assert_eq!(depth.pixel_at(0, y, x), 99);
        }
    }
}

#[test]
fn write_to_missing_layer_is_incomplete() {
    let context = Context::new();
    let color = ColorTargetTexture2DArray::new(&context, 2, 2, 1, false).unwrap();
    let mut target = RenderTargetArray::new_color(&context, color).unwrap();
    let r = target.write(&vec![0, 1], 0, ClearState::none(), &Vec::new());
    assert_eq!(r.err(), Some(CoreError::FramebufferIncomplete));
}

#[test]
fn mismatched_attachment_sizes_are_incomplete() {
    let context = Context::new();
    let color = ColorTargetTexture2DArray::new(&context, 2, 2, 1, false).unwrap();
    let depth = DepthTargetTexture2DArray::new(&context, 4, 4, 1).unwrap();
    let mut target = RenderTargetArray::new(&context, color, depth).unwrap();
    let r = target.write(&vec![0], 0, ClearState::none(), &Vec::new());
    assert_eq!(r.err(), Some(CoreError::FramebufferIncomplete));
}

#[test]
fn program_requiring_normals_fails_on_mesh_without_them() {
    let context = Context::new();
    let cpu = triangle_mesh();
    let mesh = Mesh::new(&context, &cpu).unwrap();
    let fragment = String::from("in vec3 nor;\nvoid main() {}\n");
    let vertex = Mesh::vertex_shader_source(&fragment);
    let program = Program::compile(vertex, fragment).unwrap();
    assert!(program.requires_attribute(Attribute::Normal));
    let camera = identity_camera(4, 4);
    let r = mesh.use_attributes(&program, camera.uniform_buffer());
    assert_eq!(r.err(), Some(CoreError::MissingAttribute(Attribute::Normal)));
}

#[test]
fn deferred_render_of_mesh_without_normals_fails_before_any_draw() {
    let context = Context::new();
    let model = Model::new(&context, &triangle_mesh()).unwrap();
    let camera = identity_camera(4, 4);
    let material = Material::default();
    let r = model.render_deferred(&material, &camera, camera.viewport());
    assert_eq!(r.err(), Some(CoreError::MissingAttribute(Attribute::Normal)));
    let mut pipeline = DeferredPipeline::new(&context).unwrap();
    let list = vec![(&model, &material)];
    let r = pipeline.geometry_pass(&camera, &list);
    assert_eq!(r.err(), Some(CoreError::MissingAttribute(Attribute::Normal)));
    // The pass was aborted before the failing geometry drew anything.
    assert_eq!(pipeline.geometry_pass_texture().write_count(), 0);
}

#[test]
fn vertex_shader_source_reflects_sentinels_exactly() {
    let fragment = "in vec3 pos;\nin vec4 col;\nvoid main() {}\n";
    let vs = Mesh::vertex_shader_source(fragment);
    assert_eq!(
        vs,
        "#define USE_POSITIONS\n#define USE_COLORS\nvec3 shared_world_position();\nvoid main() { emit_vertex(); }\n"
    );
    let none = Mesh::vertex_shader_source("void main() {}");
    assert_eq!(
        none,
        "vec3 shared_world_position();\nvoid main() { emit_vertex(); }\n"
    );
    let instanced = InstancedModel::<ColorMaterial>::vertex_shader_source("void main() {}");
    assert_eq!(
        instanced,
        "#define INSTANCED\nvec3 shared_world_position();\nvoid main() { emit_vertex(); }\n"
    );
}

#[test]
fn shaded_fragment_shader_lists_each_light() {
    let source = shaded_fragment_shader(LightingModel::Blinn, 1, 0, 2);
    assert_eq!(
        source,
        "#define BLINN\n#define DIRECTIONAL\n#define POINT\n#define POINT\nuniform sampler2DArray gbuffer;\nuniform sampler2DArray depthMap;\nvoid main() { shade(); }\n"
    );
}

#[test]
fn exact_inverse_of_translation() {
    let t = translation(2, 3, 4);
    let inv = t.inverse_exact().expect("translation inverse");
    assert_eq!(inv, translation(-2, -3, -4));
    // A singular matrix has no inverse.
    let zero = Mat4 {
        m00: 0, m01: 0, m02: 0, m03: 0,
        m10: 0, m11: 0, m12: 0, m13: 0,
        m20: 0, m21: 0, m22: 0, m23: 0,
        m30: 0, m31: 0, m32: 0, m33: 0,
    };
    assert!(zero.inverse_exact().is_none());
}

#[test]
fn camera_carries_exact_view_projection_inverse() {
    let camera = Camera::new(
        Viewport::new_at_origo(8, 8),
        Vec3::new(0, 0, 5),
        translation(-1, 0, 0),
        translation(0, -2, 0),
    )
    .expect("camera");
    assert_eq!(camera.view_projection, translation(-1, -2, 0));
    assert_eq!(camera.view_projection_inverse, translation(1, 2, 0));
}

#[test]
fn frustum_test_keeps_visible_and_culls_outside() {
    let camera = identity_camera(4, 4);
    let near_origin = Aabb {
        min: Vec3::new(0, 0, 0),
        max: Vec3::new(1, 1, 1),
    };
    assert!(camera.in_frustum(&near_origin));
    let far_right = Aabb {
        min: Vec3::new(2, 0, 0),
        max: Vec3::new(3, 1, 1),
    };
    assert!(!camera.in_frustum(&far_right));
    assert!(!camera.in_frustum(&Aabb::empty()));
}

#[test]
fn geometry_pass_renders_kept_geometry_and_culls_moved_one() {
    let context = Context::new();
    let camera = identity_camera(4, 4);
    let material = Material::default();
    let model = Model::new(&context, &mesh_with_normals()).unwrap();
    let mut pipeline = DeferredPipeline::new(&context).unwrap();
    let list = vec![(&model, &material)];
    pipeline.geometry_pass(&camera, &list).unwrap();
    assert_eq!(pipeline.geometry_pass_texture().write_count(), 1);
    assert_eq!(pipeline.geometry_pass_depth_texture_array().write_count(), 1);
    assert_eq!(pipeline.geometry_pass_texture().width(), 4);
    assert_eq!(pipeline.geometry_pass_texture().layer_count(), 2);

    // The same model pushed far outside the frustum is culled.
    let mut moved = Model::new(&context, &mesh_with_normals()).unwrap();
    moved.set_transformation(translation(100, 0, 0));
    let list = vec![(&moved, &material)];
    pipeline.geometry_pass(&camera, &list).unwrap();
    assert_eq!(pipeline.geometry_pass_texture().write_count(), 0);
}

#[test]
fn geometry_pass_twice_gives_identical_buffers() {
    let context = Context::new();
    let camera = identity_camera(3, 3);
    let material = Material::default();
    let model = Model::new(&context, &mesh_with_normals()).unwrap();
    let mut p1 = DeferredPipeline::new(&context).unwrap();
    let mut p2 = DeferredPipeline::new(&context).unwrap();
    let list = vec![(&model, &material)];
    p1.geometry_pass(&camera, &list).unwrap();
    p2.geometry_pass(&camera, &list).unwrap();
    let t1 = p1.geometry_pass_texture();
    let t2 = p2.geometry_pass_texture();
    assert_eq!(t1.write_count(), t2.write_count());
    for layer in 0..2 {
        for y in 0..3 {
            for x in 0..3 {
                assert_eq!(t1.pixel_at(layer, y, x), t2.pixel_at(layer, y, x));
            }
        }
    }
    let d1 = p1.geometry_pass_depth_texture_array();
    let d2 = p2.geometry_pass_depth_texture_array();
    for y in 0..3 {
        for x in 0..3 {
            assert_eq!(d1.pixel_at(0, y, x), d2.pixel_at(0, y, x));
        }
    }
}

#[test]
fn light_pass_without_lights_binds_no_inverse() {
    let context = Context::new();
    let camera = identity_camera(4, 4);
    let mut pipeline = DeferredPipeline::new(&context).unwrap();
    let cmd = pipeline
        .light_pass(&camera, None, &[], &[], &[])
        .unwrap();
    for (name, _) in &cmd.uniforms {
        assert!(!matches!(name, UniformName::ViewProjectionInverse));
    }
    let texture_names: Vec<&UniformName> = cmd.textures.iter().map(|t| &t.0).collect();
    assert!(matches!(texture_names[0], UniformName::GBuffer));
    assert!(matches!(texture_names[1], UniformName::DepthMap));
}

#[test]
fn light_pass_with_a_light_binds_the_inverse_and_caches_programs() {
    let context = Context::new();
    let camera = identity_camera(4, 4);
    let mut pipeline = DeferredPipeline::new(&context).unwrap();
    let light = DirectionalLight {
        color: render_core::command::Color::white(),
        intensity: 1000,
        direction: Vec3::new(0, 0, -1),
    };
    let cmd = pipeline
        .light_pass(&camera, None, &[light], &[], &[])
        .unwrap();
    let mut saw_inverse = false;
    for (name, _) in &cmd.uniforms {
        if matches!(name, UniformName::ViewProjectionInverse) {
            saw_inverse = true;
        }
    }
    assert!(saw_inverse);
    assert_eq!(pipeline.program_map.len(), 1);
    // A second pass with the same light counts reuses the cached program.
    pipeline.light_pass(&camera, None, &[light], &[], &[]).unwrap();
    assert_eq!(pipeline.program_map.len(), 1);
    // Different counts add one more entry; the cache never evicts.
    pipeline.light_pass(&camera, None, &[], &[], &[]).unwrap();
    assert_eq!(pipeline.program_map.len(), 2);
}

#[test]
fn debug_light_pass_uses_the_debug_effect() {
    let context = Context::new();
    let camera = identity_camera(4, 4);
    let mut pipeline = DeferredPipeline::new(&context).unwrap();
    pipeline.debug_type = DebugType::NORMAL;
    let cmd = pipeline.light_pass(&camera, None, &[], &[], &[]).unwrap();
    let mut saw_kind = false;
    for (name, value) in &cmd.uniforms {
        if matches!(name, UniformName::DebugKind) {
            saw_kind = true;
            assert!(matches!(value, render_core::command::UniformValue::IntVal(1)));
        }
    }
    assert!(saw_kind);
    assert_eq!(pipeline.program_map.len(), 0);
}

#[test]
fn instance_buffers_pack_four_scalars_per_row_per_instance() {
    let context = Context::new();
    let transforms = vec![translation(1, 2, 3), translation(4, 5, 6), Mat4::identity()];
    let model = InstancedModel::new(&context, &transforms, &triangle_mesh()).unwrap();
    assert_eq!(model.instance_count, 3);
    assert_eq!(model.instance_buffer1.count(), 12);
    assert_eq!(model.instance_buffer2.count(), 12);
    assert_eq!(model.instance_buffer3.count(), 12);
    assert_eq!(model.transformations(), &transforms);
}

#[test]
fn update_transformations_replaces_the_list_and_buffers() {
    let context = Context::new();
    let transforms = vec![translation(1, 0, 0)];
    let mut model = InstancedModel::new(&context, &transforms, &triangle_mesh()).unwrap();
    let more = vec![
        translation(1, 0, 0),
        translation(0, 1, 0),
        translation(0, 0, 1),
        Mat4::identity(),
    ];
    model.update_transformations(&more);
    assert_eq!(model.instance_count, 4);
    assert_eq!(model.instance_buffer1.count(), 16);
    assert_eq!(model.instance_buffer2.count(), 16);
    assert_eq!(model.instance_buffer3.count(), 16);
    assert_eq!(model.transformations(), &more);
    // The aggregate box covers the instance at (1,0,0): x up to 5.
    assert_eq!(model.aabb().max.x, 5);
}

#[test]
fn instanced_forward_render_draws_all_instances() {
    let context = Context::new();
    let transforms = vec![translation(0, 0, 0), translation(1, 0, 0)];
    let model = InstancedModel::new(&context, &transforms, &triangle_mesh()).unwrap();
    let camera = identity_camera(4, 4);
    let cmd = model.render(&camera, &Lights::none()).unwrap();
    match cmd.geometry {
        render_core::command::DrawGeometry::ArraysInstanced { count, instances } => {
            assert_eq!(count, 3);
            assert_eq!(instances, 2);
        }
        other => panic!("unexpected geometry {:?}", other),
    }
    assert_eq!(cmd.attributes.instance_rows, Some(2));
}

#[test]
fn copy_from_gates_the_write_mask_by_present_sources() {
    let context = Context::new();
    let depth = render_core::texture::DepthTargetTexture2D::new(&context, 2, 2).unwrap();
    let cmd = copy_from(
        &context,
        None,
        Some(&depth),
        Viewport::new_at_origo(2, 2),
        WriteMask::color_and_depth(),
    )
    .unwrap()
    .expect("a copy command");
    assert!(!cmd.states.write_mask.red);
    assert!(!cmd.states.write_mask.alpha);
    assert!(cmd.states.write_mask.depth);
    assert!(copy_from(&context, None, None, Viewport::new_at_origo(2, 2), WriteMask::color_and_depth())
        .unwrap()
        .is_none());
}

#[test]
fn depth_copy_extracts_layer_zero() {
    let context = Context::new();
    let camera = identity_camera(2, 2);
    let mut pipeline = DeferredPipeline::new(&context).unwrap();
    let list: Vec<(&Model<ColorMaterial>, &Material)> = Vec::new();
    pipeline.geometry_pass(&camera, &list).unwrap();
    let depth = pipeline.geometry_pass_depth_texture();
    assert_eq!(depth.width(), 2);
    assert_eq!(depth.height(), 2);
    for y in 0..2 {
        for x in 0..2 {
            assert_eq!(depth.pixel_at(y, x), DEPTH_FAR);
        }
    }
}

#[test]
fn geometry_pass_with_empty_viewport_fails_allocation() {
    let context = Context::new();
    let camera = identity_camera(0, 4);
    let mut pipeline = DeferredPipeline::new(&context).unwrap();
    let list: Vec<(&Model<ColorMaterial>, &Material)> = Vec::new();
    assert_eq!(
        pipeline.geometry_pass(&camera, &list).err(),
        Some(CoreError::ResourceCreation)
    );
    // The pipeline keeps its previous geometry textures on failure.
    assert_eq!(pipeline.geometry_pass_texture().width(), 1);
}

#[test]
fn light_pass_program_source_matches_the_light_counts() {
    let context = Context::new();
    let camera = identity_camera(4, 4);
    let mut pipeline = DeferredPipeline::new(&context).unwrap();
    let light = DirectionalLight {
        color: render_core::command::Color::white(),
        intensity: 1000,
        direction: Vec3::new(0, 0, -1),
    };
    let cmd = pipeline.light_pass(&camera, None, &[light], &[], &[]).unwrap();
    assert_eq!(
        cmd.program.fragment_source,
        shaded_fragment_shader(LightingModel::Blinn, 1, 0, 0)
    );
}

#[test]
fn depth_only_triangle_scenario() {
    // One triangle mesh (3 vertices, no indices, no extra attributes),
    // rendered through a model with a depth material into a target cleared
    // to the far plane.
    let context = Context::new();
    let cpu = triangle_mesh();
    let model = Model::new_with_material(&context, &cpu, DepthMaterial::default()).unwrap();
    let camera = identity_camera(4, 4);
    let cmd = model.render(&camera, &Lights::none()).unwrap();
    // The depth material writes only depth.
    assert_eq!(cmd.states.write_mask, WriteMask::depth_only());
    match cmd.geometry {
        render_core::command::DrawGeometry::Arrays { count } => assert_eq!(count, 3),
        other => panic!("unexpected geometry {:?}", other),
    }
    let depth = DepthTargetTexture2DArray::new(&context, 4, 4, 1).unwrap();
    let mut target = RenderTargetArray::new_depth(&context, depth).unwrap();
    target
        .write(&Vec::new(), 0, ClearState::depth(DEPTH_FAR), &vec![cmd])
        .unwrap();
    let (_, depth) = target.into_textures();
    let depth = depth.unwrap();
    // Exactly one depth-only draw was recorded against the cleared target.
    assert_eq!(depth.write_count(), 1);
    for y in 0..4 {
        for x in 0..4 {
            assert_eq!(depth.pixel_at(0, y, x), DEPTH_FAR);
        }
    }
}

#[test]
fn forward_render_with_vertex_colors_requires_and_binds_them() {
    let context = Context::new();
    let mut cpu = triangle_mesh();
    cpu.colors = Some(vec![255; 12]);
    let model = Model::new(&context, &cpu).unwrap();
    let camera = identity_camera(4, 4);
    let cmd = model.render(&camera, &Lights::none()).unwrap();
    // The color material's source declares vertex colors, so the mesh's
    // color buffer is bound: four bytes per vertex.
    assert_eq!(cmd.attributes.color, Some(3));
    let mut saw_surface_color = false;
    for (name, _) in &cmd.uniforms {
        if matches!(name, UniformName::SurfaceColor) {
            saw_surface_color = true;
        }
    }
    assert!(saw_surface_color);
}

#[test]
fn mesh_set_transformation_updates_normal_matrix() {
    let context = Context::new();
    let mut mesh = Mesh::new(&context, &triangle_mesh()).unwrap();
    assert_eq!(mesh.transformation(), Mat4::identity());
    mesh.set_transformation(translation(3, 0, 0));
    assert_eq!(mesh.transformation(), translation(3, 0, 0));
    // For a translation the inverse transpose is the transposed negative
    // translation.
    let normal = mesh.normal_transformation.expect("normal matrix");
    assert_eq!(normal, translation(-3, 0, 0).transpose());
}

#[test]
fn model_transform_moves_the_bounding_box() {
    let context = Context::new();
    let mut model = Model::new(&context, &triangle_mesh()).unwrap();
    model.set_transformation(translation(10, 0, 0));
    let aabb = model.aabb();
    assert_eq!(aabb.min, Vec3::new(10, 0, 0));
    assert_eq!(aabb.max, Vec3::new(14, 4, 2));
}

#[test]
fn shaded_geometry_exposes_the_model_box() {
    let context = Context::new();
    let model = Model::new(&context, &triangle_mesh()).unwrap();
    let aabb = ShadedGeometry::aabb(&model).expect("a box");
    assert_eq!(aabb.max, Vec3::new(4, 4, 2));
}
