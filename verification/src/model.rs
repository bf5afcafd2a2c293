//! A 3D model: one mesh bound to one material, with its world transform and
//! transform-derived bounding box.

use vstd::prelude::*;
use vstd::string::StringExecFns;

use crate::camera::Camera;
use crate::command::CommandModel;
use crate::command::DrawCommand;
use crate::command::UniformName;
use crate::command::UniformValue;
use crate::command::command_result_matches;
use crate::context::Context;
use crate::cpu_mesh::CpuMesh;
use crate::cpu_mesh::aabb_upto;
use crate::cpu_mesh::lemma_aabb_upto_bounded;
use crate::error::CoreError;
use crate::material::ColorMaterial;
use crate::material::ForwardMaterial;
use crate::material::Material;
use crate::math::Aabb;
use crate::math::BOX_BOUND;
use crate::math::COORD_BOUND;
use crate::math::MAT_BOUND;
use crate::math::Mat3;
use crate::math::Mat4;
use crate::math::aabb_bounded;
use crate::math::aabb_is_empty;
use crate::math::aabb_transform_spec;
use crate::math::mat3_bounded;
use crate::math::mat4_bounded;
use crate::math::mat4_from_2d;
use crate::math::mat4_is_inverse;
use crate::math::mat4_transpose_spec;
use crate::mesh::Mesh;
use crate::mesh::spec_draw;
use crate::mesh::spec_mesh_create;
use crate::mesh::spec_vertex_shader_source;
use crate::render_states::Cull;
use crate::render_states::RenderStates;
use crate::render_states::Viewport;
use crate::shader::spec_compile;

verus! {

/// The capability the deferred geometry pass consumes: a bounding box for
/// culling and a geometry-pass draw.
pub trait ShadedGeometry: Sized {
    /// The bounding box used for frustum culling, when one exists.
    spec fn spec_geometry_aabb(&self) -> Option<Aabb>;

    /// Well-formedness the geometry pass may rely on.
    spec fn spec_geometry_wf(&self) -> bool;

    /// The geometry-pass draw this geometry issues.
    spec fn spec_geometry_pass(&self, camera: &Camera, material: &Material) -> Result<
        CommandModel,
        CoreError,
    >;

    /// The bounding box used for frustum culling.
    fn aabb(&self) -> (r: Option<Aabb>)
        requires
            self.spec_geometry_wf(),
        ensures
            r == self.spec_geometry_aabb(),
            r matches Some(a) ==> (!aabb_is_empty(a) ==> aabb_bounded(a, BOX_BOUND as int)),
    ;

    /// Renders this geometry's surface data into the geometry buffer.
    fn geometry_pass(&self, render_states: RenderStates, camera: &Camera, material: &Material) -> (r:
        Result<DrawCommand, CoreError>)
        requires
            self.spec_geometry_wf(),
            camera.wf(),
        ensures
            command_result_matches(r, self.spec_geometry_pass(camera, material)),
    ;
}

/// A 3D model: a triangle mesh with a forward material.
#[derive(Debug)]
pub struct Model<M: ForwardMaterial> {
    /// The context the model renders through.
    pub context: Context,
    /// The mesh geometry.
    pub mesh: Mesh,
    /// Face culling applied to deferred draws; kept here for older scenes,
    /// newer designs put culling on the material's render state.
    pub cull: Cull,
    /// The bounding box of the transformed mesh.
    pub aabb: Aabb,
    /// The bounding box of the untransformed mesh.
    pub aabb_local: Aabb,
    /// The local-to-world transformation.
    pub transformation: Mat4,
    /// The transpose of the transformation's exact inverse, when one exists.
    pub normal_transformation: Option<Mat4>,
    /// The material applied to the model.
    pub material: M,
}

impl<M: ForwardMaterial> Model<M> {
    /// A model is well formed when its mesh is, its local box is bounded,
    /// its world box fits the transformed range, and its normal matrix is a
    /// true inverse transpose.
    pub open spec fn wf(&self) -> bool {
        &&& self.mesh.wf()
        &&& (!aabb_is_empty(self.aabb_local) ==> aabb_bounded(self.aabb_local, COORD_BOUND as int))
        &&& (!aabb_is_empty(self.aabb) ==> aabb_bounded(self.aabb, BOX_BOUND as int))
        &&& (self.normal_transformation matches Some(n) ==> mat4_is_inverse(
            self.transformation,
            mat4_transpose_spec(n),
        ))
    }

    /// The draw command a forward render of this model issues with the given
    /// material: its program is compiled from the material's fragment source
    /// and the derived vertex source, the material's uniforms come first, and
    /// the mesh contributes its attributes and matrices.
    pub open spec fn spec_render_forward<M2: ForwardMaterial>(
        &self,
        material: &M2,
        camera: &Camera,
        lights: &crate::light::Lights,
    ) -> Result<CommandModel, CoreError> {
        let fs = material.spec_fragment_source(lights, self.mesh.color_buffer is Some);
        let vs = spec_vertex_shader_source(fs);
        match spec_compile(vs, fs) {
            Err(e) => Err(e),
            Ok(p) => match spec_draw(
                self.mesh,
                material.spec_render_states(false),
                p,
                camera.uniform_buffer.spec_data().len() as usize,
                camera.viewport,
                Some(self.transformation),
                self.normal_transformation,
            ) {
                Err(e) => Err(e),
                Ok(cmd) => Ok(
                    CommandModel {
                        uniforms: material.spec_uniforms(camera, lights) + cmd.uniforms,
                        ..cmd
                    },
                ),
            },
        }
    }

    /// The draw command a deferred (geometry pass) render issues: like the
    /// forward one, but with the deferred fragment source, the model's own
    /// culling mode forced, and no lights.
    pub open spec fn spec_render_deferred(
        &self,
        material: &Material,
        camera: &Camera,
        viewport: Viewport,
    ) -> Result<CommandModel, CoreError> {
        let fs = crate::material::spec_deferred_material_source(self.mesh.color_buffer is Some);
        let vs = spec_vertex_shader_source(fs);
        match spec_compile(vs, fs) {
            Err(e) => Err(e),
            Ok(p) => match spec_draw(
                self.mesh,
                RenderStates { cull: self.cull, ..material.spec_render_states_deferred() },
                p,
                camera.uniform_buffer.spec_data().len() as usize,
                viewport,
                Some(self.transformation),
                self.normal_transformation,
            ) {
                Err(e) => Err(e),
                Ok(cmd) => Ok(
                    CommandModel { uniforms: material.spec_uniforms_deferred() + cmd.uniforms, ..cmd },
                ),
            },
        }
    }

    /// Uploads the mesh and builds a model around it with the given
    /// material; the transform starts at the identity.
    pub fn new_with_material(context: &Context, cpu_mesh: &CpuMesh, material: M) -> (r: Result<
        Model<M>,
        CoreError,
    >)
        ensures
            match r {
                Ok(m) => spec_mesh_create(*cpu_mesh) is Ok && {
                    &&& m.wf()
                    &&& m.mesh.position_buffer.spec_data() == cpu_mesh.positions@
                    &&& m.mesh.normal_buffer is Some <==> cpu_mesh.normals is Some
                    &&& m.mesh.uv_buffer is Some <==> cpu_mesh.uvs is Some
                    &&& m.mesh.color_buffer is Some <==> cpu_mesh.colors is Some
                    &&& m.mesh.index_buffer is Some <==> cpu_mesh.indices is Some
                    &&& m.aabb == aabb_upto(
                        cpu_mesh.positions@,
                        (cpu_mesh.positions@.len() as int / 3) as nat,
                    )
                    &&& m.aabb_local == m.aabb
                    &&& m.transformation == Mat4::identity_spec()
                    &&& m.normal_transformation == Some(Mat4::identity_spec())
                    &&& m.cull == Cull::Disabled
                    &&& m.material == material
                },
                Err(e) => spec_mesh_create(*cpu_mesh) == Err::<(), CoreError>(e),
            },
    {
        let mesh = match Mesh::new(context, cpu_mesh) {
            Ok(m) => m,
            Err(e) => {
                return Err(e);
            },
        };
        let aabb = cpu_mesh.compute_aabb();
        proof {
            lemma_aabb_upto_bounded(
                cpu_mesh.positions@,
                (cpu_mesh.positions@.len() as int / 3) as nat,
            );
        }
        Ok(Model {
            context: *context,
            mesh,
            cull: Cull::Disabled,
            aabb,
            aabb_local: aabb,
            transformation: Mat4::identity(),
            normal_transformation: Some(Mat4::identity()),
            material,
        })
    }

    /// Sets the local to world transformation: the normal matrix becomes the
    /// transpose of its exact inverse (absent when none exists) and the
    /// world bounding box is recomputed from the local one.
    pub fn set_transformation(&mut self, transformation: Mat4)
        requires
            old(self).wf(),
            mat4_bounded(transformation, MAT_BOUND as int),
        ensures
            final(self).wf(),
            final(self).transformation == transformation,
            (final(self).normal_transformation matches Some(n) ==> mat4_is_inverse(
                transformation,
                mat4_transpose_spec(n),
            )),
            final(self).aabb == aabb_transform_spec(old(self).aabb_local, transformation),
            final(self).aabb_local == old(self).aabb_local,
            final(self).mesh == old(self).mesh,
            final(self).cull == old(self).cull,
            final(self).material == old(self).material,
    {
        self.transformation = transformation;
        self.normal_transformation = match transformation.inverse_exact() {
            Some(inv) => {
                proof {
                    assert(mat4_transpose_spec(mat4_transpose_spec(inv)) == inv);
                }
                Some(inv.transpose())
            },
            None => None,
        };
        let mut bb = self.aabb_local;
        bb.transform(&transformation);
        self.aabb = bb;
    }

    /// Sets a planar transformation, lifted to three dimensions.
    pub fn set_transformation_2d(&mut self, transformation: Mat3)
        requires
            old(self).wf(),
            mat3_bounded(transformation, MAT_BOUND as int),
        ensures
            final(self).wf(),
            final(self).transformation == mat4_from_2d(transformation),
            final(self).aabb == aabb_transform_spec(
                old(self).aabb_local,
                mat4_from_2d(transformation),
            ),
            final(self).aabb_local == old(self).aabb_local,
            final(self).mesh == old(self).mesh,
            final(self).material == old(self).material,
    {
        let m = Mat4 {
            m00: transformation.m00, m01: transformation.m01, m02: 0, m03: transformation.m02,
            m10: transformation.m10, m11: transformation.m11, m12: 0, m13: transformation.m12,
            m20: 0, m21: 0, m22: 1, m23: 0,
            m30: transformation.m20, m31: transformation.m21, m32: 0, m33: transformation.m22,
        };
        self.set_transformation(m);
    }

    /// The bounding box of the transformed model.
    pub fn aabb(&self) -> (r: Aabb)
        ensures
            r == self.aabb,
    {
        self.aabb
    }

    /// The local to world transformation.
    pub fn transformation(&self) -> (r: Mat4)
        ensures
            r == self.transformation,
    {
        self.transformation
    }

    /// Renders the model with the given forward material, building the full
    /// draw command: compiled program, material uniforms, mesh attributes,
    /// model and normal matrices.
    pub fn render_forward<M2: ForwardMaterial>(
        &self,
        material: &M2,
        camera: &Camera,
        lights: &crate::light::Lights,
    ) -> (r: Result<DrawCommand, CoreError>)
        requires
            self.wf(),
            camera.wf(),
        ensures
            command_result_matches(r, self.spec_render_forward(material, camera, lights)),
    {
        let use_colors = self.mesh.color_buffer.is_some();
        let fs = material.fragment_shader_source(lights, use_colors);
        let vs = Mesh::vertex_shader_source(fs.as_str());
        let program = match self.context.program(vs, fs) {
            Ok(p) => p,
            Err(e) => {
                return Err(e);
            },
        };
        let material_uniforms = match material.bind(&program, camera, lights) {
            Ok(u) => u,
            Err(e) => {
                return Err(e);
            },
        };
        let cmd = match self.mesh.draw(
            material.render_states(false),
            &program,
            camera.uniform_buffer(),
            camera.viewport(),
            Some(self.transformation),
            self.normal_transformation,
        ) {
            Ok(c) => c,
            Err(e) => {
                return Err(e);
            },
        };
        Ok(merge_material_uniforms(material_uniforms, cmd))
    }

    /// Renders the model's surface data for the deferred geometry pass; the
    /// model's own culling mode overrides the material's.
    pub fn render_deferred(&self, material: &Material, camera: &Camera, viewport: Viewport) -> (r:
        Result<DrawCommand, CoreError>)
        requires
            self.wf(),
            camera.wf(),
        ensures
            command_result_matches(r, self.spec_render_deferred(material, camera, viewport)),
    {
        let use_colors = self.mesh.color_buffer.is_some();
        let mut render_states = material.render_states();
        render_states.cull = self.cull;
        let fs = material.fragment_shader_source_deferred(use_colors);
        let vs = Mesh::vertex_shader_source(fs.as_str());
        let program = match self.context.program(vs, fs) {
            Ok(p) => p,
            Err(e) => {
                return Err(e);
            },
        };
        let material_uniforms = material.bind_deferred();
        let cmd = match self.mesh.draw(
            render_states,
            &program,
            camera.uniform_buffer(),
            viewport,
            Some(self.transformation),
            self.normal_transformation,
        ) {
            Ok(c) => c,
            Err(e) => {
                return Err(e);
            },
        };
        Ok(merge_material_uniforms(material_uniforms, cmd))
    }

    /// Renders the model with its own material.
    pub fn render(&self, camera: &Camera, lights: &crate::light::Lights) -> (r: Result<
        DrawCommand,
        CoreError,
    >)
        requires
            self.wf(),
            camera.wf(),
        ensures
            command_result_matches(r, self.spec_render_forward(&self.material, camera, lights)),
    {
        self.render_forward(&self.material, camera, lights)
    }

    /// Whether the model's own material blends as transparent.
    pub fn is_transparent(&self) -> (r: bool)
        ensures
            r == self.material.spec_is_transparent(),
    {
        self.material.is_transparent()
    }
}

impl Model<ColorMaterial> {
    /// Uploads the mesh and builds a model with a default color material.
    pub fn new(context: &Context, cpu_mesh: &CpuMesh) -> (r: Result<Model<ColorMaterial>, CoreError>)
        ensures
            match r {
                Ok(m) => spec_mesh_create(*cpu_mesh) is Ok && m.wf() && m.transformation
                    == Mat4::identity_spec() && m.material.color == (crate::command::Color {
                    r: 255,
                    g: 255,
                    b: 255,
                    a: 255,
                }),
                Err(e) => spec_mesh_create(*cpu_mesh) == Err::<(), CoreError>(e),
            },
    {
        Model::new_with_material(context, cpu_mesh, Default::default())
    }
}

impl<M: ForwardMaterial> ShadedGeometry for Model<M> {
    open spec fn spec_geometry_aabb(&self) -> Option<Aabb> {
        Some(self.aabb)
    }

    open spec fn spec_geometry_wf(&self) -> bool {
        self.wf()
    }

    open spec fn spec_geometry_pass(&self, camera: &Camera, material: &Material) -> Result<
        CommandModel,
        CoreError,
    > {
        self.spec_render_deferred(material, camera, camera.viewport)
    }

    fn aabb(&self) -> (r: Option<Aabb>) {
        Some(self.aabb)
    }

    fn geometry_pass(
        &self,
        _render_states: RenderStates,
        camera: &Camera,
        material: &Material,
    ) -> (r: Result<DrawCommand, CoreError>) {
        self.render_deferred(material, camera, camera.viewport())
    }
}

/// Prepends the material's uniforms to a mesh draw command.
fn merge_material_uniforms(
    material_uniforms: Vec<(UniformName, UniformValue)>,
    cmd: DrawCommand,
) -> (r: DrawCommand)
    ensures
        r@ == (CommandModel { uniforms: material_uniforms@ + cmd@.uniforms, ..cmd@ }),
{
    let mut uniforms = material_uniforms;
    let n = cmd.uniforms.len();
    let ghost base = uniforms@;
    proof {
        assert(uniforms@ =~= base + cmd.uniforms@.subrange(0, 0));
    }
    let mut i: usize = 0;
    while i < n
        invariant
            i <= n,
            n == cmd.uniforms@.len(),
            uniforms@ == base + cmd.uniforms@.subrange(0, i as int),
        decreases n - i,
    {
        uniforms.push(cmd.uniforms[i]);
        proof {
            assert(uniforms@ =~= base + cmd.uniforms@.subrange(0, i + 1));
        }
        i += 1;
    }
    proof {
        assert(base + cmd.uniforms@.subrange(0, n as int) =~= base + cmd.uniforms@);
    }
    DrawCommand {
        program: cmd.program,
        states: cmd.states,
        viewport: cmd.viewport,
        camera_block: cmd.camera_block,
        attributes: cmd.attributes,
        uniforms,
        textures: cmd.textures,
        geometry: cmd.geometry,
    }
}

} // verus!
