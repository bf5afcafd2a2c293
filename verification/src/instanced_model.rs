//! A model drawn many times in one call, with per-instance transforms packed
//! into three parallel row buffers.

use vstd::prelude::*;
use vstd::string::StrSliceExecFns;
use vstd::string::StringExecFns;

use crate::buffer::InstanceBuffer;
use crate::camera::Camera;
use crate::command::BoundAttributes;
use crate::command::CommandModel;
use crate::command::DrawCommand;
use crate::command::DrawGeometry;
use crate::command::UniformName;
use crate::command::UniformValue;
use crate::command::clone_vec_copy;
use crate::command::command_result_matches;
use crate::context::Context;
use crate::cpu_mesh::CpuMesh;
use crate::cpu_mesh::lemma_aabb_upto_bounded;
use crate::error::CoreError;
use crate::material::ColorMaterial;
use crate::material::ForwardMaterial;
use crate::material::Material;
use crate::math::Aabb;
use crate::math::BOX_BOUND;
use crate::math::COORD_BOUND;
use crate::math::MAT_BOUND;
use crate::math::Mat4;
use crate::math::aabb_bounded;
use crate::math::aabb_is_empty;
use crate::math::aabb_transform_spec;
use crate::math::aabb_union_spec;
use crate::math::mat4_bounded;
use crate::math::mat4_mul_spec;
use crate::mesh::Mesh;
use crate::mesh::spec_mesh_create;
use crate::mesh::spec_use_attributes;
use crate::mesh::spec_vertex_shader_source;
use crate::render_states::RenderStates;
use crate::render_states::Viewport;
use crate::shader::spec_compile;

verus! {

/// Entry `c` of row `r` of the matrix, as a buffer scalar.
pub open spec fn row_entry(m: Mat4, r: int, c: int) -> i64 {
    if r == 0 {
        if c == 0 { m.m00 } else if c == 1 { m.m01 } else if c == 2 { m.m02 } else { m.m03 }
    } else if r == 1 {
        if c == 0 { m.m10 } else if c == 1 { m.m11 } else if c == 2 { m.m12 } else { m.m13 }
    } else {
        if c == 0 { m.m20 } else if c == 1 { m.m21 } else if c == 2 { m.m22 } else { m.m23 }
    }
}

/// The packed instance buffer holding row `r` of every transform: four
/// scalars per instance.
pub open spec fn spec_rows(ts: Seq<Mat4>, r: int) -> Seq<i64> {
    Seq::new(4 * ts.len(), |j: int| row_entry(ts[j / 4], r, j % 4))
}

/// The union of the local box transformed by every instance transform times
/// the model transform, over the first `k` instances.
pub open spec fn spec_instanced_aabb(ts: Seq<Mat4>, k: nat, local: Aabb, m: Mat4) -> Aabb
    decreases k,
{
    if k == 0 {
        Aabb::empty_spec()
    } else {
        aabb_union_spec(
            spec_instanced_aabb(ts, (k - 1) as nat, local, m),
            aabb_transform_spec(local, mat4_mul_spec(ts[k - 1], m)),
        )
    }
}

/// A mesh with a material, drawn in as many instances as there are
/// transformation matrices.
#[derive(Debug)]
pub struct InstancedModel<M: ForwardMaterial> {
    /// The context the model renders through.
    pub context: Context,
    /// The mesh geometry.
    pub mesh: Mesh,
    /// Number of instances drawn.
    pub instance_count: u32,
    /// Row 0 of every instance transform, packed.
    pub instance_buffer1: InstanceBuffer,
    /// Row 1 of every instance transform, packed.
    pub instance_buffer2: InstanceBuffer,
    /// Row 2 of every instance transform, packed.
    pub instance_buffer3: InstanceBuffer,
    /// The bounding box of the untransformed mesh.
    pub aabb_local: Aabb,
    /// The bounding box of every transformed instance.
    pub aabb: Aabb,
    /// The model's own local-to-world transformation.
    pub transformation: Mat4,
    /// The per-instance transformations, in instance order.
    pub transformations: Vec<Mat4>,
    /// The material applied to every instance.
    pub material: M,
}

impl<M: ForwardMaterial> InstancedModel<M> {
    /// Well-formedness: the mesh and boxes are in range, every transform is
    /// bounded, and the packed buffers mirror the transform list.
    pub open spec fn wf(&self) -> bool {
        &&& self.mesh.wf()
        &&& (!aabb_is_empty(self.aabb_local) ==> aabb_bounded(self.aabb_local, COORD_BOUND as int))
        &&& mat4_bounded(self.transformation, MAT_BOUND as int)
        &&& forall|i: int| 0 <= i < self.transformations@.len() ==> mat4_bounded(
            #[trigger] self.transformations@[i],
            MAT_BOUND as int,
        )
        &&& self.transformations@.len() <= 1073741824
        &&& self.instance_count == self.transformations@.len()
        &&& self.instance_buffer1.spec_data() == spec_rows(self.transformations@, 0)
        &&& self.instance_buffer2.spec_data() == spec_rows(self.transformations@, 1)
        &&& self.instance_buffer3.spec_data() == spec_rows(self.transformations@, 2)
    }

    /// The draw command a forward render of the instances issues.
    pub open spec fn spec_render_forward<M2: ForwardMaterial>(
        &self,
        material: &M2,
        camera: &Camera,
        lights: &crate::light::Lights,
        viewport: Viewport,
        states: RenderStates,
    ) -> Result<CommandModel, CoreError> {
        let fs = material.spec_fragment_source(lights, self.mesh.color_buffer is Some);
        let vs = "#define INSTANCED\n"@ + spec_vertex_shader_source(fs);
        match spec_compile(vs, fs) {
            Err(e) => Err(e),
            Ok(p) => match spec_use_attributes(self.mesh, p.attrs) {
                Err(e) => Err(e),
                Ok(attrs) => Ok(
                    CommandModel {
                        program: p,
                        states,
                        viewport,
                        camera_block: Some(
                            camera.uniform_buffer.spec_data().len() as usize,
                        ),
                        attributes: BoundAttributes {
                            instance_rows: Some(self.instance_count),
                            ..attrs
                        },
                        uniforms: material.spec_uniforms(camera, lights) + seq![
                            (
                                UniformName::ModelMatrix,
                                UniformValue::MatVal(self.transformation),
                            ),
                        ],
                        textures: Seq::empty(),
                        geometry: match self.mesh.index_buffer {
                            Some(b) => DrawGeometry::ElementsInstanced {
                                count: b.spec_data().len() as u32,
                                instances: self.instance_count,
                            },
                            None => DrawGeometry::ArraysInstanced {
                                count: (self.mesh.position_buffer.spec_data().len() / 3) as u32,
                                instances: self.instance_count,
                            },
                        },
                    },
                ),
            },
        }
    }

    /// The draw command a deferred geometry pass of the instances issues.
    pub open spec fn spec_render_deferred(
        &self,
        material: &Material,
        camera: &Camera,
        viewport: Viewport,
    ) -> Result<CommandModel, CoreError> {
        let fs = crate::material::spec_deferred_material_source(self.mesh.color_buffer is Some);
        let vs = "#define INSTANCED\n"@ + spec_vertex_shader_source(fs);
        match spec_compile(vs, fs) {
            Err(e) => Err(e),
            Ok(p) => match spec_use_attributes(self.mesh, p.attrs) {
                Err(e) => Err(e),
                Ok(attrs) => Ok(
                    CommandModel {
                        program: p,
                        states: material.spec_render_states_deferred(),
                        viewport,
                        camera_block: Some(
                            camera.uniform_buffer.spec_data().len() as usize,
                        ),
                        attributes: BoundAttributes {
                            instance_rows: Some(self.instance_count),
                            ..attrs
                        },
                        uniforms: material.spec_uniforms_deferred() + seq![
                            (
                                UniformName::ModelMatrix,
                                UniformValue::MatVal(self.transformation),
                            ),
                        ],
                        textures: Seq::empty(),
                        geometry: match self.mesh.index_buffer {
                            Some(b) => DrawGeometry::ElementsInstanced {
                                count: b.spec_data().len() as u32,
                                instances: self.instance_count,
                            },
                            None => DrawGeometry::ArraysInstanced {
                                count: (self.mesh.position_buffer.spec_data().len() / 3) as u32,
                                instances: self.instance_count,
                            },
                        },
                    },
                ),
            },
        }
    }

    /// Uploads the mesh and builds an instanced model with the given
    /// material and one instance per transformation matrix.
    pub fn new_with_material(
        context: &Context,
        transformations: &Vec<Mat4>,
        cpu_mesh: &CpuMesh,
        material: M,
    ) -> (r: Result<InstancedModel<M>, CoreError>)
        requires
            forall|i: int| 0 <= i < transformations@.len() ==> mat4_bounded(
                #[trigger] transformations@[i],
                MAT_BOUND as int,
            ),
            transformations@.len() <= 1073741824,
        ensures
            match r {
                Ok(m) => spec_mesh_create(*cpu_mesh) is Ok && {
                    &&& m.wf()
                    &&& (!aabb_is_empty(m.aabb) ==> aabb_bounded(m.aabb, BOX_BOUND as int))
                    &&& m.transformations@ == transformations@
                    &&& m.instance_count == transformations@.len()
                    &&& m.transformation == Mat4::identity_spec()
                    &&& m.material == material
                    &&& m.aabb == spec_instanced_aabb(
                        transformations@,
                        transformations@.len(),
                        m.aabb_local,
                        Mat4::identity_spec(),
                    )
                },
                Err(e) => spec_mesh_create(*cpu_mesh) == Err::<(), CoreError>(e),
            },
    {
        let mesh = match Mesh::new(context, cpu_mesh) {
            Ok(m) => m,
            Err(e) => {
                return Err(e);
            },
        };
        let aabb = cpu_mesh.compute_aabb();
        proof {
            lemma_aabb_upto_bounded(
                cpu_mesh.positions@,
                (cpu_mesh.positions@.len() as int / 3) as nat,
            );
        }
        let b1 = match InstanceBuffer::new() {
            Ok(b) => b,
            Err(e) => {
                return Err(e);
            },
        };
        let b2 = match InstanceBuffer::new() {
            Ok(b) => b,
            Err(e) => {
                return Err(e);
            },
        };
        let b3 = match InstanceBuffer::new() {
            Ok(b) => b,
            Err(e) => {
                return Err(e);
            },
        };
        let mut model = InstancedModel {
            context: *context,
            mesh,
            instance_count: 0,
            instance_buffer1: b1,
            instance_buffer2: b2,
            instance_buffer3: b3,
            aabb_local: aabb,
            aabb,
            transformation: Mat4::identity(),
            transformations: Vec::new(),
            material,
        };
        proof {
            assert(model.instance_buffer1.spec_data() =~= spec_rows(model.transformations@, 0));
            assert(model.instance_buffer2.spec_data() =~= spec_rows(model.transformations@, 1));
            assert(model.instance_buffer3.spec_data() =~= spec_rows(model.transformations@, 2));
        }
        model.update_transformations(transformations);
        Ok(model)
    }

    /// Replaces the per-instance transformations: the three row buffers are
    /// fully repacked (four scalars per instance each) and the aggregate
    /// bounding box is recomputed over every instance.
    #[verifier::loop_isolation(false)]
    pub fn update_transformations(&mut self, transformations: &Vec<Mat4>)
        requires
            old(self).wf(),
            forall|i: int| 0 <= i < transformations@.len() ==> mat4_bounded(
                #[trigger] transformations@[i],
                MAT_BOUND as int,
            ),
            transformations@.len() <= 1073741824,
        ensures
            final(self).wf(),
            final(self).transformations@ == transformations@,
            final(self).instance_count == transformations@.len(),
            final(self).instance_buffer1.spec_data() == spec_rows(transformations@, 0),
            final(self).instance_buffer2.spec_data() == spec_rows(transformations@, 1),
            final(self).instance_buffer3.spec_data() == spec_rows(transformations@, 2),
            final(self).aabb == spec_instanced_aabb(
                transformations@,
                transformations@.len(),
                old(self).aabb_local,
                old(self).transformation,
            ),
            !aabb_is_empty(final(self).aabb) ==> aabb_bounded(final(self).aabb, BOX_BOUND as int),
            final(self).mesh == old(self).mesh,
            final(self).aabb_local == old(self).aabb_local,
            final(self).transformation == old(self).transformation,
            final(self).material == old(self).material,
    {
        self.transformations = clone_vec_copy(transformations);
        self.instance_count = transformations.len() as u32;
        let n = transformations.len();
        let mut row1: Vec<i64> = Vec::new();
        let mut row2: Vec<i64> = Vec::new();
        let mut row3: Vec<i64> = Vec::new();
        let mut i: usize = 0;
        while i < n
            invariant
                i <= n,
                row1@.len() == 4 * i,
                row2@.len() == 4 * i,
                row3@.len() == 4 * i,
                forall|j: int| 0 <= j < 4 * i ==> row1@[j] == row_entry(
                    transformations@[j / 4], 0, j % 4),
                forall|j: int| 0 <= j < 4 * i ==> row2@[j] == row_entry(
                    transformations@[j / 4], 1, j % 4),
                forall|j: int| 0 <= j < 4 * i ==> row3@[j] == row_entry(
                    transformations@[j / 4], 2, j % 4),
            decreases n - i,
        {
            let t = transformations[i];
            row1.push(t.m00);
            row1.push(t.m01);
            row1.push(t.m02);
            row1.push(t.m03);
            row2.push(t.m10);
            row2.push(t.m11);
            row2.push(t.m12);
            row2.push(t.m13);
            row3.push(t.m20);
            row3.push(t.m21);
            row3.push(t.m22);
            row3.push(t.m23);
            i += 1;
        }
        proof {
            assert(row1@ =~= spec_rows(transformations@, 0));
            assert(row2@ =~= spec_rows(transformations@, 1));
            assert(row3@ =~= spec_rows(transformations@, 2));
        }
        self.instance_buffer1.fill_with_dynamic(row1);
        self.instance_buffer2.fill_with_dynamic(row2);
        self.instance_buffer3.fill_with_dynamic(row3);
        self.update_aabb();
    }

    /// The per-instance transformations last supplied.
    pub fn transformations(&self) -> (r: &Vec<Mat4>)
        ensures
            r@ == self.transformations@,
    {
        &self.transformations
    }

    /// Recomputes the aggregate bounding box: the union over every instance
    /// of the local box under that instance's transform times the model's.
    #[verifier::loop_isolation(false)]
    pub fn update_aabb(&mut self)
        requires
            old(self).wf(),
        ensures
            final(self).wf(),
            final(self).aabb == spec_instanced_aabb(
                old(self).transformations@,
                old(self).transformations@.len(),
                old(self).aabb_local,
                old(self).transformation,
            ),
            !aabb_is_empty(final(self).aabb) ==> aabb_bounded(final(self).aabb, BOX_BOUND as int),
            *final(self) == (InstancedModel { aabb: final(self).aabb, ..*old(self) }),
    {
        let mut bb = Aabb::empty();
        let n = self.transformations.len();
        let mut i: usize = 0;
        while i < n
            invariant
                i <= n,
                bb == spec_instanced_aabb(
                    self.transformations@,
                    i as nat,
                    self.aabb_local,
                    self.transformation,
                ),
                !aabb_is_empty(bb) ==> aabb_bounded(bb, BOX_BOUND as int),
            decreases n - i,
        {
            let prod = self.transformations[i].mul(&self.transformation);
            let mut b2 = self.aabb_local;
            b2.transform(&prod);
            bb.expand_with_aabb(&b2);
            i += 1;
        }
        self.aabb = bb;
    }

    /// Derives the instanced vertex source: the instancing define, then the
    /// sentinel-driven mesh vertex source.
    pub fn vertex_shader_source(fragment_shader_source: &str) -> (r: String)
        ensures
            r@ == "#define INSTANCED\n"@ + spec_vertex_shader_source(fragment_shader_source@),
    {
        let mut out = String::from_str("#define INSTANCED\n");
        let rest = Mesh::vertex_shader_source(fragment_shader_source);
        out.append(rest.as_str());
        out
    }

    /// The aggregate bounding box of every instance.
    pub fn aabb(&self) -> (r: Aabb)
        ensures
            r == self.aabb,
    {
        self.aabb
    }

    /// The model's own local to world transformation.
    pub fn transformation(&self) -> (r: Mat4)
        ensures
            r == self.transformation,
    {
        self.transformation
    }

    /// Sets the model's own transformation and recomputes the aggregate box.
    pub fn set_transformation(&mut self, transformation: Mat4)
        requires
            old(self).wf(),
            mat4_bounded(transformation, MAT_BOUND as int),
        ensures
            final(self).wf(),
            final(self).transformation == transformation,
            final(self).aabb == spec_instanced_aabb(
                old(self).transformations@,
                old(self).transformations@.len(),
                old(self).aabb_local,
                transformation,
            ),
            !aabb_is_empty(final(self).aabb) ==> aabb_bounded(final(self).aabb, BOX_BOUND as int),
            final(self).transformations@ == old(self).transformations@,
            final(self).mesh == old(self).mesh,
            final(self).material == old(self).material,
    {
        self.transformation = transformation;
        self.update_aabb();
    }

    /// Renders every instance with the given forward material.
    pub fn render_forward<M2: ForwardMaterial>(
        &self,
        material: &M2,
        camera: &Camera,
        lights: &crate::light::Lights,
    ) -> (r: Result<DrawCommand, CoreError>)
        requires
            self.wf(),
            camera.wf(),
        ensures
            command_result_matches(
                r,
                self.spec_render_forward(
                    material,
                    camera,
                    lights,
                    camera.viewport,
                    material.spec_render_states(false),
                ),
            ),
    {
        let states = material.render_states(false);
        self.render_instanced_with(material, camera, lights, camera.viewport(), states)
    }

    /// Renders every instance's surface data for the deferred geometry pass.
    pub fn render_deferred(&self, material: &Material, camera: &Camera, viewport: Viewport) -> (r:
        Result<DrawCommand, CoreError>)
        requires
            self.wf(),
            camera.wf(),
        ensures
            command_result_matches(r, self.spec_render_deferred(material, camera, viewport)),
    {
        let use_colors = self.mesh.color_buffer.is_some();
        let fs = material.fragment_shader_source_deferred(use_colors);
        let vs = Self::vertex_shader_source(fs.as_str());
        let program = match self.context.program(vs, fs) {
            Ok(p) => p,
            Err(e) => {
                return Err(e);
            },
        };
        let attrs = match self.mesh.use_attributes(&program, camera.uniform_buffer()) {
            Ok(a) => a,
            Err(e) => {
                return Err(e);
            },
        };
        let mut uniforms = material.bind_deferred();
        uniforms.push((UniformName::ModelMatrix, UniformValue::MatVal(self.transformation)));
        let cmd = self.build_command(
            program,
            material.render_states(),
            viewport,
            camera,
            attrs,
            uniforms,
        );
        proof {
            assert(cmd@.uniforms =~= material.spec_uniforms_deferred() + seq![
                (UniformName::ModelMatrix, UniformValue::MatVal(self.transformation)),
            ]);
            assert(cmd@.textures =~= Seq::<(UniformName, crate::command::TextureDesc)>::empty());
        }
        Ok(cmd)
    }

    /// Renders every instance with the model's own material.
    pub fn render(&self, camera: &Camera, lights: &crate::light::Lights) -> (r: Result<
        DrawCommand,
        CoreError,
    >)
        requires
            self.wf(),
            camera.wf(),
        ensures
            command_result_matches(
                r,
                self.spec_render_forward(
                    &self.material,
                    camera,
                    lights,
                    camera.viewport,
                    self.material.spec_render_states(false),
                ),
            ),
    {
        self.render_forward(&self.material, camera, lights)
    }

    /// Whether the model's own material blends as transparent.
    pub fn is_transparent(&self) -> (r: bool)
        ensures
            r == self.material.spec_is_transparent(),
    {
        self.material.is_transparent()
    }

    /// The shared forward path: compile, bind, and build the instanced draw.
    fn render_instanced_with<M2: ForwardMaterial>(
        &self,
        material: &M2,
        camera: &Camera,
        lights: &crate::light::Lights,
        viewport: Viewport,
        states: RenderStates,
    ) -> (r: Result<DrawCommand, CoreError>)
        requires
            self.wf(),
            camera.wf(),
        ensures
            command_result_matches(
                r,
                self.spec_render_forward(material, camera, lights, viewport, states),
            ),
    {
        let use_colors = self.mesh.color_buffer.is_some();
        let fs = material.fragment_shader_source(lights, use_colors);
        let vs = Self::vertex_shader_source(fs.as_str());
        let program = match self.context.program(vs, fs) {
            Ok(p) => p,
            Err(e) => {
                return Err(e);
            },
        };
        let mut uniforms = match material.bind(&program, camera, lights) {
            Ok(u) => u,
            Err(e) => {
                return Err(e);
            },
        };
        let attrs = match self.mesh.use_attributes(&program, camera.uniform_buffer()) {
            Ok(a) => a,
            Err(e) => {
                return Err(e);
            },
        };
        uniforms.push((UniformName::ModelMatrix, UniformValue::MatVal(self.transformation)));
        let cmd = self.build_command(program, states, viewport, camera, attrs, uniforms);
        proof {
            assert(cmd@.uniforms =~= material.spec_uniforms(camera, lights) + seq![
                (UniformName::ModelMatrix, UniformValue::MatVal(self.transformation)),
            ]);
            assert(cmd@.textures =~= Seq::<(UniformName, crate::command::TextureDesc)>::empty());
        }
        Ok(cmd)
    }

    /// Assembles the instanced draw command.
    fn build_command(
        &self,
        program: crate::shader::Program,
        states: RenderStates,
        viewport: Viewport,
        camera: &Camera,
        attrs: BoundAttributes,
        uniforms: Vec<(UniformName, UniformValue)>,
    ) -> (r: DrawCommand)
        requires
            self.wf(),
            camera.wf(),
        ensures
            r@ == (CommandModel {
                program: program@,
                states,
                viewport,
                camera_block: Some(camera.uniform_buffer.spec_data().len() as usize),
                attributes: BoundAttributes { instance_rows: Some(self.instance_count), ..attrs },
                uniforms: uniforms@,
                textures: Seq::empty(),
                geometry: match self.mesh.index_buffer {
                    Some(b) => DrawGeometry::ElementsInstanced {
                        count: b.spec_data().len() as u32,
                        instances: self.instance_count,
                    },
                    None => DrawGeometry::ArraysInstanced {
                        count: (self.mesh.position_buffer.spec_data().len() / 3) as u32,
                        instances: self.instance_count,
                    },
                },
            }),
    {
        let geometry = match &self.mesh.index_buffer {
            Some(b) => DrawGeometry::ElementsInstanced {
                count: b.count() as u32,
                instances: self.instance_count,
            },
            None => DrawGeometry::ArraysInstanced {
                count: (self.mesh.position_buffer.count() / 3) as u32,
                instances: self.instance_count,
            },
        };
        let cmd = DrawCommand {
            program,
            states,
            viewport,
            camera_block: Some(camera.uniform_buffer().count()),
            attributes: BoundAttributes { instance_rows: Some(self.instance_count), ..attrs },
            uniforms,
            textures: Vec::new(),
            geometry,
        };
        proof {
            assert(cmd@.textures =~= Seq::<(UniformName, crate::command::TextureDesc)>::empty());
        }
        cmd
    }
}

impl InstancedModel<ColorMaterial> {
    /// Uploads the mesh and builds an instanced model with a default color
    /// material.
    pub fn new(context: &Context, transformations: &Vec<Mat4>, cpu_mesh: &CpuMesh) -> (r: Result<
        InstancedModel<ColorMaterial>,
        CoreError,
    >)
        requires
            forall|i: int| 0 <= i < transformations@.len() ==> mat4_bounded(
                #[trigger] transformations@[i],
                MAT_BOUND as int,
            ),
            transformations@.len() <= 1073741824,
        ensures
            match r {
                Ok(m) => spec_mesh_create(*cpu_mesh) is Ok && m.wf() && m.transformations@
                    == transformations@ && m.instance_count == transformations@.len(),
                Err(e) => spec_mesh_create(*cpu_mesh) == Err::<(), CoreError>(e),
            },
    {
        InstancedModel::new_with_material(context, transformations, cpu_mesh, Default::default())
    }
}

impl<M: ForwardMaterial> crate::model::ShadedGeometry for InstancedModel<M> {
    open spec fn spec_geometry_aabb(&self) -> Option<Aabb> {
        Some(self.aabb)
    }

    open spec fn spec_geometry_wf(&self) -> bool {
        self.wf() && (!aabb_is_empty(self.aabb) ==> aabb_bounded(self.aabb, BOX_BOUND as int))
    }

    open spec fn spec_geometry_pass(
        &self,
        camera: &Camera,
        material: &Material,
    ) -> Result<CommandModel, CoreError> {
        self.spec_render_deferred(material, camera, camera.viewport)
    }

    fn aabb(&self) -> (r: Option<Aabb>) {
        Some(self.aabb)
    }

    fn geometry_pass(
        &self,
        _render_states: RenderStates,
        camera: &Camera,
        material: &Material,
    ) -> (r: Result<DrawCommand, CoreError>) {
        self.render_deferred(material, camera, camera.viewport())
    }
}

} // verus!
