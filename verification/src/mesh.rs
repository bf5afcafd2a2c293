//! The GPU-side triangle mesh: validated upload, attribute binding, and
//! draw-call construction.

use vstd::prelude::*;
use vstd::string::StringExecFns;

use crate::buffer::ElementBuffer;
use crate::buffer::MAX_BUFFER_LEN;
use crate::buffer::UniformBuffer;
use crate::buffer::VertexBuffer;
use crate::command::BoundAttributes;
use crate::command::CommandModel;
use crate::command::DrawCommand;
use crate::command::DrawGeometry;
use crate::command::UniformName;
use crate::command::UniformValue;
use crate::command::command_result_matches;
use crate::context::Context;
use crate::cpu_mesh::CpuMesh;
use crate::cpu_mesh::aabb_upto;
use crate::cpu_mesh::index_at;
use crate::cpu_mesh::indices_len;
use crate::cpu_mesh::positions_in_range;
use crate::cpu_mesh::spec_validate;
use crate::error::Attribute;
use crate::error::CoreError;
use crate::math::Aabb;
use crate::math::MAT_BOUND;
use crate::math::Mat4;
use crate::math::mat4_bounded;
use crate::math::mat4_is_inverse;
use crate::math::mat4_transpose_spec;
use crate::render_states::RenderStates;
use crate::render_states::Viewport;
use crate::shader::AttrFlags;
use crate::shader::Program;
use crate::shader::ProgramModel;
use crate::shader::sentinel_colors;
use crate::shader::sentinel_normals;
use crate::shader::sentinel_positions;
use crate::shader::sentinel_uvs;
use crate::shader::spec_contains;
use crate::shader::contains_sub;

verus! {

/// The vertex-color bytes widened to buffer scalars.
pub open spec fn spec_widen_colors(s: Seq<u8>) -> Seq<i64> {
    Seq::new(s.len(), |j: int| s[j] as i64)
}

/// The outcome of uploading a CPU mesh: its validation result, then
/// `ResourceCreation` if any attribute array exceeds one buffer allocation.
pub open spec fn spec_mesh_create(c: CpuMesh) -> Result<(), CoreError> {
    match spec_validate(c) {
        Err(e) => Err(e),
        Ok(()) => if c.positions@.len() > MAX_BUFFER_LEN || (c.normals matches Some(n)
            && n@.len() > MAX_BUFFER_LEN) || (c.indices matches Some(ind) && indices_len(ind)
            > MAX_BUFFER_LEN) || (c.uvs matches Some(u) && u@.len() > MAX_BUFFER_LEN) || (
        c.colors matches Some(col) && col@.len() > MAX_BUFFER_LEN) {
            Err(CoreError::ResourceCreation)
        } else {
            Ok(())
        },
    }
}

/// The attribute bindings a draw of this mesh performs for a program with
/// the given attribute needs, or the first missing attribute.
pub open spec fn spec_use_attributes(m: Mesh, attrs: AttrFlags) -> Result<
    BoundAttributes,
    CoreError,
> {
    if attrs.uv_coordinates && m.uv_buffer is None {
        Err(CoreError::MissingAttribute(Attribute::UvCoordinates))
    } else if attrs.normal && m.normal_buffer is None {
        Err(CoreError::MissingAttribute(Attribute::Normal))
    } else if attrs.color && m.color_buffer is None {
        Err(CoreError::MissingAttribute(Attribute::Color))
    } else {
        Ok(
            BoundAttributes {
                position: if attrs.position {
                    Some((m.position_buffer.spec_data().len() / 3) as u32)
                } else {
                    None
                },
                uv_coordinates: if attrs.uv_coordinates {
                    Some((m.uv_buffer->Some_0.spec_data().len() / 2) as u32)
                } else {
                    None
                },
                normal: if attrs.normal {
                    Some((m.normal_buffer->Some_0.spec_data().len() / 3) as u32)
                } else {
                    None
                },
                color: if attrs.color {
                    Some((m.color_buffer->Some_0.spec_data().len() / 4) as u32)
                } else {
                    None
                },
                instance_rows: None,
            },
        )
    }
}

/// The draw command a mesh draw issues, or the error that stops it.
pub open spec fn spec_draw(
    m: Mesh,
    states: RenderStates,
    program: ProgramModel,
    camera_len: usize,
    viewport: Viewport,
    transformation: Option<Mat4>,
    normal_transformation: Option<Mat4>,
) -> Result<CommandModel, CoreError> {
    match spec_use_attributes(m, program.attrs) {
        Err(e) => Err(e),
        Ok(attrs) => Ok(
            CommandModel {
                program,
                states,
                viewport,
                camera_block: Some(camera_len),
                attributes: attrs,
                uniforms: seq![
                    (
                        UniformName::ModelMatrix,
                        UniformValue::MatVal(
                            match transformation {
                                Some(t) => t,
                                None => m.transformation,
                            },
                        ),
                    ),
                ] + (if program.attrs.normal {
                    match (match normal_transformation {
                        Some(n) => Some(n),
                        None => m.normal_transformation,
                    }) {
                        Some(n) => seq![(UniformName::NormalMatrix, UniformValue::MatVal(n))],
                        None => Seq::empty(),
                    }
                } else {
                    Seq::empty()
                }),
                textures: Seq::empty(),
                geometry: match m.index_buffer {
                    Some(b) => DrawGeometry::Elements { count: b.spec_data().len() as u32 },
                    None => DrawGeometry::Arrays {
                        count: (m.position_buffer.spec_data().len() / 3) as u32,
                    },
                },
            },
        ),
    }
}

/// The preprocessor header of the shared fragment text.
pub open spec fn mesh_shared_source() -> Seq<char> {
    "vec3 shared_world_position();\n"@
}

/// The body of the mesh vertex shader.
pub open spec fn mesh_vertex_body() -> Seq<char> {
    "void main() { emit_vertex(); }\n"@
}

/// The vertex source derived for a fragment source: one `#define` per
/// attribute sentinel found, then the shared text and the vertex body.
pub open spec fn spec_vertex_shader_source(fragment: Seq<char>) -> Seq<char> {
    (if spec_contains(fragment, sentinel_positions()) {
        "#define USE_POSITIONS\n"@
    } else {
        Seq::empty()
    }) + (if spec_contains(fragment, sentinel_normals()) {
        "#define USE_NORMALS\n"@
    } else {
        Seq::empty()
    }) + (if spec_contains(fragment, sentinel_uvs()) {
        "#define USE_UVS\n"@
    } else {
        Seq::empty()
    }) + (if spec_contains(fragment, sentinel_colors()) {
        "#define USE_COLORS\n"@
    } else {
        Seq::empty()
    }) + mesh_shared_source() + mesh_vertex_body()
}

/// Law: every CPU mesh that passes validation and fits the upload limits
/// uploads successfully, and the bounding box computed at upload contains
/// every vertex position.
pub proof fn lemma_mesh_creation_law(c: CpuMesh, j: int)
    requires
        crate::cpu_mesh::spec_validate(c) is Ok,
        c.positions@.len() <= MAX_BUFFER_LEN,
        (c.normals matches Some(n) ==> n@.len() <= MAX_BUFFER_LEN),
        (c.indices matches Some(ind) ==> indices_len(ind) <= MAX_BUFFER_LEN),
        (c.uvs matches Some(u) ==> u@.len() <= MAX_BUFFER_LEN),
        (c.colors matches Some(col) ==> col@.len() <= MAX_BUFFER_LEN),
        0 <= j < c.positions@.len() as int / 3,
    ensures
        spec_mesh_create(c) is Ok,
        crate::math::aabb_contains(
            aabb_upto(c.positions@, (c.positions@.len() as int / 3) as nat),
            crate::cpu_mesh::position_at(c.positions@, j),
        ),
{
    crate::cpu_mesh::lemma_aabb_upto_contains(
        c.positions@,
        (c.positions@.len() as int / 3) as nat,
        j,
    );
}

/// A triangle mesh whose data lives in GPU buffers.
#[derive(Debug)]
pub struct Mesh {
    /// Buffer with the position data: `(x, y, z)` for each vertex.
    pub position_buffer: VertexBuffer,
    /// Buffer with the normal data, when present.
    pub normal_buffer: Option<VertexBuffer>,
    /// Buffer with the uv coordinate data, when present.
    pub uv_buffer: Option<VertexBuffer>,
    /// Buffer with the vertex color data, when present.
    pub color_buffer: Option<VertexBuffer>,
    /// Buffer with the triangle indices, when present.
    pub index_buffer: Option<ElementBuffer>,
    /// Optional name of the mesh.
    pub name: String,
    /// The local-to-world transformation bound at draws.
    pub transformation: Mat4,
    /// The transpose of the transformation's exact inverse, when one exists.
    pub normal_transformation: Option<Mat4>,
    /// The bounding box of the vertex positions, fixed at upload.
    pub aabb: Aabb,
}

impl Mesh {
    /// A mesh is well formed when its buffers respect the upload limits and
    /// its normal matrix, when present, is a true inverse transpose.
    pub open spec fn wf(&self) -> bool {
        &&& 0 < self.position_buffer.spec_data().len() <= MAX_BUFFER_LEN
        &&& self.position_buffer.spec_data().len() % 3 == 0
        &&& positions_in_range(self.position_buffer.spec_data())
        &&& (self.normal_buffer matches Some(b) ==> b.spec_data().len() <= MAX_BUFFER_LEN)
        &&& (self.uv_buffer matches Some(b) ==> b.spec_data().len() <= MAX_BUFFER_LEN)
        &&& (self.color_buffer matches Some(b) ==> b.spec_data().len() <= MAX_BUFFER_LEN)
        &&& (self.index_buffer matches Some(b) ==> b.spec_data().len() <= MAX_BUFFER_LEN)
        &&& (self.normal_transformation matches Some(n) ==> mat4_is_inverse(
            self.transformation,
            mat4_transpose_spec(n),
        ))
    }

    /// Uploads the per-vertex data of the given CPU mesh, after validating
    /// it; the bounding box is computed once here.
    pub fn new(_context: &Context, cpu_mesh: &CpuMesh) -> (r: Result<Mesh, CoreError>)
        ensures
            match r {
                Ok(m) => spec_mesh_create(*cpu_mesh) is Ok && {
                    &&& m.wf()
                    &&& m.position_buffer.spec_data() == cpu_mesh.positions@
                    &&& match (cpu_mesh.normals, m.normal_buffer) {
                        (Some(n), Some(b)) => b.spec_data() == n@,
                        (None, None) => true,
                        _ => false,
                    }
                    &&& match (cpu_mesh.uvs, m.uv_buffer) {
                        (Some(u), Some(b)) => b.spec_data() == u@,
                        (None, None) => true,
                        _ => false,
                    }
                    &&& match (cpu_mesh.colors, m.color_buffer) {
                        (Some(c0), Some(b)) => b.spec_data() == spec_widen_colors(c0@),
                        (None, None) => true,
                        _ => false,
                    }
                    &&& match (cpu_mesh.indices, m.index_buffer) {
                        (Some(ind), Some(b)) => b.spec_data().len() == indices_len(ind)
                            && forall|j: int| 0 <= j < indices_len(ind)
                                ==> (#[trigger] b.spec_data()[j]) as int == index_at(ind, j),
                        (None, None) => true,
                        _ => false,
                    }
                    &&& m.name@ == cpu_mesh.name@
                    &&& m.transformation == Mat4::identity_spec()
                    &&& m.normal_transformation == Some(Mat4::identity_spec())
                    &&& m.aabb == aabb_upto(
                        cpu_mesh.positions@,
                        (cpu_mesh.positions@.len() as int / 3) as nat,
                    )
                },
                Err(e) => spec_mesh_create(*cpu_mesh) == Err::<(), CoreError>(e),
            },
    {
        if let Err(e) = cpu_mesh.validate() {
            return Err(e);
        }
        let position_buffer = match VertexBuffer::new_with_static(&cpu_mesh.positions) {
            Ok(b) => b,
            Err(e) => {
                return Err(e);
            },
        };
        let normal_buffer = match &cpu_mesh.normals {
            Some(normals) => match VertexBuffer::new_with_static(normals) {
                Ok(b) => Some(b),
                Err(e) => {
                    return Err(e);
                },
            },
            None => None,
        };
        let index_buffer = match &cpu_mesh.indices {
            Some(indices) => match ElementBuffer::new_with(indices) {
                Ok(b) => Some(b),
                Err(e) => {
                    return Err(e);
                },
            },
            None => None,
        };
        let uv_buffer = match &cpu_mesh.uvs {
            Some(uvs) => match VertexBuffer::new_with_static(uvs) {
                Ok(b) => Some(b),
                Err(e) => {
                    return Err(e);
                },
            },
            None => None,
        };
        let color_buffer = match &cpu_mesh.colors {
            Some(colors) => {
                let widened = widen_colors(colors);
                match VertexBuffer::new_with_static(&widened) {
                    Ok(b) => Some(b),
                    Err(e) => {
                        return Err(e);
                    },
                }
            },
            None => None,
        };
        let aabb = cpu_mesh.compute_aabb();
        let identity = Mat4::identity();
        proof {
            assert(mat4_is_inverse(
                Mat4::identity_spec(),
                mat4_transpose_spec(Mat4::identity_spec()),
            ));
        }
        Ok(Mesh {
            position_buffer,
            normal_buffer,
            uv_buffer,
            color_buffer,
            index_buffer,
            name: cpu_mesh.name.clone(),
            transformation: identity,
            normal_transformation: Some(identity),
            aabb,
        })
    }

    /// The local to world transformation bound at draws.
    pub fn transformation(&self) -> (r: Mat4)
        ensures
            r == self.transformation,
    {
        self.transformation
    }

    /// Sets the local to world transformation and recomputes the normal
    /// matrix as the transpose of its exact inverse; the normal matrix is
    /// absent when no exact bounded inverse exists.
    pub fn set_transformation(&mut self, transformation: Mat4)
        requires
            old(self).wf(),
            mat4_bounded(transformation, MAT_BOUND as int),
        ensures
            final(self).wf(),
            final(self).transformation == transformation,
            (final(self).normal_transformation matches Some(n) ==> mat4_is_inverse(
                transformation,
                mat4_transpose_spec(n),
            )),
            final(self).position_buffer == old(self).position_buffer,
            final(self).normal_buffer == old(self).normal_buffer,
            final(self).uv_buffer == old(self).uv_buffer,
            final(self).color_buffer == old(self).color_buffer,
            final(self).index_buffer == old(self).index_buffer,
            final(self).name == old(self).name,
            final(self).aabb == old(self).aabb,
    {
        self.transformation = transformation;
        self.normal_transformation = match transformation.inverse_exact() {
            Some(inv) => {
                proof {
                    assert(mat4_transpose_spec(mat4_transpose_spec(inv)) == inv);
                }
                Some(inv.transpose())
            },
            None => None,
        };
    }

    /// The bounding box computed at upload.
    pub fn aabb(&self) -> (r: Aabb)
        ensures
            r == self.aabb,
    {
        self.aabb
    }

    /// Binds the camera block and the attribute buffers the given program
    /// needs; a needed attribute the mesh lacks is reported as missing.
    pub fn use_attributes(&self, program: &Program, _camera_buffer: &UniformBuffer) -> (r: Result<
        BoundAttributes,
        CoreError,
    >)
        requires
            self.wf(),
        ensures
            r == spec_use_attributes(*self, program.attrs),
    {
        if program.requires_attribute(Attribute::UvCoordinates) && self.uv_buffer.is_none() {
            return Err(CoreError::MissingAttribute(Attribute::UvCoordinates));
        }
        if program.requires_attribute(Attribute::Normal) && self.normal_buffer.is_none() {
            return Err(CoreError::MissingAttribute(Attribute::Normal));
        }
        if program.requires_attribute(Attribute::Color) && self.color_buffer.is_none() {
            return Err(CoreError::MissingAttribute(Attribute::Color));
        }
        let position = if program.requires_attribute(Attribute::Position) {
            Some((self.position_buffer.count() / 3) as u32)
        } else {
            None
        };
        let uv_coordinates = if program.requires_attribute(Attribute::UvCoordinates) {
            match &self.uv_buffer {
                Some(b) => Some((b.count() / 2) as u32),
                None => None,
            }
        } else {
            None
        };
        let normal = if program.requires_attribute(Attribute::Normal) {
            match &self.normal_buffer {
                Some(b) => Some((b.count() / 3) as u32),
                None => None,
            }
        } else {
            None
        };
        let color = if program.requires_attribute(Attribute::Color) {
            match &self.color_buffer {
                Some(b) => Some((b.count() / 4) as u32),
                None => None,
            }
        } else {
            None
        };
        Ok(BoundAttributes { position, uv_coordinates, normal, color, instance_rows: None })
    }

    /// Builds the draw command for this mesh under the given program and
    /// state: indexed when an index buffer exists, else a flat triangle
    /// list.
    pub fn draw(
        &self,
        render_states: RenderStates,
        program: &Program,
        camera_buffer: &UniformBuffer,
        viewport: Viewport,
        transformation: Option<Mat4>,
        normal_transformation: Option<Mat4>,
    ) -> (r: Result<DrawCommand, CoreError>)
        requires
            self.wf(),
            camera_buffer.spec_data().len() <= MAX_BUFFER_LEN,
        ensures
            command_result_matches(
                r,
                spec_draw(
                    *self,
                    render_states,
                    program@,
                    camera_buffer.spec_data().len() as usize,
                    viewport,
                    transformation,
                    normal_transformation,
                ),
            ),
    {
        let attributes = match self.use_attributes(program, camera_buffer) {
            Ok(a) => a,
            Err(e) => {
                return Err(e);
            },
        };
        let mut uniforms: Vec<(UniformName, UniformValue)> = Vec::new();
        let model_matrix = match transformation {
            Some(t) => t,
            None => self.transformation,
        };
        uniforms.push((UniformName::ModelMatrix, UniformValue::MatVal(model_matrix)));
        if program.requires_attribute(Attribute::Normal) {
            let effective = match normal_transformation {
                Some(n) => Some(n),
                None => self.normal_transformation,
            };
            if let Some(n) = effective {
                uniforms.push((UniformName::NormalMatrix, UniformValue::MatVal(n)));
            }
        }
        let geometry = match &self.index_buffer {
            Some(b) => DrawGeometry::Elements { count: b.count() as u32 },
            None => DrawGeometry::Arrays { count: (self.position_buffer.count() / 3) as u32 },
        };
        let cmd = DrawCommand {
            program: program.duplicate(),
            states: render_states,
            viewport,
            camera_block: Some(camera_buffer.count()),
            attributes,
            uniforms,
            textures: Vec::new(),
            geometry,
        };
        proof {
            let spec = spec_draw(
                *self,
                render_states,
                program@,
                camera_buffer.spec_data().len() as usize,
                viewport,
                transformation,
                normal_transformation,
            );
            assert(cmd@.uniforms =~= spec->Ok_0.uniforms);
            assert(cmd@.textures =~= spec->Ok_0.textures);
        }
        Ok(cmd)
    }

    /// Renders the mesh with the given program inside an open render scope.
    pub fn render(
        &self,
        render_states: RenderStates,
        program: &Program,
        camera_buffer: &UniformBuffer,
        viewport: Viewport,
    ) -> (r: Result<DrawCommand, CoreError>)
        requires
            self.wf(),
            camera_buffer.spec_data().len() <= MAX_BUFFER_LEN,
        ensures
            command_result_matches(
                r,
                spec_draw(
                    *self,
                    render_states,
                    program@,
                    camera_buffer.spec_data().len() as usize,
                    viewport,
                    None,
                    None,
                ),
            ),
    {
        self.draw(render_states, program, camera_buffer, viewport, None, None)
    }

    /// Derives the vertex shader source matching a fragment source: a
    /// `#define` per attribute-usage sentinel found by textual scan, then
    /// the shared fragment text and the vertex shader body.
    pub fn vertex_shader_source(fragment_shader_source: &str) -> (r: String)
        ensures
            r@ == spec_vertex_shader_source(fragment_shader_source@),
    {
        let mut out = String::new();
        if contains_sub(fragment_shader_source, "in vec3 pos;") {
            out.append("#define USE_POSITIONS\n");
        }
        if contains_sub(fragment_shader_source, "in vec3 nor;") {
            out.append("#define USE_NORMALS\n");
        }
        if contains_sub(fragment_shader_source, "in vec2 uvs;") {
            out.append("#define USE_UVS\n");
        }
        if contains_sub(fragment_shader_source, "in vec4 col;") {
            out.append("#define USE_COLORS\n");
        }
        out.append("vec3 shared_world_position();\n");
        out.append("void main() { emit_vertex(); }\n");
        out
    }
}

/// Widens vertex-color bytes to buffer scalars.
fn widen_colors(colors: &Vec<u8>) -> (r: Vec<i64>)
    ensures
        r@ == spec_widen_colors(colors@),
{
    let mut r: Vec<i64> = Vec::new();
    let n = colors.len();
    let mut i: usize = 0;
    while i < n
        invariant
            i <= n,
            n == colors@.len(),
            r@.len() == i,
            forall|j: int| 0 <= j < i ==> r@[j] == colors@[j] as i64,
        decreases n - i,
    {
        r.push(colors[i] as i64);
        i += 1;
    }
    proof {
        assert(r@ =~= spec_widen_colors(colors@));
    }
    r
}

} // verus!
