//! Draw calls as data.
//!
//! A [`DrawCommand`] is the complete record of one draw: the program it runs,
//! the fixed-function state, the viewport, every uniform and texture binding,
//! and the geometry drawn.  Render targets append these records to their
//! write logs, so the effect of a pass is a value the contracts can speak of.

use vstd::prelude::*;

use crate::math::Mat4;
use crate::math::Vec3;
use crate::render_states::RenderStates;
use crate::render_states::Viewport;
use crate::shader::Program;
use crate::shader::ProgramModel;

verus! {

/// An 8-bit RGBA color value.
#[derive(Clone, Copy, Debug, PartialEq, Eq, Structural)]
pub struct Color {
    pub r: u8,
    pub g: u8,
    pub b: u8,
    pub a: u8,
}

impl Color {
    /// Builds the color `(r, g, b, a)`.
    pub fn new(r: u8, g: u8, b: u8, a: u8) -> (c: Color)
        ensures
            c == (Color { r, g, b, a }),
    {
        Color { r, g, b, a }
    }

    /// Opaque white.
    pub fn white() -> (c: Color)
        ensures
            c == (Color { r: 255, g: 255, b: 255, a: 255 }),
    {
        Color { r: 255, g: 255, b: 255, a: 255 }
    }
}

/// The name of a uniform binding.
#[derive(Clone, Copy, Debug, PartialEq, Eq, Structural)]
pub enum UniformName {
    ModelMatrix,
    NormalMatrix,
    ViewProjectionInverse,
    EyePosition,
    AmbientColor,
    DirectionalColor(u32),
    DirectionalDirection(u32),
    SpotColor(u32),
    SpotPosition(u32),
    SpotDirection(u32),
    SpotCutoff(u32),
    PointColor(u32),
    PointPosition(u32),
    SurfaceColor,
    DebugKind,
    ColorLayer,
    DepthLayer,
    GBuffer,
    DepthMap,
    ColorMap,
}

/// The value bound to a uniform.
#[derive(Clone, Copy, Debug, PartialEq, Eq, Structural)]
pub enum UniformValue {
    IntVal(i32),
    ScalarVal(i64),
    VecVal(Vec3),
    MatVal(Mat4),
    ColorVal(Color),
}

/// The kind of texture bound to a sampler uniform.
#[derive(Clone, Copy, Debug, PartialEq, Eq, Structural)]
pub enum TextureKind {
    Color2D,
    ColorArray,
    Depth2D,
    DepthArray,
}

/// A descriptor of a texture bound to a sampler uniform.
#[derive(Clone, Copy, Debug, PartialEq, Eq, Structural)]
pub struct TextureDesc {
    pub kind: TextureKind,
    pub width: u32,
    pub height: u32,
    pub layers: u32,
}

/// Which vertex and instance buffers a draw binds, with their element counts.
#[derive(Clone, Copy, Debug, PartialEq, Eq, Structural)]
pub struct BoundAttributes {
    /// Count of `(x, y, z)` positions bound, when bound.
    pub position: Option<u32>,
    /// Count of `(u, v)` pairs bound, when bound.
    pub uv_coordinates: Option<u32>,
    /// Count of `(x, y, z)` normals bound, when bound.
    pub normal: Option<u32>,
    /// Count of `(r, g, b, a)` colors bound, when bound.
    pub color: Option<u32>,
    /// Count of per-instance transform rows bound, when instanced.
    pub instance_rows: Option<u32>,
}

impl BoundAttributes {
    /// No attribute bound at all.
    pub fn none() -> (r: BoundAttributes)
        ensures
            r == BoundAttributes::none_spec(),
    {
        BoundAttributes {
            position: None,
            uv_coordinates: None,
            normal: None,
            color: None,
            instance_rows: None,
        }
    }

    /// The all-absent binding set as a specification value.
    pub open spec fn none_spec() -> BoundAttributes {
        BoundAttributes {
            position: None,
            uv_coordinates: None,
            normal: None,
            color: None,
            instance_rows: None,
        }
    }
}

/// The geometry one draw call emits.
#[derive(Clone, Copy, Debug, PartialEq, Eq, Structural)]
pub enum DrawGeometry {
    /// `count` triangles from the bound vertex buffers, unindexed.
    Arrays { count: u32 },
    /// Triangles through an index buffer of `count` indices.
    Elements { count: u32 },
    /// Instanced unindexed triangles.
    ArraysInstanced { count: u32, instances: u32 },
    /// Instanced indexed triangles.
    ElementsInstanced { count: u32, instances: u32 },
    /// One full-screen quad.
    FullScreenQuad,
}

/// One complete draw call, as a value.
#[derive(Debug)]
pub struct DrawCommand {
    /// The compiled program the draw runs.
    pub program: Program,
    /// The fixed-function state of the draw.
    pub states: RenderStates,
    /// The viewport the draw maps onto.
    pub viewport: Viewport,
    /// Length of the camera uniform block bound, when bound.
    pub camera_block: Option<usize>,
    /// The vertex and instance buffers bound.
    pub attributes: BoundAttributes,
    /// Every plain uniform bound, in binding order.
    pub uniforms: Vec<(UniformName, UniformValue)>,
    /// Every texture sampler bound, in binding order.
    pub textures: Vec<(UniformName, TextureDesc)>,
    /// The geometry drawn.
    pub geometry: DrawGeometry,
}

/// The mathematical model of a draw call.
pub struct CommandModel {
    pub program: ProgramModel,
    pub states: RenderStates,
    pub viewport: Viewport,
    pub camera_block: Option<usize>,
    pub attributes: BoundAttributes,
    pub uniforms: Seq<(UniformName, UniformValue)>,
    pub textures: Seq<(UniformName, TextureDesc)>,
    pub geometry: DrawGeometry,
}

impl View for DrawCommand {
    type V = CommandModel;

    open spec fn view(&self) -> CommandModel {
        CommandModel {
            program: self.program@,
            states: self.states,
            viewport: self.viewport,
            camera_block: self.camera_block,
            attributes: self.attributes,
            uniforms: self.uniforms@,
            textures: self.textures@,
            geometry: self.geometry,
        }
    }
}

/// Whether an executable draw result matches its specified model result.
pub open spec fn command_result_matches(
    r: Result<DrawCommand, crate::error::CoreError>,
    s: Result<CommandModel, crate::error::CoreError>,
) -> bool {
    match r {
        Ok(c) => s matches Ok(m) && c@ == m,
        Err(e) => s == Err::<CommandModel, crate::error::CoreError>(e),
    }
}

/// An element-wise copy of a vector of copyable values.
pub fn clone_vec_copy<T: Copy>(v: &Vec<T>) -> (r: Vec<T>)
    ensures
        r@ == v@,
{
    let mut r: Vec<T> = Vec::new();
    let n = v.len();
    let mut i: usize = 0;
    while i < n
        invariant
            i <= n,
            n == v@.len(),
            r@ == v@.subrange(0, i as int),
        decreases n - i,
    {
        r.push(v[i]);
        proof {
            assert(r@ =~= v@.subrange(0, i + 1));
        }
        i += 1;
    }
    proof {
        assert(r@ =~= v@);
    }
    r
}

impl DrawCommand {
    /// A fresh command value with the same model.
    pub fn duplicate(&self) -> (r: DrawCommand)
        ensures
            r@ == self@,
    {
        DrawCommand {
            program: self.program.duplicate(),
            states: self.states,
            viewport: self.viewport,
            camera_block: self.camera_block,
            attributes: self.attributes,
            uniforms: clone_vec_copy(&self.uniforms),
            textures: clone_vec_copy(&self.textures),
            geometry: self.geometry,
        }
    }
}

} // verus!
