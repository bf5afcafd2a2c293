//! Error values reported by the rendering core.

use vstd::prelude::*;

verus! {

/// A vertex attribute channel that a shader program may consume.
#[derive(Clone, Copy, Debug, PartialEq, Eq, Structural)]
pub enum Attribute {
    Position,
    UvCoordinates,
    Normal,
    Color,
}

/// The reason a CPU-side mesh was rejected before upload.
#[derive(Clone, Copy, Debug, PartialEq, Eq, Structural)]
pub enum ValidationKind {
    /// The position array is empty.
    EmptyPositions,
    /// The flat position array is not a whole number of `(x, y, z)` triples.
    PositionCountNotTriples,
    /// A position coordinate lies outside the representable coordinate range.
    PositionOutOfRange,
    /// The normal array length does not match the position array length.
    MismatchedNormals,
    /// The uv array does not hold one `(u, v)` pair per vertex.
    MismatchedUvs,
    /// The color array does not hold one `(r, g, b, a)` quadruple per vertex.
    MismatchedColors,
    /// An index refers to a vertex past the end of the position array.
    IndexOutOfRange,
    /// There is no index array and the vertex count is not a multiple of 3.
    VertexCountNotTriangles,
}

/// Every failure the rendering core can report.
#[derive(Clone, Copy, Debug, PartialEq, Eq, Structural)]
pub enum CoreError {
    /// A malformed CPU mesh: mismatched attribute lengths or bad indices.
    Validation(ValidationKind),
    /// A GPU allocation (buffer, texture or framebuffer) failed.
    ResourceCreation,
    /// A shader program needs an attribute the bound mesh does not supply.
    MissingAttribute(Attribute),
    /// The attachment combination was rejected when binding a render target.
    FramebufferIncomplete,
    /// A shader program failed to compile.
    ShaderCompilation,
}

impl CoreError {
    /// A short human-readable description of the error.
    pub fn description(&self) -> (r: &'static str)
        ensures
            r@ == match self {
                CoreError::Validation(_) => "invalid cpu mesh"@,
                CoreError::ResourceCreation => "gpu resource creation failed"@,
                CoreError::MissingAttribute(_) => "mesh is missing a required attribute"@,
                CoreError::FramebufferIncomplete => "framebuffer is incomplete"@,
                CoreError::ShaderCompilation => "shader compilation failed"@,
            },
    {
        match self {
            CoreError::Validation(_) => "invalid cpu mesh",
            CoreError::ResourceCreation => "gpu resource creation failed",
            CoreError::MissingAttribute(_) => "mesh is missing a required attribute",
            CoreError::FramebufferIncomplete => "framebuffer is incomplete",
            CoreError::ShaderCompilation => "shader compilation failed",
        }
    }
}

} // verus!
