//! Shader source synthesis, the attribute-sentinel scan, and compiled
//! program objects.
//!
//! Shader text is ordinary ASCII source.  A program introspects which vertex
//! attributes it consumes by scanning its fragment source for four fixed
//! sentinel declarations; the same scan drives the `#define` header of the
//! synthesized vertex shader.

use vstd::prelude::*;
use vstd::string::StrSliceExecFns;
use vstd::string::StringExecFns;

use crate::error::Attribute;
use crate::error::CoreError;

verus! {

/// Whether `needle` occurs as a contiguous run inside `hay`.
pub open spec fn spec_contains(hay: Seq<char>, needle: Seq<char>) -> bool {
    exists|k: int|
        0 <= k <= hay.len() - needle.len()
            && #[trigger] hay.subrange(k, k + needle.len() as int) == needle
}

/// Checks whether the characters of `needle` appear at offset `k` of `hay`.
#[verifier::loop_isolation(false)]
fn match_at(hay: &str, needle: &str, k: usize) -> (r: bool)
    requires
        k + needle@.len() <= hay@.len(),
        hay@.len() <= usize::MAX as int,
    ensures
        r == (hay@.subrange(k as int, k as int + needle@.len() as int) == needle@),
{
    let nn = needle.unicode_len();
    let mut j: usize = 0;
    while j < nn
        invariant
            j <= nn,
            forall|t: int| 0 <= t < j ==> hay@[k + t] == needle@[t],
        decreases nn - j,
    {
        if hay.get_char(k + j) != needle.get_char(j) {
            proof {
                assert(hay@.subrange(k as int, k as int + needle@.len() as int)[j as int]
                    != needle@[j as int]);
            }
            return false;
        }
        j += 1;
    }
    proof {
        assert(hay@.subrange(k as int, k as int + needle@.len() as int) =~= needle@);
    }
    true
}

/// Scans `hay` for `needle`, deciding [`spec_contains`] exactly.
#[verifier::loop_isolation(false)]
pub fn contains_sub(hay: &str, needle: &str) -> (r: bool)
    ensures
        r == spec_contains(hay@, needle@),
{
    let hn = hay.unicode_len();
    let nn = needle.unicode_len();
    if nn > hn {
        return false;
    }
    if nn == 0 {
        proof {
            let witness: int = 0;
            assert(hay@.subrange(witness, witness + needle@.len() as int) =~= needle@);
            assert(spec_contains(hay@, needle@));
        }
        return true;
    }
    let mut k: usize = 0;
    while k <= hn - nn
        invariant
            k <= hn - nn + 1,
            forall|k2: int| 0 <= k2 < k
                ==> #[trigger] hay@.subrange(k2, k2 + needle@.len() as int) != needle@,
        decreases hn - nn - k + 1,
    {
        if match_at(hay, needle, k) {
            return true;
        }
        k += 1;
    }
    false
}

/// Which vertex attributes a shader program consumes.
#[derive(Clone, Copy, Debug, PartialEq, Eq, Structural)]
pub struct AttrFlags {
    pub position: bool,
    pub uv_coordinates: bool,
    pub normal: bool,
    pub color: bool,
}

/// The sentinel declaration whose presence marks a use of positions.
pub open spec fn sentinel_positions() -> Seq<char> {
    "in vec3 pos;"@
}

/// The sentinel declaration whose presence marks a use of normals.
pub open spec fn sentinel_normals() -> Seq<char> {
    "in vec3 nor;"@
}

/// The sentinel declaration whose presence marks a use of uv coordinates.
pub open spec fn sentinel_uvs() -> Seq<char> {
    "in vec2 uvs;"@
}

/// The sentinel declaration whose presence marks a use of vertex colors.
pub open spec fn sentinel_colors() -> Seq<char> {
    "in vec4 col;"@
}

/// The attributes a program with this fragment source consumes, per the
/// four-sentinel scan.
pub open spec fn spec_required_attrs(fragment: Seq<char>) -> AttrFlags {
    AttrFlags {
        position: spec_contains(fragment, sentinel_positions()),
        uv_coordinates: spec_contains(fragment, sentinel_uvs()),
        normal: spec_contains(fragment, sentinel_normals()),
        color: spec_contains(fragment, sentinel_colors()),
    }
}

/// A compiled shader program: its two sources and the attributes it needs.
#[derive(Debug)]
pub struct Program {
    pub vertex_source: String,
    pub fragment_source: String,
    pub attrs: AttrFlags,
}

/// The mathematical model of a compiled program.
pub struct ProgramModel {
    pub vertex: Seq<char>,
    pub fragment: Seq<char>,
    pub attrs: AttrFlags,
}

impl View for Program {
    type V = ProgramModel;

    open spec fn view(&self) -> ProgramModel {
        ProgramModel {
            vertex: self.vertex_source@,
            fragment: self.fragment_source@,
            attrs: self.attrs,
        }
    }
}

/// The outcome compiling the two sources must produce: compilation fails
/// exactly on an empty source, and the attribute flags come from the scan.
pub open spec fn spec_compile(vertex: Seq<char>, fragment: Seq<char>) -> Result<
    ProgramModel,
    CoreError,
> {
    if vertex.len() == 0 || fragment.len() == 0 {
        Err(CoreError::ShaderCompilation)
    } else {
        Ok(ProgramModel { vertex, fragment, attrs: spec_required_attrs(fragment) })
    }
}

impl Program {
    /// Compiles a program from the given sources; rejects empty sources with
    /// `ShaderCompilation` and records the attribute scan of the fragment.
    pub fn compile(vertex_source: String, fragment_source: String) -> (r: Result<
        Program,
        CoreError,
    >)
        ensures
            match r {
                Ok(p) => spec_compile(vertex_source@, fragment_source@) == Ok::<
                    ProgramModel,
                    CoreError,
                >(p@),
                Err(e) => spec_compile(vertex_source@, fragment_source@) == Err::<
                    ProgramModel,
                    CoreError,
                >(e),
            },
    {
        if vertex_source.as_str().unicode_len() == 0 || fragment_source.as_str().unicode_len() == 0 {
            return Err(CoreError::ShaderCompilation);
        }
        let attrs = AttrFlags {
            position: contains_sub(fragment_source.as_str(), "in vec3 pos;"),
            uv_coordinates: contains_sub(fragment_source.as_str(), "in vec2 uvs;"),
            normal: contains_sub(fragment_source.as_str(), "in vec3 nor;"),
            color: contains_sub(fragment_source.as_str(), "in vec4 col;"),
        };
        Ok(Program { vertex_source, fragment_source, attrs })
    }

    /// Whether the program declares a need for the given attribute.
    pub fn requires_attribute(&self, attribute: Attribute) -> (r: bool)
        ensures
            r == match attribute {
                Attribute::Position => self.attrs.position,
                Attribute::UvCoordinates => self.attrs.uv_coordinates,
                Attribute::Normal => self.attrs.normal,
                Attribute::Color => self.attrs.color,
            },
    {
        match attribute {
            Attribute::Position => self.attrs.position,
            Attribute::UvCoordinates => self.attrs.uv_coordinates,
            Attribute::Normal => self.attrs.normal,
            Attribute::Color => self.attrs.color,
        }
    }

    /// A fresh program value with the same model.
    pub fn duplicate(&self) -> (r: Program)
        ensures
            r@ == self@,
    {
        Program {
            vertex_source: self.vertex_source.clone(),
            fragment_source: self.fragment_source.clone(),
            attrs: self.attrs,
        }
    }
}

/// The lighting model the light pass shades with.
#[derive(Clone, Copy, Debug, PartialEq, Eq, Structural)]
pub enum LightingModel {
    Phong,
    Blinn,
    Cook,
}

/// `s` repeated `n` times, back to back.
pub open spec fn repeat_seq(s: Seq<char>, n: nat) -> Seq<char>
    decreases n,
{
    if n == 0 {
        Seq::empty()
    } else {
        repeat_seq(s, (n - 1) as nat) + s
    }
}

/// Appends `n` copies of `piece` to `out`.
#[verifier::loop_isolation(false)]
fn append_repeated(out: &mut String, piece: &str, n: usize)
    ensures
        final(out)@ == old(out)@ + repeat_seq(piece@, n as nat),
{
    let mut i: usize = 0;
    while i < n
        invariant
            i <= n,
            out@ == old(out)@ + repeat_seq(piece@, i as nat),
        decreases n - i,
    {
        out.append(piece);
        i += 1;
    }
}

/// The shading header of the given lighting model.
pub open spec fn lighting_header(model: LightingModel) -> Seq<char> {
    match model {
        LightingModel::Phong => "#define PHONG\n"@,
        LightingModel::Blinn => "#define BLINN\n"@,
        LightingModel::Cook => "#define COOK\n"@,
    }
}

/// The per-light declaration tokens of the synthesized light-pass shader.
pub open spec fn directional_token() -> Seq<char> {
    "#define DIRECTIONAL\n"@
}

/// The declaration token of one spot light.
pub open spec fn spot_token() -> Seq<char> {
    "#define SPOT\n"@
}

/// The declaration token of one point light.
pub open spec fn point_token() -> Seq<char> {
    "#define POINT\n"@
}

/// The fixed body of the synthesized light-pass shader.
pub open spec fn shaded_body() -> Seq<char> {
    "uniform sampler2DArray gbuffer;\nuniform sampler2DArray depthMap;\nvoid main() { shade(); }\n"@
}

/// The full fragment source the light pass runs for the given lighting model
/// and light counts: header, one token per light, then the fixed body.
pub open spec fn spec_shaded_fragment(
    model: LightingModel,
    directional: nat,
    spot: nat,
    point: nat,
) -> Seq<char> {
    lighting_header(model) + repeat_seq(directional_token(), directional)
        + repeat_seq(spot_token(), spot) + repeat_seq(point_token(), point) + shaded_body()
}

/// Synthesizes the light-pass fragment source for a lighting model and the
/// number of directional, spot and point lights.
pub fn shaded_fragment_shader(
    model: LightingModel,
    directional: usize,
    spot: usize,
    point: usize,
) -> (r: String)
    ensures
        r@ == spec_shaded_fragment(model, directional as nat, spot as nat, point as nat),
{
    let mut out = String::new();
    match model {
        LightingModel::Phong => out.append("#define PHONG\n"),
        LightingModel::Blinn => out.append("#define BLINN\n"),
        LightingModel::Cook => out.append("#define COOK\n"),
    }
    append_repeated(&mut out, "#define DIRECTIONAL\n", directional);
    append_repeated(&mut out, "#define SPOT\n", spot);
    append_repeated(&mut out, "#define POINT\n", point);
    out.append(
        "uniform sampler2DArray gbuffer;\nuniform sampler2DArray depthMap;\nvoid main() { shade(); }\n",
    );
    out
}

/// The fixed vertex source every full-screen effect runs.
pub open spec fn effect_vertex_source() -> Seq<char> {
    "in vec2 uv;\nvoid main() { gl_Position = vec4(position, 1.0); }\n"@
}

/// A compiled full-screen image effect.
#[derive(Debug)]
pub struct ImageEffect {
    pub program: Program,
}

impl View for ImageEffect {
    type V = ProgramModel;

    open spec fn view(&self) -> ProgramModel {
        self.program@
    }
}

impl ImageEffect {
    /// Compiles a full-screen effect from a fragment source; the vertex
    /// source is the fixed full-screen quad shader.
    pub fn new(fragment_source: String) -> (r: Result<ImageEffect, CoreError>)
        ensures
            match r {
                Ok(e) => spec_compile(effect_vertex_source(), fragment_source@) == Ok::<
                    ProgramModel,
                    CoreError,
                >(e@),
                Err(e) => spec_compile(effect_vertex_source(), fragment_source@) == Err::<
                    ProgramModel,
                    CoreError,
                >(e),
            },
    {
        let vertex = String::from_str("in vec2 uv;\nvoid main() { gl_Position = vec4(position, 1.0); }\n");
        match Program::compile(vertex, fragment_source) {
            Ok(program) => Ok(ImageEffect { program }),
            Err(e) => Err(e),
        }
    }

    /// A fresh effect value with the same model.
    pub fn duplicate(&self) -> (r: ImageEffect)
        ensures
            r@ == self@,
    {
        ImageEffect { program: self.program.duplicate() }
    }
}

} // verus!
