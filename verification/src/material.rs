//! Materials: the shading capability a model carries.
//!
//! A forward material shades in a single pass; a deferred material writes
//! surface data for the geometry pass.  Each produces fragment shader source
//! text and uniform bindings, both pinned by the trait contracts to the
//! material's specification functions, so that rendering stays a function of
//! its inputs.

use vstd::prelude::*;
use vstd::string::StringExecFns;

use crate::camera::Camera;
use crate::command::Color;
use crate::command::UniformName;
use crate::command::UniformValue;
use crate::error::CoreError;
use crate::light::Lights;
use crate::render_states::RenderStates;
use crate::render_states::WriteMask;
use crate::shader::Program;

verus! {

/// A material able to shade in a single forward pass.
pub trait ForwardMaterial: Sized {
    /// The fragment source the material shades with, given the lights and
    /// whether the mesh carries vertex colors.
    spec fn spec_fragment_source(&self, lights: &Lights, use_vertex_colors: bool) -> Seq<char>;

    /// The uniforms the material binds.
    spec fn spec_uniforms(&self, camera: &Camera, lights: &Lights) -> Seq<
        (UniformName, UniformValue),
    >;

    /// The fixed-function state the material draws under.
    spec fn spec_render_states(&self, transparent: bool) -> RenderStates;

    /// Whether the material blends as transparent.
    spec fn spec_is_transparent(&self) -> bool;

    /// Produces the fragment shader source.
    fn fragment_shader_source(&self, lights: &Lights, use_vertex_colors: bool) -> (r: String)
        ensures
            r@ == self.spec_fragment_source(lights, use_vertex_colors),
    ;

    /// Binds the material's uniforms for the given program.
    fn bind(&self, program: &Program, camera: &Camera, lights: &Lights) -> (r: Result<
        Vec<(UniformName, UniformValue)>,
        CoreError,
    >)
        ensures
            match r {
                Ok(u) => u@ == self.spec_uniforms(camera, lights),
                Err(_) => false,
            },
    ;

    /// The fixed-function state the material draws under.
    fn render_states(&self, transparent: bool) -> (r: RenderStates)
        ensures
            r == self.spec_render_states(transparent),
    ;

    /// Whether the material blends as transparent.
    fn is_transparent(&self) -> (r: bool)
        ensures
            r == self.spec_is_transparent(),
    ;
}

/// A material that only writes depth; its fragment shader does nothing.
#[derive(Clone, Copy, Debug)]
pub struct DepthMaterial {
    pub render_states: RenderStates,
}

impl ForwardMaterial for DepthMaterial {
    open spec fn spec_fragment_source(&self, lights: &Lights, use_vertex_colors: bool) -> Seq<
        char,
    > {
        "void main() {}"@
    }

    open spec fn spec_uniforms(&self, camera: &Camera, lights: &Lights) -> Seq<
        (UniformName, UniformValue),
    > {
        Seq::empty()
    }

    open spec fn spec_render_states(&self, transparent: bool) -> RenderStates {
        self.render_states
    }

    open spec fn spec_is_transparent(&self) -> bool {
        false
    }

    fn fragment_shader_source(&self, _lights: &Lights, _use_vertex_colors: bool) -> (r: String) {
        String::from_str("void main() {}")
    }

    fn bind(&self, _program: &Program, _camera: &Camera, _lights: &Lights) -> (r: Result<
        Vec<(UniformName, UniformValue)>,
        CoreError,
    >) {
        let u: Vec<(UniformName, UniformValue)> = Vec::new();
        proof {
            assert(u@ =~= Seq::<(UniformName, UniformValue)>::empty());
        }
        Ok(u)
    }

    fn render_states(&self, _transparent: bool) -> (r: RenderStates) {
        self.render_states
    }

    fn is_transparent(&self) -> (r: bool) {
        false
    }
}

impl Default for DepthMaterial {
    /// Depth-only write mask under the otherwise default render state.
    fn default() -> (r: DepthMaterial)
        ensures
            r.render_states == (RenderStates {
                write_mask: WriteMask {
                    red: false,
                    green: false,
                    blue: false,
                    alpha: false,
                    depth: true,
                },
                ..RenderStates::default_spec()
            }),
    {
        DepthMaterial {
            render_states: RenderStates {
                write_mask: WriteMask::depth_only(),
                ..Default::default()
            },
        }
    }
}

/// The fragment source of a plain color material.
pub open spec fn spec_color_material_source(use_vertex_colors: bool) -> Seq<char> {
    if use_vertex_colors {
        "in vec4 col;\nuniform vec4 surfaceColor;\nvoid main() { shade_color(); }\n"@
    } else {
        "uniform vec4 surfaceColor;\nvoid main() { shade_color(); }\n"@
    }
}

/// A material shading every fragment with one surface color, optionally
/// modulated by vertex colors.
#[derive(Clone, Copy, Debug)]
pub struct ColorMaterial {
    pub color: Color,
}

impl ForwardMaterial for ColorMaterial {
    open spec fn spec_fragment_source(&self, lights: &Lights, use_vertex_colors: bool) -> Seq<
        char,
    > {
        spec_color_material_source(use_vertex_colors)
    }

    open spec fn spec_uniforms(&self, camera: &Camera, lights: &Lights) -> Seq<
        (UniformName, UniformValue),
    > {
        seq![(UniformName::SurfaceColor, UniformValue::ColorVal(self.color))]
    }

    open spec fn spec_render_states(&self, transparent: bool) -> RenderStates {
        RenderStates::default_spec()
    }

    open spec fn spec_is_transparent(&self) -> bool {
        self.color.a < 255
    }

    fn fragment_shader_source(&self, _lights: &Lights, use_vertex_colors: bool) -> (r: String) {
        if use_vertex_colors {
            String::from_str(
                "in vec4 col;\nuniform vec4 surfaceColor;\nvoid main() { shade_color(); }\n",
            )
        } else {
            String::from_str("uniform vec4 surfaceColor;\nvoid main() { shade_color(); }\n")
        }
    }

    fn bind(&self, _program: &Program, _camera: &Camera, _lights: &Lights) -> (r: Result<
        Vec<(UniformName, UniformValue)>,
        CoreError,
    >) {
        let mut u: Vec<(UniformName, UniformValue)> = Vec::new();
        u.push((UniformName::SurfaceColor, UniformValue::ColorVal(self.color)));
        proof {
            assert(u@ =~= seq![(UniformName::SurfaceColor, UniformValue::ColorVal(self.color))]);
        }
        Ok(u)
    }

    fn render_states(&self, _transparent: bool) -> (r: RenderStates) {
        Default::default()
    }

    fn is_transparent(&self) -> (r: bool) {
        self.color.a < 255
    }
}

impl Default for ColorMaterial {
    /// Opaque white.
    fn default() -> (r: ColorMaterial)
        ensures
            r.color == (Color { r: 255, g: 255, b: 255, a: 255 }),
    {
        ColorMaterial { color: Color { r: 255, g: 255, b: 255, a: 255 } }
    }
}

/// The fragment source of the deferred surface material's geometry pass.
pub open spec fn spec_deferred_material_source(use_vertex_colors: bool) -> Seq<char> {
    if use_vertex_colors {
        "in vec3 pos;\nin vec3 nor;\nin vec4 col;\nuniform vec4 surfaceColor;\nvoid main() { write_gbuffer(); }\n"@
    } else {
        "in vec3 pos;\nin vec3 nor;\nuniform vec4 surfaceColor;\nvoid main() { write_gbuffer(); }\n"@
    }
}

/// The surface description the deferred pipeline shades: an albedo color
/// with metallic and roughness factors, written to the geometry buffer.
#[derive(Clone, Copy, Debug, PartialEq, Eq, Structural)]
pub struct Material {
    pub albedo: Color,
    pub metallic: u8,
    pub roughness: u8,
}

impl Material {
    /// The uniforms the geometry pass binds for this surface.
    pub open spec fn spec_uniforms_deferred(&self) -> Seq<(UniformName, UniformValue)> {
        seq![(UniformName::SurfaceColor, UniformValue::ColorVal(self.albedo))]
    }

    /// The fixed-function state of the geometry pass draw.
    pub open spec fn spec_render_states_deferred(&self) -> RenderStates {
        RenderStates::default_spec()
    }

    /// Produces the geometry-pass fragment source for this surface.
    pub fn fragment_shader_source_deferred(&self, use_vertex_colors: bool) -> (r: String)
        ensures
            r@ == spec_deferred_material_source(use_vertex_colors),
    {
        if use_vertex_colors {
            String::from_str(
                "in vec3 pos;\nin vec3 nor;\nin vec4 col;\nuniform vec4 surfaceColor;\nvoid main() { write_gbuffer(); }\n",
            )
        } else {
            String::from_str(
                "in vec3 pos;\nin vec3 nor;\nuniform vec4 surfaceColor;\nvoid main() { write_gbuffer(); }\n",
            )
        }
    }

    /// Binds the geometry-pass uniforms.
    pub fn bind_deferred(&self) -> (r: Vec<(UniformName, UniformValue)>)
        ensures
            r@ == self.spec_uniforms_deferred(),
    {
        let mut u: Vec<(UniformName, UniformValue)> = Vec::new();
        u.push((UniformName::SurfaceColor, UniformValue::ColorVal(self.albedo)));
        proof {
            assert(u@ =~= self.spec_uniforms_deferred());
        }
        u
    }

    /// The fixed-function state of the geometry pass draw.
    pub fn render_states(&self) -> (r: RenderStates)
        ensures
            r == self.spec_render_states_deferred(),
    {
        Default::default()
    }
}

impl Default for Material {
    /// An opaque white, fully rough, non-metallic surface.
    fn default() -> (r: Material)
        ensures
            r == (Material {
                albedo: Color { r: 255, g: 255, b: 255, a: 255 },
                metallic: 0,
                roughness: 255,
            }),
    {
        Material { albedo: Color { r: 255, g: 255, b: 255, a: 255 }, metallic: 0, roughness: 255 }
    }
}

} // verus!
