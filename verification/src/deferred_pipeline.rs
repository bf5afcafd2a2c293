//! The deferred shading pipeline: a geometry pass writing surface data into
//! a layered offscreen target, and a light pass shading from it.
//!
//! The geometry textures are reallocated at every geometry pass, sized to
//! the camera's viewport; they are not persisted between frames.  The
//! compiled light-pass programs are cached by lighting model and light-count
//! triple, and the cache never evicts: it grows with the number of distinct
//! combinations observed, a deliberate, documented tradeoff.

use vstd::prelude::*;
use vstd::pervasive::unreached;
use vstd::string::StringExecFns;

use crate::camera::Camera;
use crate::camera::spec_in_frustum;
use crate::command::BoundAttributes;
use crate::command::Color;
use crate::command::CommandModel;
use crate::command::DrawCommand;
use crate::command::DrawGeometry;
use crate::command::TextureDesc;
use crate::command::UniformName;
use crate::command::UniformValue;
use crate::context::Context;
use crate::error::CoreError;
use crate::light::AmbientLight;
use crate::light::DirectionalLight;
use crate::light::PointLight;
use crate::light::SpotLight;
use crate::light::bind_lights;
use crate::light::spec_bind_lights;
use crate::material::Material;
use crate::model::ShadedGeometry;
use crate::render_states::ClearState;
use crate::render_states::DEPTH_FAR;
use crate::render_states::DepthTest;
use crate::render_states::RenderStates;
use crate::render_states::Viewport;
use crate::render_target::RenderTargetArray;
use crate::shader::ImageEffect;
use crate::shader::LightingModel;
use crate::shader::ProgramModel;
use crate::shader::effect_vertex_source;
use crate::shader::shaded_fragment_shader;
use crate::shader::spec_required_attrs;
use crate::shader::spec_shaded_fragment;
use crate::texture::ColorArrayModel;
use crate::texture::ColorTargetTexture2DArray;
use crate::texture::ColorWriteModel;
use crate::texture::DepthArrayModel;
use crate::texture::DepthTargetTexture2D;
use crate::texture::DepthTargetTexture2DArray;
use crate::texture::DepthWriteModel;
use crate::texture::color_array_wf;
use crate::texture::depth_array_wf;
use crate::texture::spec_clear_color_layers;
use crate::texture::spec_clear_depth_layer;
use crate::texture::texture_dims_valid;

verus! {

/// Which geometry-buffer channel the debug visualization shows.
#[derive(Clone, Copy, Debug, PartialEq, Eq, Structural)]
pub enum DebugType {
    POSITION,
    NORMAL,
    COLOR,
    DEPTH,
    DIFFUSE,
    SPECULAR,
    POWER,
    NONE,
}

/// The integer the debug shader receives for each debug channel.
pub open spec fn debug_code(d: DebugType) -> i32 {
    match d {
        DebugType::POSITION => 0,
        DebugType::NORMAL => 1,
        DebugType::COLOR => 2,
        DebugType::DEPTH => 3,
        DebugType::DIFFUSE => 4,
        DebugType::SPECULAR => 5,
        DebugType::POWER => 6,
        DebugType::NONE => 7,
    }
}

/// The fragment source of the debug visualization effect.
pub open spec fn debug_fragment_source() -> Seq<char> {
    "uniform sampler2DArray gbuffer;\nuniform sampler2DArray depthMap;\nuniform int debugKind;\nvoid main() { visualize(); }\n"@
}

/// One cached light-pass program with the key it was compiled for.
#[derive(Debug)]
pub struct ProgramCacheEntry {
    pub model: LightingModel,
    pub directional: usize,
    pub spot: usize,
    pub point: usize,
    pub effect: ImageEffect,
}

/// A cache entry is well formed when its effect is exactly the compiled
/// light-pass program of its key.
pub open spec fn entry_wf(e: ProgramCacheEntry) -> bool {
    &&& e.effect@.vertex == effect_vertex_source()
    &&& e.effect@.fragment == spec_shaded_fragment(
        e.model,
        e.directional as nat,
        e.spot as nat,
        e.point as nat,
    )
    &&& e.effect@.attrs == spec_required_attrs(e.effect@.fragment)
}

/// Whether the cache already holds a program for this key.
pub open spec fn spec_cache_has(
    map: Seq<ProgramCacheEntry>,
    model: LightingModel,
    directional: usize,
    spot: usize,
    point: usize,
) -> bool {
    exists|i: int|
        0 <= i < map.len() && (#[trigger] map[i]).model == model && map[i].directional
            == directional && map[i].spot == spot && map[i].point == point
}

/// Whether the given geometry is skipped by frustum culling.
pub open spec fn spec_culled<G: ShadedGeometry>(g: &G, camera: &Camera) -> bool {
    match g.spec_geometry_aabb() {
        Some(a) => !spec_in_frustum(a, camera.view_projection),
        None => false,
    }
}

/// The commands the first `k` geometries contribute, in submission order,
/// with the first error that stops the pass.
pub open spec fn spec_geometry_commands<G: ShadedGeometry>(
    geoms: Seq<(&G, &Material)>,
    camera: &Camera,
    k: nat,
) -> (Seq<CommandModel>, Option<CoreError>)
    decreases k,
{
    if k == 0 {
        (Seq::empty(), None)
    } else {
        let prev = spec_geometry_commands(geoms, camera, (k - 1) as nat);
        if prev.1 is Some {
            prev
        } else {
            let g = geoms[k - 1].0;
            let mat = geoms[k - 1].1;
            if spec_culled(g, camera) {
                prev
            } else {
                match g.spec_geometry_pass(camera, mat) {
                    Ok(c) => (prev.0.push(c), None),
                    Err(e) => (prev.0, Some(e)),
                }
            }
        }
    }
}

/// Once a geometry fails, the later prefix results do not change.
proof fn lemma_commands_stable<G: ShadedGeometry>(
    geoms: Seq<(&G, &Material)>,
    camera: &Camera,
    k1: nat,
    k2: nat,
)
    requires
        k1 <= k2,
        spec_geometry_commands(geoms, camera, k1).1 is Some,
    ensures
        spec_geometry_commands(geoms, camera, k2) == spec_geometry_commands(geoms, camera, k1),
    decreases k2,
{
    if k2 > k1 {
        lemma_commands_stable(geoms, camera, k1, (k2 - 1) as nat);
    }
}

/// The geometry color buffer after a pass that submitted these commands:
/// freshly allocated at the viewport size, fully cleared, every command
/// recorded against layers 0 and 1.
pub open spec fn spec_geometry_color_after(
    width: u32,
    height: u32,
    cmds: Seq<CommandModel>,
) -> ColorArrayModel {
    ColorArrayModel {
        width,
        height,
        layers: 2,
        mip_maps: false,
        mip_maps_current: false,
        pixels: spec_clear_color_layers(
            Seq::new(
                (width as int * height as int * 2) as nat,
                |i: int| Color { r: 0, g: 0, b: 0, a: 0 },
            ),
            width as nat,
            height as nat,
            seq![0u32, 1u32],
            ClearState::default_spec(),
        ),
        writes: Seq::new(
            cmds.len(),
            |i: int| ColorWriteModel { layers: seq![0u32, 1u32], command: cmds[i] },
        ),
    }
}

/// The geometry depth buffer after a pass that submitted these commands.
pub open spec fn spec_geometry_depth_after(
    width: u32,
    height: u32,
    cmds: Seq<CommandModel>,
) -> DepthArrayModel {
    DepthArrayModel {
        width,
        height,
        layers: 1,
        pixels: spec_clear_depth_layer(
            Seq::new((width as int * height as int * 1) as nat, |i: int| DEPTH_FAR),
            width as nat,
            height as nat,
            0,
            DEPTH_FAR,
        ),
        writes: Seq::new(cmds.len(), |i: int| DepthWriteModel { layer: 0, command: cmds[i] }),
    }
}

/// The full-screen draw the debug visualization issues.
pub open spec fn spec_debug_command(
    debug_type: DebugType,
    camera: &Camera,
    color_desc: TextureDesc,
    depth_desc: TextureDesc,
) -> CommandModel {
    CommandModel {
        program: ProgramModel {
            vertex: effect_vertex_source(),
            fragment: debug_fragment_source(),
            attrs: spec_required_attrs(debug_fragment_source()),
        },
        states: RenderStates { depth_test: DepthTest::LessOrEqual, ..RenderStates::default_spec() },
        viewport: camera.viewport,
        camera_block: None,
        attributes: BoundAttributes::none_spec(),
        uniforms: seq![
            (
                UniformName::ViewProjectionInverse,
                UniformValue::MatVal(camera.view_projection_inverse),
            ),
            (UniformName::DebugKind, UniformValue::IntVal(debug_code(debug_type))),
        ],
        textures: seq![(UniformName::GBuffer, color_desc), (UniformName::DepthMap, depth_desc)],
        geometry: DrawGeometry::FullScreenQuad,
    }
}

/// The full-screen draw the light pass issues: the shaded program for the
/// light counts, every light uniform, the two geometry buffers, and the
/// view-projection inverse exactly when any light is present.
pub open spec fn spec_light_pass_command(
    model: LightingModel,
    camera: &Camera,
    ambient: Option<AmbientLight>,
    directional: Seq<DirectionalLight>,
    spot: Seq<SpotLight>,
    point: Seq<PointLight>,
    color_desc: TextureDesc,
    depth_desc: TextureDesc,
) -> CommandModel {
    let fragment = spec_shaded_fragment(model, directional.len(), spot.len(), point.len());
    CommandModel {
        program: ProgramModel {
            vertex: effect_vertex_source(),
            fragment,
            attrs: spec_required_attrs(fragment),
        },
        states: RenderStates { depth_test: DepthTest::LessOrEqual, ..RenderStates::default_spec() },
        viewport: camera.viewport,
        camera_block: None,
        attributes: BoundAttributes::none_spec(),
        uniforms: spec_bind_lights(ambient, directional, spot, point, camera.position) + (if
        directional.len() + spot.len() + point.len() > 0 {
            seq![
                (
                    UniformName::ViewProjectionInverse,
                    UniformValue::MatVal(camera.view_projection_inverse),
                ),
            ]
        } else {
            Seq::empty()
        }),
        textures: seq![(UniformName::GBuffer, color_desc), (UniformName::DepthMap, depth_desc)],
        geometry: DrawGeometry::FullScreenQuad,
    }
}

/// The deferred pipeline: the two geometry textures, the light-pass program
/// cache, and the debug settings.
#[derive(Debug)]
pub struct DeferredPipeline {
    /// The context the pipeline renders through.
    pub context: Context,
    /// Compiled light-pass programs, keyed by lighting model and light
    /// counts; never evicted.
    pub program_map: Vec<ProgramCacheEntry>,
    /// The lazily compiled debug visualization effect.
    pub debug_effect: Option<ImageEffect>,
    /// Set this to visualize the geometry-buffer channels.
    pub debug_type: DebugType,
    /// The lighting model the light pass shades with.
    pub lighting_model: LightingModel,
    /// The two-layer color buffer of the last geometry pass.
    pub geometry_pass_texture: Option<ColorTargetTexture2DArray>,
    /// The one-layer depth buffer of the last geometry pass.
    pub geometry_pass_depth_texture: Option<DepthTargetTexture2DArray>,
}

impl DeferredPipeline {
    /// The pipeline invariant: both geometry textures exist with matching
    /// sizes and the fixed layer counts, and every cache entry holds the
    /// compiled program of its key.
    pub open spec fn wf(&self) -> bool {
        &&& self.geometry_pass_texture is Some
        &&& self.geometry_pass_depth_texture is Some
        &&& color_array_wf(self.geometry_pass_texture->Some_0@)
        &&& depth_array_wf(self.geometry_pass_depth_texture->Some_0@)
        &&& self.geometry_pass_texture->Some_0@.layers == 2
        &&& self.geometry_pass_depth_texture->Some_0@.layers == 1
        &&& self.geometry_pass_texture->Some_0@.width
            == self.geometry_pass_depth_texture->Some_0@.width
        &&& self.geometry_pass_texture->Some_0@.height
            == self.geometry_pass_depth_texture->Some_0@.height
        &&& forall|i: int| 0 <= i < self.program_map@.len() ==> entry_wf(
            #[trigger] self.program_map@[i],
        )
        &&& (self.debug_effect matches Some(e) ==> e@ == (ProgramModel {
            vertex: effect_vertex_source(),
            fragment: debug_fragment_source(),
            attrs: spec_required_attrs(debug_fragment_source()),
        }))
    }

    /// Builds a pipeline with fresh one-texel geometry textures, an empty
    /// program cache, Blinn shading and no debug visualization.
    pub fn new(context: &Context) -> (r: Result<DeferredPipeline, CoreError>)
        ensures
            match r {
                Ok(p) => p.wf() && p.program_map@.len() == 0 && p.debug_effect is None
                    && p.debug_type == DebugType::NONE && p.lighting_model == LightingModel::Blinn
                    && p.geometry_pass_texture->Some_0@.width == 1
                    && p.geometry_pass_texture->Some_0@.height == 1,
                Err(_) => false,
            },
    {
        let color = match ColorTargetTexture2DArray::new(context, 1, 1, 2, false) {
            Ok(t) => t,
            Err(_) => {
                return unreached();
            },
        };
        let depth = match DepthTargetTexture2DArray::new(context, 1, 1, 1) {
            Ok(t) => t,
            Err(_) => {
                return unreached();
            },
        };
        let p = DeferredPipeline {
            context: *context,
            program_map: Vec::new(),
            debug_effect: None,
            debug_type: DebugType::NONE,
            lighting_model: LightingModel::Blinn,
            geometry_pass_texture: Some(color),
            geometry_pass_depth_texture: Some(depth),
        };
        Ok(p)
    }

    /// Runs the geometry pass: reallocates both geometry textures to the
    /// camera viewport, opens a fully cleared write over color layers 0 and
    /// 1 and depth layer 0, and renders every geometry that survives frustum
    /// culling, in list order; the first geometry error aborts the pass, and
    /// draws already submitted are kept.
    #[verifier::loop_isolation(false)]
    pub fn geometry_pass<G: ShadedGeometry>(
        &mut self,
        camera: &Camera,
        geometries: &[(&G, &Material)],
    ) -> (r: Result<(), CoreError>)
        requires
            old(self).wf(),
            camera.wf(),
            forall|i: int| 0 <= i < geometries@.len()
                ==> (#[trigger] geometries@[i].0).spec_geometry_wf(),
        ensures
            final(self).wf(),
            final(self).program_map@ == old(self).program_map@,
            final(self).debug_effect == old(self).debug_effect,
            final(self).debug_type == old(self).debug_type,
            final(self).lighting_model == old(self).lighting_model,
            if !texture_dims_valid(camera.viewport.width, camera.viewport.height, 2) {
                r == Err::<(), CoreError>(CoreError::ResourceCreation) && *final(self) == *old(self)
            } else {
                {
                    let run = spec_geometry_commands(geometries@, camera, geometries@.len());
                    &&& r == (match run.1 {
                        None => Ok::<(), CoreError>(()),
                        Some(e) => Err(e),
                    })
                    &&& final(self).geometry_pass_texture matches Some(t) && t@
                        == spec_geometry_color_after(
                        camera.viewport.width,
                        camera.viewport.height,
                        run.0,
                    )
                    &&& final(self).geometry_pass_depth_texture matches Some(t) && t@
                        == spec_geometry_depth_after(
                        camera.viewport.width,
                        camera.viewport.height,
                        run.0,
                    )
                }
            },
    {
        let vp = camera.viewport();
        let color = match ColorTargetTexture2DArray::new(&self.context, vp.width, vp.height, 2, false) {
            Ok(t) => t,
            Err(e) => {
                return Err(e);
            },
        };
        let depth = match DepthTargetTexture2DArray::new(&self.context, vp.width, vp.height, 1) {
            Ok(t) => t,
            Err(e) => {
                return Err(e);
            },
        };
        let mut target = match RenderTargetArray::new(&self.context, color, depth) {
            Ok(t) => t,
            Err(_) => {
                return unreached();
            },
        };
        let mut layers: Vec<u32> = Vec::new();
        layers.push(0);
        layers.push(1);
        proof {
            assert(layers@ =~= seq![0u32, 1u32]);
        }
        match target.begin_write(&layers, 0, Default::default()) {
            Ok(()) => {},
            Err(_) => {
                return unreached();
            },
        }
        let ghost cleared = target;
        proof {
            if cleared@.color is Some {
                assert(cleared@.color->Some_0.writes =~= wrap_color(
                    spec_geometry_commands(geometries@, camera, 0).0,
                    layers@,
                ));
            }
            if cleared@.depth is Some {
                assert(cleared@.depth->Some_0.writes =~= wrap_depth(
                    spec_geometry_commands(geometries@, camera, 0).0,
                    0,
                ));
            }
        }
        let n = geometries.len();
        let mut i: usize = 0;
        while i < n
            invariant
                i <= n,
                n == geometries@.len(),
                *self == *old(self),
                crate::render_target::render_target_wf(target@),
                spec_geometry_commands(geometries@, camera, i as nat).1 is None,
                target@.color matches Some(c) && c == (ColorArrayModel {
                    writes: wrap_color(
                        spec_geometry_commands(geometries@, camera, i as nat).0,
                        layers@,
                    ),
                    ..cleared@.color->Some_0
                }),
                target@.depth matches Some(d) && d == (DepthArrayModel {
                    writes: wrap_depth(spec_geometry_commands(geometries@, camera, i as nat).0, 0),
                    ..cleared@.depth->Some_0
                }),
            decreases n - i,
        {
            let g = geometries[i].0;
            let material = geometries[i].1;
            let visible = match g.aabb() {
                Some(a) => camera.in_frustum(&a),
                None => true,
            };
            if visible {
                match g.geometry_pass(Default::default(), camera, material) {
                    Ok(cmd) => {
                        target.submit(&layers, 0, &cmd);
                        proof {
                            let pre = spec_geometry_commands(geometries@, camera, i as nat).0;
                            let post = spec_geometry_commands(geometries@, camera, (i + 1) as nat).0;
                            assert(post =~= pre.push(cmd@));
                            assert(wrap_color(pre, layers@).push(
                                ColorWriteModel { layers: layers@, command: cmd@ },
                            ) =~= wrap_color(post, layers@));
                            assert(wrap_depth(pre, 0).push(
                                DepthWriteModel { layer: 0, command: cmd@ },
                            ) =~= wrap_depth(post, 0));
                        }
                    },
                    Err(e) => {
                        proof {
                            lemma_commands_stable(
                                geometries@,
                                camera,
                                (i + 1) as nat,
                                geometries@.len(),
                            );
                        }
                        let (c, d) = target.into_textures();
                        self.geometry_pass_texture = c;
                        self.geometry_pass_depth_texture = d;
                        proof {
                            let run = spec_geometry_commands(
                                geometries@,
                                camera,
                                geometries@.len(),
                            );
                            assert(self.geometry_pass_texture->Some_0@.writes =~= Seq::new(
                                run.0.len(),
                                |j: int| ColorWriteModel {
                                    layers: seq![0u32, 1u32],
                                    command: run.0[j],
                                },
                            ));
                            assert(self.geometry_pass_depth_texture->Some_0@.writes =~= Seq::new(
                                run.0.len(),
                                |j: int| DepthWriteModel { layer: 0, command: run.0[j] },
                            ));
                            assert(self.geometry_pass_texture->Some_0@.pixels
                                =~= spec_geometry_color_after(vp.width, vp.height, run.0).pixels);
                            assert(self.geometry_pass_depth_texture->Some_0@.pixels
                                =~= spec_geometry_depth_after(vp.width, vp.height, run.0).pixels);
                        }
                        return Err(e);
                    },
                }
            }
            i += 1;
        }
        target.end_write();
        let (c, d) = target.into_textures();
        self.geometry_pass_texture = c;
        self.geometry_pass_depth_texture = d;
        proof {
            let run = spec_geometry_commands(geometries@, camera, geometries@.len());
            assert(self.geometry_pass_texture->Some_0@.writes =~= Seq::new(
                run.0.len(),
                |j: int| ColorWriteModel { layers: seq![0u32, 1u32], command: run.0[j] },
            ));
            assert(self.geometry_pass_depth_texture->Some_0@.writes =~= Seq::new(
                run.0.len(),
                |j: int| DepthWriteModel { layer: 0, command: run.0[j] },
            ));
            assert(self.geometry_pass_texture->Some_0@.pixels =~= spec_geometry_color_after(
                vp.width,
                vp.height,
                run.0,
            ).pixels);
            assert(self.geometry_pass_depth_texture->Some_0@.pixels =~= spec_geometry_depth_after(
                vp.width,
                vp.height,
                run.0,
            ).pixels);
        }
        Ok(())
    }

    /// Runs the light pass: with a debug channel set, draws the debug
    /// visualization instead; otherwise compiles or reuses the cached shaded
    /// program for the light counts, binds every light and the geometry
    /// buffers, and binds the view-projection inverse exactly when any light
    /// is present.  Returns the full-screen draw command to submit to the
    /// currently open render target.
    #[verifier::loop_isolation(false)]
    pub fn light_pass(
        &mut self,
        camera: &Camera,
        ambient_light: Option<&AmbientLight>,
        directional_lights: &[DirectionalLight],
        spot_lights: &[SpotLight],
        point_lights: &[PointLight],
    ) -> (r: Result<DrawCommand, CoreError>)
        requires
            old(self).wf(),
            camera.wf(),
            directional_lights@.len() <= 4294967295,
            spot_lights@.len() <= 4294967295,
            point_lights@.len() <= 4294967295,
        ensures
            final(self).wf(),
            final(self).geometry_pass_texture == old(self).geometry_pass_texture,
            final(self).geometry_pass_depth_texture == old(self).geometry_pass_depth_texture,
            final(self).debug_type == old(self).debug_type,
            final(self).lighting_model == old(self).lighting_model,
            old(self).debug_type != DebugType::NONE ==> {
                &&& final(self).program_map@ == old(self).program_map@
                &&& match r {
                    Ok(cmd) => cmd@ == spec_debug_command(
                        old(self).debug_type,
                        camera,
                        old(self).geometry_pass_texture->Some_0@.desc_spec(),
                        old(self).geometry_pass_depth_texture->Some_0@.desc_spec(),
                    ),
                    Err(_) => false,
                }
            },
            old(self).debug_type == DebugType::NONE ==> {
                &&& final(self).debug_effect == old(self).debug_effect
                &&& match r {
                    Ok(cmd) => cmd@ == spec_light_pass_command(
                        old(self).lighting_model,
                        camera,
                        match ambient_light {
                            Some(a) => Some(*a),
                            None => None,
                        },
                        directional_lights@,
                        spot_lights@,
                        point_lights@,
                        old(self).geometry_pass_texture->Some_0@.desc_spec(),
                        old(self).geometry_pass_depth_texture->Some_0@.desc_spec(),
                    ),
                    Err(_) => false,
                }
                &&& if spec_cache_has(
                    old(self).program_map@,
                    old(self).lighting_model,
                    directional_lights@.len() as usize,
                    spot_lights@.len() as usize,
                    point_lights@.len() as usize,
                ) {
                    final(self).program_map@ == old(self).program_map@
                } else {
                    final(self).program_map@.len() == old(self).program_map@.len() + 1
                        && final(self).program_map@.subrange(
                        0,
                        old(self).program_map@.len() as int,
                    ) == old(self).program_map@
                }
            },
    {
        let render_states = RenderStates {
            depth_test: DepthTest::LessOrEqual,
            ..Default::default()
        };
        let color_desc = match &self.geometry_pass_texture {
            Some(t) => t.desc(),
            None => {
                return unreached();
            },
        };
        let depth_desc = match &self.geometry_pass_depth_texture {
            Some(t) => t.desc(),
            None => {
                return unreached();
            },
        };
        if !matches!(self.debug_type, DebugType::NONE) {
            if self.debug_effect.is_none() {
                proof {
                    reveal_strlit(
                        "uniform sampler2DArray gbuffer;\nuniform sampler2DArray depthMap;\nuniform int debugKind;\nvoid main() { visualize(); }\n",
                    );
                    reveal_strlit(
                        "in vec2 uv;\nvoid main() { gl_Position = vec4(position, 1.0); }\n",
                    );
                }
                let effect = match ImageEffect::new(
                    String::from_str(
                        "uniform sampler2DArray gbuffer;\nuniform sampler2DArray depthMap;\nuniform int debugKind;\nvoid main() { visualize(); }\n",
                    ),
                ) {
                    Ok(e) => e,
                    Err(_) => {
                        return unreached();
                    },
                };
                self.debug_effect = Some(effect);
            }
            let program = match &self.debug_effect {
                Some(e) => e.program.duplicate(),
                None => {
                    return unreached();
                },
            };
            let kind = match self.debug_type {
                DebugType::POSITION => 0,
                DebugType::NORMAL => 1,
                DebugType::COLOR => 2,
                DebugType::DEPTH => 3,
                DebugType::DIFFUSE => 4,
                DebugType::SPECULAR => 5,
                DebugType::POWER => 6,
                DebugType::NONE => 7,
            };
            let mut uniforms: Vec<(UniformName, UniformValue)> = Vec::new();
            uniforms.push((
                UniformName::ViewProjectionInverse,
                UniformValue::MatVal(camera.view_projection_inverse),
            ));
            uniforms.push((UniformName::DebugKind, UniformValue::IntVal(kind)));
            let mut textures: Vec<(UniformName, TextureDesc)> = Vec::new();
            textures.push((UniformName::GBuffer, color_desc));
            textures.push((UniformName::DepthMap, depth_desc));
            let cmd = DrawCommand {
                program,
                states: render_states,
                viewport: camera.viewport(),
                camera_block: None,
                attributes: BoundAttributes::none(),
                uniforms,
                textures,
                geometry: DrawGeometry::FullScreenQuad,
            };
            proof {
                let spec = spec_debug_command(
                    old(self).debug_type,
                    camera,
                    old(self).geometry_pass_texture->Some_0@.desc_spec(),
                    old(self).geometry_pass_depth_texture->Some_0@.desc_spec(),
                );
                assert(cmd@.uniforms =~= spec.uniforms);
                assert(cmd@.textures =~= spec.textures);
            }
            return Ok(cmd);
        }
        let d = directional_lights.len();
        let s = spot_lights.len();
        let p = point_lights.len();
        let mut found: Option<usize> = None;
        let map_len = self.program_map.len();
        let mut j: usize = 0;
        while j < map_len
            invariant
                j <= map_len,
                map_len == self.program_map@.len(),
                match found {
                    Some(ix) => ix < map_len && self.program_map@[ix as int].model
                        == self.lighting_model && self.program_map@[ix as int].directional == d
                        && self.program_map@[ix as int].spot == s && self.program_map@[
                        ix as int
                    ].point == p,
                    None => forall|t: int| 0 <= t < j ==> !((#[trigger] self.program_map@[t]).model
                        == self.lighting_model && self.program_map@[t].directional == d
                        && self.program_map@[t].spot == s && self.program_map@[t].point == p),
                },
            decreases map_len - j,
        {
            if found.is_none() {
                let e = &self.program_map[j];
                if e.model == self.lighting_model && e.directional == d && e.spot == s && e.point
                    == p {
                    found = Some(j);
                }
            }
            j += 1;
        }
        let index = match found {
            Some(ix) => ix,
            None => {
                let fragment = shaded_fragment_shader(self.lighting_model, d, s, p);
                proof {
                    reveal_strlit("#define PHONG\n");
                    reveal_strlit("#define BLINN\n");
                    reveal_strlit("#define COOK\n");
                    reveal_strlit(
                        "in vec2 uv;\nvoid main() { gl_Position = vec4(position, 1.0); }\n",
                    );
                    assert(fragment@.len() > 0);
                }
                let effect = match ImageEffect::new(fragment) {
                    Ok(e) => e,
                    Err(_) => {
                        return unreached();
                    },
                };
                let entry = ProgramCacheEntry {
                    model: self.lighting_model,
                    directional: d,
                    spot: s,
                    point: p,
                    effect,
                };
                let ix = self.program_map.len();
                self.program_map.push(entry);
                ix
            },
        };
        let program = self.program_map[index].effect.program.duplicate();
        let mut uniforms = bind_lights(
            ambient_light,
            directional_lights,
            spot_lights,
            point_lights,
            camera.position(),
        );
        if d > 0 || s > 0 || p > 0 {
            uniforms.push((
                UniformName::ViewProjectionInverse,
                UniformValue::MatVal(camera.view_projection_inverse),
            ));
        }
        let mut textures: Vec<(UniformName, TextureDesc)> = Vec::new();
        textures.push((UniformName::GBuffer, color_desc));
        textures.push((UniformName::DepthMap, depth_desc));
        let cmd = DrawCommand {
            program,
            states: render_states,
            viewport: camera.viewport(),
            camera_block: None,
            attributes: BoundAttributes::none(),
            uniforms,
            textures,
            geometry: DrawGeometry::FullScreenQuad,
        };
        proof {
            let spec = spec_light_pass_command(
                old(self).lighting_model,
                camera,
                match ambient_light {
                    Some(a) => Some(*a),
                    None => None,
                },
                directional_lights@,
                spot_lights@,
                point_lights@,
                old(self).geometry_pass_texture->Some_0@.desc_spec(),
                old(self).geometry_pass_depth_texture->Some_0@.desc_spec(),
            );
            assert(cmd@.uniforms =~= spec.uniforms);
            assert(cmd@.textures =~= spec.textures);
        }
        Ok(cmd)
    }

    /// The color buffer of the last geometry pass.
    pub fn geometry_pass_texture(&self) -> (r: &ColorTargetTexture2DArray)
        requires
            self.wf(),
        ensures
            Some(r@) == match self.geometry_pass_texture {
                Some(t) => Some(t@),
                None => None,
            },
    {
        match &self.geometry_pass_texture {
            Some(t) => t,
            None => unreached(),
        }
    }

    /// The depth buffer of the last geometry pass.
    pub fn geometry_pass_depth_texture_array(&self) -> (r: &DepthTargetTexture2DArray)
        requires
            self.wf(),
        ensures
            Some(r@) == match self.geometry_pass_depth_texture {
                Some(t) => Some(t@),
                None => None,
            },
    {
        match &self.geometry_pass_depth_texture {
            Some(t) => t,
            None => unreached(),
        }
    }

    /// Copies the geometry depth buffer into a freshly allocated plain 2D
    /// depth texture: an allocate-and-copy that callers should cache rather
    /// than repeat per frame.
    pub fn geometry_pass_depth_texture(&self) -> (r: DepthTargetTexture2D)
        requires
            self.wf(),
        ensures
            r@.width == self.geometry_pass_depth_texture->Some_0@.width,
            r@.height == self.geometry_pass_depth_texture->Some_0@.height,
            r@.pixels == self.geometry_pass_depth_texture->Some_0@.pixels.subrange(
                0,
                self.geometry_pass_depth_texture->Some_0@.width as int
                    * self.geometry_pass_depth_texture->Some_0@.height as int,
            ),
    {
        let depth_array = match &self.geometry_pass_depth_texture {
            Some(t) => t,
            None => {
                return unreached();
            },
        };
        let w = depth_array.width();
        let h = depth_array.height();
        let mut depth_texture = match DepthTargetTexture2D::new(&self.context, w, h) {
            Ok(t) => t,
            Err(_) => {
                return unreached();
            },
        };
        depth_array.copy_to(0, &mut depth_texture, Viewport::new_at_origo(w, h));
        depth_texture
    }
}

/// The color write records of these commands against the given layers.
pub open spec fn wrap_color(cmds: Seq<CommandModel>, sel: Seq<u32>) -> Seq<ColorWriteModel> {
    Seq::new(cmds.len(), |i: int| ColorWriteModel { layers: sel, command: cmds[i] })
}

/// The depth write records of these commands against the given layer.
pub open spec fn wrap_depth(cmds: Seq<CommandModel>, layer: u32) -> Seq<DepthWriteModel> {
    Seq::new(cmds.len(), |i: int| DepthWriteModel { layer, command: cmds[i] })
}

/// Law: the light pass with no ambient light and no lights at all still
/// shades from the geometry buffers alone — its command binds both geometry
/// buffers and never touches the view-projection inverse.
pub proof fn lemma_light_pass_no_lights_binds_no_inverse(
    model: LightingModel,
    camera: &Camera,
    color_desc: TextureDesc,
    depth_desc: TextureDesc,
)
    ensures
        ({
            let cmd = spec_light_pass_command(
                model,
                camera,
                None,
                Seq::empty(),
                Seq::empty(),
                Seq::empty(),
                color_desc,
                depth_desc,
            );
            &&& forall|i: int| 0 <= i < cmd.uniforms.len() ==> (#[trigger] cmd.uniforms[i]).0
                != UniformName::ViewProjectionInverse
            &&& cmd.textures == seq![
                (UniformName::GBuffer, color_desc),
                (UniformName::DepthMap, depth_desc),
            ]
            &&& cmd.geometry == DrawGeometry::FullScreenQuad
        }),
{
    let cmd = spec_light_pass_command(
        model,
        camera,
        None,
        Seq::empty(),
        Seq::empty(),
        Seq::empty(),
        color_desc,
        depth_desc,
    );
    assert(cmd.uniforms =~= seq![
        (UniformName::EyePosition, UniformValue::VecVal(camera.position)),
    ]);
}

/// Law: the geometry pass is a pure function of the camera and the geometry
/// list — two passes over equal inputs leave bit-identical geometry buffers.
pub proof fn lemma_geometry_pass_deterministic(
    c1: ColorArrayModel,
    c2: ColorArrayModel,
    d1: DepthArrayModel,
    d2: DepthArrayModel,
    width: u32,
    height: u32,
    cmds: Seq<CommandModel>,
)
    requires
        c1 == spec_geometry_color_after(width, height, cmds),
        c2 == spec_geometry_color_after(width, height, cmds),
        d1 == spec_geometry_depth_after(width, height, cmds),
        d2 == spec_geometry_depth_after(width, height, cmds),
    ensures
        c1 == c2,
        d1 == d2,
{
}

} // verus!
