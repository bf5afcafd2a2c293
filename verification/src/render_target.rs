//! Render targets over texture arrays, and full-screen copy effects.
//!
//! A [`RenderTargetArray`] owns its attachments for the duration of a write
//! scope: it is built from the textures, written through, and taken apart
//! again, so the framebuffer object is released exactly once however the
//! scope ends.  A write binds the requested layers, checks completeness,
//! applies the clear state, then records the submitted draw commands.

use vstd::prelude::*;

use crate::command::BoundAttributes;
use crate::command::Color;
use crate::command::DrawCommand;
use crate::command::TextureDesc;
use crate::command::UniformName;
use crate::command::UniformValue;
use crate::context::Context;
use crate::error::CoreError;
use crate::render_states::ClearState;
use crate::render_states::Cull;
use crate::render_states::DepthTest;
use crate::render_states::RenderStates;
use crate::render_states::Viewport;
use crate::render_states::WriteMask;
use crate::shader::ImageEffect;
use crate::shader::ProgramModel;
use crate::shader::effect_vertex_source;
use crate::shader::spec_required_attrs;
use crate::texture::ColorArrayModel;
use crate::texture::ColorTargetTexture2DArray;
use crate::texture::ColorWriteModel;
use crate::texture::DepthArrayModel;
use crate::texture::DepthTargetTexture2D;
use crate::texture::DepthTargetTexture2DArray;
use crate::texture::DepthWriteModel;
use crate::texture::Texture2D;
use crate::texture::color_array_wf;
use crate::texture::depth_array_wf;
use crate::texture::layer_selected;
use crate::texture::spec_clear_color_layers;
use crate::texture::spec_clear_depth_layer;

verus! {

/// The write records appended to a color attachment when `cmds` are drawn
/// with the given layer selection bound.
pub open spec fn color_records(cmds: Seq<DrawCommand>, sel: Seq<u32>) -> Seq<ColorWriteModel> {
    Seq::new(cmds.len(), |i: int| ColorWriteModel { layers: sel, command: cmds[i]@ })
}

/// The write records appended to a depth attachment when `cmds` are drawn
/// with the given layer bound.
pub open spec fn depth_records(cmds: Seq<DrawCommand>, layer: u32) -> Seq<DepthWriteModel> {
    Seq::new(cmds.len(), |i: int| DepthWriteModel { layer, command: cmds[i]@ })
}

/// Whether binding these layers of these attachments yields a complete
/// framebuffer: every bound layer exists, and the attachments agree in size.
pub open spec fn spec_bind_ok(
    color: Option<ColorArrayModel>,
    depth: Option<DepthArrayModel>,
    color_layers: Seq<u32>,
    depth_layer: u32,
) -> bool {
    &&& (color matches Some(c) ==> forall|j: int|
        0 <= j < color_layers.len() ==> (#[trigger] color_layers[j]) < c.layers)
    &&& (depth matches Some(d) ==> depth_layer < d.layers)
    &&& (color is Some && depth is Some ==> color->Some_0.width == depth->Some_0.width
        && color->Some_0.height == depth->Some_0.height)
}

/// The model of a render target: its optional attachments.
pub struct RenderTargetArrayModel {
    pub color: Option<ColorArrayModel>,
    pub depth: Option<DepthArrayModel>,
}

/// Well-formedness of a render target: each attachment present is itself
/// well-formed, and at least one is present.
pub open spec fn render_target_wf(m: RenderTargetArrayModel) -> bool {
    &&& (m.color matches Some(c) ==> color_array_wf(c))
    &&& (m.depth matches Some(d) ==> depth_array_wf(d))
    &&& m.color is Some || m.depth is Some
}

/// A render target writing into layers of a color texture array and/or a
/// depth texture array that it owns for the scope of the writes.
#[derive(Debug)]
pub struct RenderTargetArray {
    color_texture: Option<ColorTargetTexture2DArray>,
    depth_texture: Option<DepthTargetTexture2DArray>,
}

impl View for RenderTargetArray {
    type V = RenderTargetArrayModel;

    closed spec fn view(&self) -> RenderTargetArrayModel {
        RenderTargetArrayModel {
            color: match self.color_texture {
                Some(ref c) => Some(c@),
                None => None,
            },
            depth: match self.depth_texture {
                Some(ref d) => Some(d@),
                None => None,
            },
        }
    }
}

impl RenderTargetArray {
    /// Builds a render target over both a color and a depth texture array.
    pub fn new(
        _context: &Context,
        color_texture: ColorTargetTexture2DArray,
        depth_texture: DepthTargetTexture2DArray,
    ) -> (r: Result<RenderTargetArray, CoreError>)
        requires
            color_array_wf(color_texture@),
            depth_array_wf(depth_texture@),
        ensures
            match r {
                Ok(t) => render_target_wf(t@) && t@.color == Some(color_texture@) && t@.depth
                    == Some(depth_texture@),
                Err(_) => false,
            },
    {
        Ok(RenderTargetArray {
            color_texture: Some(color_texture),
            depth_texture: Some(depth_texture),
        })
    }

    /// Builds a render target over a depth texture array alone.
    pub fn new_depth(_context: &Context, depth_texture: DepthTargetTexture2DArray) -> (r: Result<
        RenderTargetArray,
        CoreError,
    >)
        requires
            depth_array_wf(depth_texture@),
        ensures
            match r {
                Ok(t) => render_target_wf(t@) && t@.color is None && t@.depth
                    == Some(depth_texture@),
                Err(_) => false,
            },
    {
        Ok(RenderTargetArray { color_texture: None, depth_texture: Some(depth_texture) })
    }

    /// Builds a render target over a color texture array alone.
    pub fn new_color(_context: &Context, color_texture: ColorTargetTexture2DArray) -> (r: Result<
        RenderTargetArray,
        CoreError,
    >)
        requires
            color_array_wf(color_texture@),
        ensures
            match r {
                Ok(t) => render_target_wf(t@) && t@.color == Some(color_texture@) && t@.depth
                    is None,
                Err(_) => false,
            },
    {
        Ok(RenderTargetArray { color_texture: Some(color_texture), depth_texture: None })
    }

    /// Takes the attachments back, releasing the target.
    pub fn into_textures(self) -> (r: (
        Option<ColorTargetTexture2DArray>,
        Option<DepthTargetTexture2DArray>,
    ))
        ensures
            self@.color == match r.0 {
                Some(c) => Some(c@),
                None => None::<ColorArrayModel>,
            },
            self@.depth == match r.1 {
                Some(d) => Some(d@),
                None => None::<DepthArrayModel>,
            },
    {
        (self.color_texture, self.depth_texture)
    }

    /// Binds the given layers and checks framebuffer completeness, then
    /// applies the clear state: the color channels named by the clear state
    /// are cleared on every bound color layer, and the depth channel, when
    /// named, on the bound depth layer.
    #[verifier::loop_isolation(false)]
    pub fn begin_write(&mut self, color_layers: &Vec<u32>, depth_layer: u32, clear_state: ClearState)
        -> (r: Result<(), CoreError>)
        requires
            render_target_wf(old(self)@),
        ensures
            render_target_wf(final(self)@),
            match r {
                Ok(()) => spec_bind_ok(old(self)@.color, old(self)@.depth, color_layers@, depth_layer)
                    && final(self)@.color == spec_color_after_clear(
                        old(self)@.color, color_layers@, clear_state)
                    && final(self)@.depth == spec_depth_after_clear(
                        old(self)@.depth, depth_layer, clear_state),
                Err(e) => e == CoreError::FramebufferIncomplete && !spec_bind_ok(
                    old(self)@.color, old(self)@.depth, color_layers@, depth_layer)
                    && final(self)@ == old(self)@,
            },
    {
        if !self.bind_check(color_layers, depth_layer) {
            return Err(CoreError::FramebufferIncomplete);
        }
        if let Some(color) = &mut self.color_texture {
            color.clear_layers(color_layers, clear_state);
        }
        if let Some(depth) = &mut self.depth_texture {
            if let Some(value) = clear_state.depth {
                depth.clear_layer(depth_layer, value);
            }
        }
        Ok(())
    }

    /// Records one draw command against every bound attachment.
    pub fn submit(&mut self, color_layers: &Vec<u32>, depth_layer: u32, command: &DrawCommand)
        requires
            render_target_wf(old(self)@),
        ensures
            render_target_wf(final(self)@),
            final(self)@.color == match old(self)@.color {
                Some(c) => Some(ColorArrayModel {
                    writes: c.writes.push(
                        ColorWriteModel { layers: color_layers@, command: command@ },
                    ),
                    ..c
                }),
                None => None::<ColorArrayModel>,
            },
            final(self)@.depth == match old(self)@.depth {
                Some(d) => Some(DepthArrayModel {
                    writes: d.writes.push(DepthWriteModel { layer: depth_layer, command: command@ }),
                    ..d
                }),
                None => None::<DepthArrayModel>,
            },
    {
        if let Some(color) = &mut self.color_texture {
            color.record_write(color_layers, command.duplicate());
        }
        if let Some(depth) = &mut self.depth_texture {
            depth.record_write(depth_layer, command.duplicate());
        }
    }

    /// Ends the write scope: regenerates the color attachment's mip levels,
    /// when it has any.
    pub fn end_write(&mut self)
        requires
            render_target_wf(old(self)@),
        ensures
            render_target_wf(final(self)@),
            final(self)@.color == match old(self)@.color {
                Some(c) => Some(ColorArrayModel { mip_maps_current: c.mip_maps, ..c }),
                None => None::<ColorArrayModel>,
            },
            final(self)@.depth == old(self)@.depth,
    {
        if let Some(color) = &mut self.color_texture {
            color.generate_mip_maps();
        }
    }

    /// Renders the given commands into the bound layers: checks completeness,
    /// clears per the clear state, records every command in order, and
    /// finally regenerates mip levels.
    #[verifier::loop_isolation(false)]
    pub fn write(
        &mut self,
        color_layers: &Vec<u32>,
        depth_layer: u32,
        clear_state: ClearState,
        commands: &Vec<DrawCommand>,
    ) -> (r: Result<(), CoreError>)
        requires
            render_target_wf(old(self)@),
        ensures
            render_target_wf(final(self)@),
            match r {
                Ok(()) => spec_bind_ok(old(self)@.color, old(self)@.depth, color_layers@, depth_layer)
                    && final(self)@.color == spec_color_after_write(
                        old(self)@.color, color_layers@, clear_state, commands@)
                    && final(self)@.depth == spec_depth_after_write(
                        old(self)@.depth, depth_layer, clear_state, commands@),
                Err(e) => e == CoreError::FramebufferIncomplete && !spec_bind_ok(
                    old(self)@.color, old(self)@.depth, color_layers@, depth_layer)
                    && final(self)@ == old(self)@,
            },
    {
        self.begin_write(color_layers, depth_layer, clear_state)?;
        let n = commands.len();
        let ghost cleared = *self;
        proof {
            if cleared@.color is Some {
                assert(cleared@.color->Some_0.writes + color_records(
                    commands@.subrange(0, 0), color_layers@)
                    =~= cleared@.color->Some_0.writes);
            }
            if cleared@.depth is Some {
                assert(cleared@.depth->Some_0.writes + depth_records(
                    commands@.subrange(0, 0), depth_layer)
                    =~= cleared@.depth->Some_0.writes);
            }
        }
        let mut i: usize = 0;
        while i < n
            invariant
                i <= n,
                n == commands@.len(),
                render_target_wf(self@),
                self@.color == match cleared@.color {
                    Some(c) => Some(ColorArrayModel {
                        writes: c.writes + color_records(commands@.subrange(0, i as int), color_layers@),
                        ..c
                    }),
                    None => None::<ColorArrayModel>,
                },
                self@.depth == match cleared@.depth {
                    Some(d) => Some(DepthArrayModel {
                        writes: d.writes + depth_records(commands@.subrange(0, i as int), depth_layer),
                        ..d
                    }),
                    None => None::<DepthArrayModel>,
                },
            decreases n - i,
        {
            self.submit(color_layers, depth_layer, &commands[i]);
            proof {
                if cleared@.color is Some {
                    assert(color_records(commands@.subrange(0, i as int), color_layers@).push(
                        ColorWriteModel { layers: color_layers@, command: commands@[i as int]@ },
                    ) =~= color_records(commands@.subrange(0, i + 1 as int), color_layers@));
                    assert(cleared@.color->Some_0.writes + color_records(
                        commands@.subrange(0, i as int), color_layers@).push(
                        ColorWriteModel { layers: color_layers@, command: commands@[i as int]@ })
                        =~= cleared@.color->Some_0.writes + color_records(
                            commands@.subrange(0, i + 1 as int), color_layers@));
                }
                if cleared@.depth is Some {
                    assert(depth_records(commands@.subrange(0, i as int), depth_layer).push(
                        DepthWriteModel { layer: depth_layer, command: commands@[i as int]@ },
                    ) =~= depth_records(commands@.subrange(0, i + 1 as int), depth_layer));
                    assert(cleared@.depth->Some_0.writes + depth_records(
                        commands@.subrange(0, i as int), depth_layer).push(
                        DepthWriteModel { layer: depth_layer, command: commands@[i as int]@ })
                        =~= cleared@.depth->Some_0.writes + depth_records(
                            commands@.subrange(0, i + 1 as int), depth_layer));
                }
            }
            i += 1;
        }
        proof {
            assert(commands@.subrange(0, n as int) =~= commands@);
        }
        self.end_write();
        Ok(())
    }

    /// Checks whether the requested binding is complete.
    #[verifier::loop_isolation(false)]
    fn bind_check(&self, color_layers: &Vec<u32>, depth_layer: u32) -> (r: bool)
        ensures
            r == spec_bind_ok(self@.color, self@.depth, color_layers@, depth_layer),
    {
        if let Some(color) = &self.color_texture {
            let layers = color.layer_count();
            let n = color_layers.len();
            let mut j: usize = 0;
            while j < n
                invariant
                    j <= n,
                    n == color_layers@.len(),
                    layers == color@.layers,
                    forall|t: int| 0 <= t < j ==> (#[trigger] color_layers@[t]) < layers,
                decreases n - j,
            {
                if color_layers[j] >= layers {
                    return false;
                }
                j += 1;
            }
        }
        if let Some(depth) = &self.depth_texture {
            if depth_layer >= depth.layer_count() {
                return false;
            }
        }
        if let Some(color) = &self.color_texture {
            if let Some(depth) = &self.depth_texture {
                if color.width() != depth.width() || color.height() != depth.height() {
                    return false;
                }
            }
        }
        true
    }
}

/// The color attachment after a clear of the given layers.
pub open spec fn spec_color_after_clear(
    color: Option<ColorArrayModel>,
    sel: Seq<u32>,
    cs: ClearState,
) -> Option<ColorArrayModel> {
    match color {
        Some(c) => Some(
            ColorArrayModel {
                pixels: spec_clear_color_layers(c.pixels, c.width as nat, c.height as nat, sel, cs),
                ..c
            },
        ),
        None => None,
    }
}

/// The depth attachment after a clear of the given layer.
pub open spec fn spec_depth_after_clear(
    depth: Option<DepthArrayModel>,
    layer: u32,
    cs: ClearState,
) -> Option<DepthArrayModel> {
    match depth {
        Some(d) => Some(
            DepthArrayModel {
                pixels: match cs.depth {
                    Some(v) => spec_clear_depth_layer(
                        d.pixels,
                        d.width as nat,
                        d.height as nat,
                        layer as int,
                        v,
                    ),
                    None => d.pixels,
                },
                ..d
            },
        ),
        None => None,
    }
}

/// The color attachment after a whole write scope: cleared, the commands
/// recorded, and the mip levels regenerated.
pub open spec fn spec_color_after_write(
    color: Option<ColorArrayModel>,
    sel: Seq<u32>,
    cs: ClearState,
    cmds: Seq<DrawCommand>,
) -> Option<ColorArrayModel> {
    match spec_color_after_clear(color, sel, cs) {
        Some(c) => Some(
            ColorArrayModel {
                writes: c.writes + color_records(cmds, sel),
                mip_maps_current: c.mip_maps,
                ..c
            },
        ),
        None => None,
    }
}

/// The depth attachment after a whole write scope.
pub open spec fn spec_depth_after_write(
    depth: Option<DepthArrayModel>,
    layer: u32,
    cs: ClearState,
    cmds: Seq<DrawCommand>,
) -> Option<DepthArrayModel> {
    match spec_depth_after_clear(depth, layer, cs) {
        Some(d) => Some(DepthArrayModel { writes: d.writes + depth_records(cmds, layer), ..d }),
        None => None,
    }
}

/// Law: a clear with `ClearState::none` leaves every color pixel unchanged,
/// whatever layers are bound.
pub proof fn lemma_clear_none_preserves_pixels(
    pixels: Seq<Color>,
    width: nat,
    height: nat,
    sel: Seq<u32>,
)
    ensures
        spec_clear_color_layers(
            pixels,
            width,
            height,
            sel,
            ClearState { red: None, green: None, blue: None, alpha: None, depth: None },
        ) == pixels,
{
    let cs = ClearState { red: None, green: None, blue: None, alpha: None, depth: None };
    assert(spec_clear_color_layers(pixels, width, height, sel, cs) =~= pixels);
}

/// Law: a write scope with `ClearState::none` and no draw commands leaves
/// both attachments' pixels exactly as they were.
pub proof fn lemma_write_none_is_noop(
    color: Option<ColorArrayModel>,
    depth: Option<DepthArrayModel>,
    sel: Seq<u32>,
    layer: u32,
)
    ensures
        (match spec_color_after_write(
            color,
            sel,
            ClearState { red: None, green: None, blue: None, alpha: None, depth: None },
            Seq::empty(),
        ) {
            Some(c) => color matches Some(c0) && c.pixels == c0.pixels && c.writes == c0.writes,
            None => color is None,
        }),
        (match spec_depth_after_write(
            depth,
            layer,
            ClearState { red: None, green: None, blue: None, alpha: None, depth: None },
            Seq::empty(),
        ) {
            Some(d) => depth matches Some(d0) && d.pixels == d0.pixels && d.writes == d0.writes,
            None => depth is None,
        }),
{
    let cs = ClearState { red: None, green: None, blue: None, alpha: None, depth: None };
    if color is Some {
        let c0 = color->Some_0;
        lemma_clear_none_preserves_pixels(c0.pixels, c0.width as nat, c0.height as nat, sel);
        assert(c0.writes + color_records(Seq::empty(), sel) =~= c0.writes);
    }
    if depth is Some {
        let d0 = depth->Some_0;
        assert(d0.writes + depth_records(Seq::empty(), layer) =~= d0.writes);
    }
}

/// Law: after a write scope with a full clear and no draw commands, every
/// pixel of every bound color layer holds exactly the clear color, and every
/// pixel of the bound depth layer holds exactly the clear depth.
pub proof fn lemma_write_full_clear(
    color: ColorArrayModel,
    depth: DepthArrayModel,
    sel: Seq<u32>,
    layer: u32,
    red: u8,
    green: u8,
    blue: u8,
    alpha: u8,
    depth_value: u32,
    i: int,
)
    requires
        0 <= i < color.pixels.len(),
        0 <= i < depth.pixels.len(),
    ensures
        layer_selected(sel, crate::texture::layer_of(i, color.width as nat, color.height as nat))
            ==> spec_color_after_write(
            Some(color),
            sel,
            ClearState {
                red: Some(red),
                green: Some(green),
                blue: Some(blue),
                alpha: Some(alpha),
                depth: Some(depth_value),
            },
            Seq::empty(),
        )->Some_0.pixels[i] == (Color { r: red, g: green, b: blue, a: alpha }),
        crate::texture::layer_of(i, depth.width as nat, depth.height as nat) == layer
            ==> spec_depth_after_write(
            Some(depth),
            layer,
            ClearState {
                red: Some(red),
                green: Some(green),
                blue: Some(blue),
                alpha: Some(alpha),
                depth: Some(depth_value),
            },
            Seq::empty(),
        )->Some_0.pixels[i] == depth_value,
{
}

/// The fragment source of the copy effect for each attachment combination.
pub open spec fn copy_fragment_source(has_color: bool, has_depth: bool) -> Seq<char> {
    if has_color && has_depth {
        "uniform sampler2D colorMap;\nuniform sampler2D depthMap;\nvoid main() { blit(); }\n"@
    } else if has_color {
        "uniform sampler2D colorMap;\nvoid main() { blit(); }\n"@
    } else {
        "uniform sampler2D depthMap;\nvoid main() { blit(); }\n"@
    }
}

/// The write mask a copy runs under: each channel only when the matching
/// source is present and the caller's mask allows it.
pub open spec fn copy_write_mask(has_color: bool, has_depth: bool, mask: WriteMask) -> WriteMask {
    WriteMask {
        red: has_color && mask.red,
        green: has_color && mask.green,
        blue: has_color && mask.blue,
        alpha: has_color && mask.alpha,
        depth: has_depth && mask.depth,
    }
}

/// The draw command a plain copy issues, given the sources present.
pub open spec fn spec_copy_command(
    color: Option<TextureDesc>,
    depth: Option<TextureDesc>,
    viewport: Viewport,
    mask: WriteMask,
) -> crate::command::CommandModel {
    let has_color = color is Some;
    let has_depth = depth is Some;
    let fragment = copy_fragment_source(has_color, has_depth);
    crate::command::CommandModel {
        program: ProgramModel {
            vertex: effect_vertex_source(),
            fragment,
            attrs: spec_required_attrs(fragment),
        },
        states: RenderStates {
            depth_test: DepthTest::Always,
            write_mask: copy_write_mask(has_color, has_depth, mask),
            cull: Cull::Disabled,
        },
        viewport,
        camera_block: None,
        attributes: BoundAttributes::none_spec(),
        uniforms: Seq::empty(),
        textures: (match color {
            Some(c) => seq![(UniformName::ColorMap, c)],
            None => Seq::empty(),
        }) + (match depth {
            Some(d) => seq![(UniformName::DepthMap, d)],
            None => Seq::empty(),
        }),
        geometry: crate::command::DrawGeometry::FullScreenQuad,
    }
}

/// Builds the full-screen draw command that copies the given source textures
/// into the currently bound target; `None` when there is nothing to copy.
/// The write mask is gated per channel by the sources present.
pub fn copy_from(
    _context: &Context,
    color_texture: Option<&Texture2D>,
    depth_texture: Option<&DepthTargetTexture2D>,
    viewport: Viewport,
    write_mask: WriteMask,
) -> (r: Result<Option<DrawCommand>, CoreError>)
    ensures
        match r {
            Ok(cmd_opt) => match cmd_opt {
                Some(cmd) => (color_texture is Some || depth_texture is Some) && cmd@
                    == spec_copy_command(
                    match color_texture {
                        Some(c) => Some(TextureDesc {
                            kind: crate::command::TextureKind::Color2D,
                            width: c@.width,
                            height: c@.height,
                            layers: 1,
                        }),
                        None => None,
                    },
                    match depth_texture {
                        Some(d) => Some(TextureDesc {
                            kind: crate::command::TextureKind::Depth2D,
                            width: d@.width,
                            height: d@.height,
                            layers: 1,
                        }),
                        None => None,
                    },
                    viewport,
                    write_mask,
                ),
                None => color_texture is None && depth_texture is None,
            },
            Err(_) => false,
        },
{
    let has_color = color_texture.is_some();
    let has_depth = depth_texture.is_some();
    if !has_color && !has_depth {
        return Ok(None);
    }
    let fragment = if has_color && has_depth {
        String::from_str(
            "uniform sampler2D colorMap;\nuniform sampler2D depthMap;\nvoid main() { blit(); }\n",
        )
    } else if has_color {
        String::from_str("uniform sampler2D colorMap;\nvoid main() { blit(); }\n")
    } else {
        String::from_str("uniform sampler2D depthMap;\nvoid main() { blit(); }\n")
    };
    proof {
        reveal_strlit(
            "uniform sampler2D colorMap;\nuniform sampler2D depthMap;\nvoid main() { blit(); }\n",
        );
        reveal_strlit("uniform sampler2D colorMap;\nvoid main() { blit(); }\n");
        reveal_strlit("uniform sampler2D depthMap;\nvoid main() { blit(); }\n");
        reveal_strlit("in vec2 uv;\nvoid main() { gl_Position = vec4(position, 1.0); }\n");
    }
    let effect = match ImageEffect::new(fragment) {
        Ok(e) => e,
        Err(e) => {
            return Err(e);
        },
    };
    let mut textures: Vec<(UniformName, TextureDesc)> = Vec::new();
    if let Some(c) = color_texture {
        textures.push((UniformName::ColorMap, c.desc()));
    }
    if let Some(d) = depth_texture {
        textures.push((UniformName::DepthMap, d.desc()));
    }
    let cmd = DrawCommand {
        program: effect.program,
        states: RenderStates {
            depth_test: DepthTest::Always,
            write_mask: WriteMask {
                red: has_color && write_mask.red,
                green: has_color && write_mask.green,
                blue: has_color && write_mask.blue,
                alpha: has_color && write_mask.alpha,
                depth: has_depth && write_mask.depth,
            },
            cull: Cull::Disabled,
        },
        viewport,
        camera_block: None,
        attributes: BoundAttributes::none(),
        uniforms: Vec::new(),
        textures,
        geometry: crate::command::DrawGeometry::FullScreenQuad,
    };
    proof {
        assert(cmd@.textures =~= spec_copy_command(
            match color_texture {
                Some(c) => Some(TextureDesc {
                    kind: crate::command::TextureKind::Color2D,
                    width: c@.width,
                    height: c@.height,
                    layers: 1,
                }),
                None => None,
            },
            match depth_texture {
                Some(d) => Some(TextureDesc {
                    kind: crate::command::TextureKind::Depth2D,
                    width: d@.width,
                    height: d@.height,
                    layers: 1,
                }),
                None => None,
            },
            viewport,
            write_mask,
        ).textures);
        assert(cmd@.uniforms =~= Seq::<(UniformName, UniformValue)>::empty());
    }
    Ok(Some(cmd))
}

/// The fragment source of the array copy effect for each combination.
pub open spec fn copy_array_fragment_source(has_color: bool, has_depth: bool) -> Seq<char> {
    if has_color && has_depth {
        "uniform sampler2DArray colorMap;\nuniform sampler2DArray depthMap;\nvoid main() { blit(); }\n"@
    } else if has_color {
        "uniform sampler2DArray colorMap;\nvoid main() { blit(); }\n"@
    } else {
        "uniform sampler2DArray depthMap;\nvoid main() { blit(); }\n"@
    }
}

/// The draw command an array copy issues: like [`spec_copy_command`] but
/// reading one layer of each array source, passed as layer uniforms.
pub open spec fn spec_copy_array_command(
    color: Option<(TextureDesc, u32)>,
    depth: Option<(TextureDesc, u32)>,
    viewport: Viewport,
    mask: WriteMask,
) -> crate::command::CommandModel {
    let has_color = color is Some;
    let has_depth = depth is Some;
    let fragment = copy_array_fragment_source(has_color, has_depth);
    crate::command::CommandModel {
        program: ProgramModel {
            vertex: effect_vertex_source(),
            fragment,
            attrs: spec_required_attrs(fragment),
        },
        states: RenderStates {
            depth_test: DepthTest::Always,
            write_mask: copy_write_mask(has_color, has_depth, mask),
            cull: Cull::Disabled,
        },
        viewport,
        camera_block: None,
        attributes: BoundAttributes::none_spec(),
        uniforms: (match color {
            Some(c) => seq![(UniformName::ColorLayer, UniformValue::IntVal(c.1 as i32))],
            None => Seq::empty(),
        }) + (match depth {
            Some(d) => seq![(UniformName::DepthLayer, UniformValue::IntVal(d.1 as i32))],
            None => Seq::empty(),
        }),
        textures: (match color {
            Some(c) => seq![(UniformName::ColorMap, c.0)],
            None => Seq::empty(),
        }) + (match depth {
            Some(d) => seq![(UniformName::DepthMap, d.0)],
            None => Seq::empty(),
        }),
        geometry: crate::command::DrawGeometry::FullScreenQuad,
    }
}

/// Builds the full-screen draw command that copies one layer of each given
/// array texture into the currently bound target; `None` when there is
/// nothing to copy.
pub fn copy_from_array(
    _context: &Context,
    color_texture: Option<(&ColorTargetTexture2DArray, u32)>,
    depth_texture: Option<(&DepthTargetTexture2DArray, u32)>,
    viewport: Viewport,
    write_mask: WriteMask,
) -> (r: Result<Option<DrawCommand>, CoreError>)
    requires
        color_texture matches Some(c) ==> c.1 <= 2147483647,
        depth_texture matches Some(d) ==> d.1 <= 2147483647,
    ensures
        match r {
            Ok(cmd_opt) => match cmd_opt {
                Some(cmd) => (color_texture is Some || depth_texture is Some) && cmd@
                    == spec_copy_array_command(
                    match color_texture {
                        Some(c) => Some((c.0@.desc_spec(), c.1)),
                        None => None,
                    },
                    match depth_texture {
                        Some(d) => Some((d.0@.desc_spec(), d.1)),
                        None => None,
                    },
                    viewport,
                    write_mask,
                ),
                None => color_texture is None && depth_texture is None,
            },
            Err(_) => false,
        },
{
    let has_color = color_texture.is_some();
    let has_depth = depth_texture.is_some();
    if !has_color && !has_depth {
        return Ok(None);
    }
    let fragment = if has_color && has_depth {
        String::from_str(
            "uniform sampler2DArray colorMap;\nuniform sampler2DArray depthMap;\nvoid main() { blit(); }\n",
        )
    } else if has_color {
        String::from_str("uniform sampler2DArray colorMap;\nvoid main() { blit(); }\n")
    } else {
        String::from_str("uniform sampler2DArray depthMap;\nvoid main() { blit(); }\n")
    };
    proof {
        reveal_strlit(
            "uniform sampler2DArray colorMap;\nuniform sampler2DArray depthMap;\nvoid main() { blit(); }\n",
        );
        reveal_strlit("uniform sampler2DArray colorMap;\nvoid main() { blit(); }\n");
        reveal_strlit("uniform sampler2DArray depthMap;\nvoid main() { blit(); }\n");
        reveal_strlit("in vec2 uv;\nvoid main() { gl_Position = vec4(position, 1.0); }\n");
    }
    let effect = match ImageEffect::new(fragment) {
        Ok(e) => e,
        Err(e) => {
            return Err(e);
        },
    };
    let mut uniforms: Vec<(UniformName, UniformValue)> = Vec::new();
    let mut textures: Vec<(UniformName, TextureDesc)> = Vec::new();
    if let Some((c, layer)) = color_texture {
        textures.push((UniformName::ColorMap, c.desc()));
        uniforms.push((UniformName::ColorLayer, UniformValue::IntVal(layer as i32)));
    }
    if let Some((d, layer)) = depth_texture {
        textures.push((UniformName::DepthMap, d.desc()));
        uniforms.push((UniformName::DepthLayer, UniformValue::IntVal(layer as i32)));
    }
    let cmd = DrawCommand {
        program: effect.program,
        states: RenderStates {
            depth_test: DepthTest::Always,
            write_mask: WriteMask {
                red: has_color && write_mask.red,
                green: has_color && write_mask.green,
                blue: has_color && write_mask.blue,
                alpha: has_color && write_mask.alpha,
                depth: has_depth && write_mask.depth,
            },
            cull: Cull::Disabled,
        },
        viewport,
        camera_block: None,
        attributes: BoundAttributes::none(),
        uniforms,
        textures,
        geometry: crate::command::DrawGeometry::FullScreenQuad,
    };
    proof {
        let spec = spec_copy_array_command(
            match color_texture {
                Some(c) => Some((c.0@.desc_spec(), c.1)),
                None => None,
            },
            match depth_texture {
                Some(d) => Some((d.0@.desc_spec(), d.1)),
                None => None,
            },
            viewport,
            write_mask,
        );
        assert(cmd@.textures =~= spec.textures);
        assert(cmd@.uniforms =~= spec.uniforms);
    }
    Ok(Some(cmd))
}

} // verus!
