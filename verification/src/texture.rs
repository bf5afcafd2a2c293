//! Textures: owned pixel stores that also log every draw aimed at them.
//!
//! Clears and copies have exact pixel semantics, stated over the stored
//! pixel sequences.  A user draw call runs an opaque shader, so its pixel
//! effect is not computed; instead the command is appended to the texture's
//! write log, which the pipeline contracts quantify over.

use vstd::prelude::*;
use vstd::pervasive::VecAdditionalExecFns;

use crate::command::Color;
use crate::command::CommandModel;
use crate::command::DrawCommand;
use crate::command::TextureDesc;
use crate::command::TextureKind;
use crate::command::clone_vec_copy;
use crate::context::Context;
use crate::error::CoreError;
use crate::render_states::ClearState;
use crate::render_states::DEPTH_FAR;
use crate::render_states::Viewport;

verus! {

/// Largest width or height a texture allocation accepts.
pub const MAX_TEXTURE_DIM: u32 = 4096;

/// Largest layer count a texture array allocation accepts.
pub const MAX_TEXTURE_LAYERS: u32 = 255;

/// Whether a texture array allocation of these dimensions succeeds.
pub open spec fn texture_dims_valid(width: u32, height: u32, layers: u32) -> bool {
    &&& 0 < width <= MAX_TEXTURE_DIM
    &&& 0 < height <= MAX_TEXTURE_DIM
    &&& 0 < layers <= MAX_TEXTURE_LAYERS
}

/// The layer that pixel index `i` of a `width` by `height` array lies in.
pub open spec fn layer_of(i: int, width: nat, height: nat) -> int {
    i / (width * height) as int
}

/// Whether layer `l` occurs in the selection list `sel`.
pub open spec fn layer_selected(sel: Seq<u32>, l: int) -> bool {
    exists|j: int| 0 <= j < sel.len() && (#[trigger] sel[j]) as int == l
}

/// One color pixel after a clear: each `Some` channel is replaced.
pub open spec fn apply_color_clear(p: Color, cs: ClearState) -> Color {
    Color {
        r: match cs.red { Some(v) => v, None => p.r },
        g: match cs.green { Some(v) => v, None => p.g },
        b: match cs.blue { Some(v) => v, None => p.b },
        a: match cs.alpha { Some(v) => v, None => p.a },
    }
}

/// The pixels of a color array after clearing the selected layers.
pub open spec fn spec_clear_color_layers(
    pixels: Seq<Color>,
    width: nat,
    height: nat,
    sel: Seq<u32>,
    cs: ClearState,
) -> Seq<Color> {
    Seq::new(
        pixels.len(),
        |i: int|
            if layer_selected(sel, layer_of(i, width, height)) {
                apply_color_clear(pixels[i], cs)
            } else {
                pixels[i]
            },
    )
}

/// The pixels of a depth array after clearing one layer to `value`.
pub open spec fn spec_clear_depth_layer(
    pixels: Seq<u32>,
    width: nat,
    height: nat,
    layer: int,
    value: u32,
) -> Seq<u32> {
    Seq::new(
        pixels.len(),
        |i: int| if layer_of(i, width, height) == layer { value } else { pixels[i] },
    )
}

/// Checks whether `l` occurs in the selection list.
fn layer_listed(sel: &Vec<u32>, l: u32) -> (r: bool)
    ensures
        r == layer_selected(sel@, l as int),
{
    let n = sel.len();
    let mut j: usize = 0;
    while j < n
        invariant
            j <= n,
            n == sel@.len(),
            forall|t: int| 0 <= t < j ==> (#[trigger] sel@[t]) as int != l as int,
        decreases n - j,
    {
        if sel[j] == l {
            return true;
        }
        j += 1;
    }
    false
}

/// Builds a vector of `n` copies of `value`.
fn filled_vec<T: Copy>(value: T, n: usize) -> (r: Vec<T>)
    ensures
        r@ == Seq::new(n as nat, |i: int| value),
{
    let mut r: Vec<T> = Vec::new();
    let mut i: usize = 0;
    while i < n
        invariant
            i <= n,
            r@.len() == i,
            forall|j: int| 0 <= j < i ==> r@[j] == value,
        decreases n - i,
    {
        r.push(value);
        i += 1;
    }
    proof {
        assert(r@ =~= Seq::new(n as nat, |i: int| value));
    }
    r
}

/// One draw recorded against a color texture array: the layers that were
/// bound as outputs, and the command.
#[derive(Debug)]
pub struct ColorWriteRecord {
    pub layers: Vec<u32>,
    pub command: DrawCommand,
}

/// The model of a recorded color write.
pub struct ColorWriteModel {
    pub layers: Seq<u32>,
    pub command: CommandModel,
}

impl View for ColorWriteRecord {
    type V = ColorWriteModel;

    closed spec fn view(&self) -> ColorWriteModel {
        ColorWriteModel { layers: self.layers@, command: self.command@ }
    }
}

/// One draw recorded against a depth texture array: the bound layer and the
/// command.
#[derive(Debug)]
pub struct DepthWriteRecord {
    pub layer: u32,
    pub command: DrawCommand,
}

/// The model of a recorded depth write.
pub struct DepthWriteModel {
    pub layer: u32,
    pub command: CommandModel,
}

impl View for DepthWriteRecord {
    type V = DepthWriteModel;

    closed spec fn view(&self) -> DepthWriteModel {
        DepthWriteModel { layer: self.layer, command: self.command@ }
    }
}

/// A color texture array on the GPU.
#[derive(Debug)]
pub struct ColorTargetTexture2DArray {
    width: u32,
    height: u32,
    layers: u32,
    /// Mip levels were requested at allocation.
    mip_maps: bool,
    /// Mip levels agree with the base level.
    mip_maps_current: bool,
    pixels: Vec<Color>,
    writes: Vec<ColorWriteRecord>,
}

/// The model of a color texture array.
pub struct ColorArrayModel {
    pub width: u32,
    pub height: u32,
    pub layers: u32,
    pub mip_maps: bool,
    pub mip_maps_current: bool,
    pub pixels: Seq<Color>,
    pub writes: Seq<ColorWriteModel>,
}

impl View for ColorTargetTexture2DArray {
    type V = ColorArrayModel;

    closed spec fn view(&self) -> ColorArrayModel {
        ColorArrayModel {
            width: self.width,
            height: self.height,
            layers: self.layers,
            mip_maps: self.mip_maps,
            mip_maps_current: self.mip_maps_current,
            pixels: self.pixels@,
            writes: Seq::new(self.writes@.len(), |i: int| self.writes@[i]@),
        }
    }
}

impl ColorArrayModel {
    /// The sampler descriptor of a texture with this model.
    pub open spec fn desc_spec(self) -> TextureDesc {
        TextureDesc {
            kind: TextureKind::ColorArray,
            width: self.width,
            height: self.height,
            layers: self.layers,
        }
    }
}

/// Structural well-formedness of a color array: positive bounded dimensions
/// and one pixel per texel.
pub open spec fn color_array_wf(m: ColorArrayModel) -> bool {
    &&& texture_dims_valid(m.width, m.height, m.layers)
    &&& m.pixels.len() == m.width as int * m.height as int * m.layers as int
}

impl ColorTargetTexture2DArray {

    /// Allocates a color texture array cleared to transparent black; invalid
    /// dimensions fail with `ResourceCreation`.
    pub fn new(_context: &Context, width: u32, height: u32, layers: u32, mip_maps: bool) -> (r:
        Result<ColorTargetTexture2DArray, CoreError>)
        ensures
            match r {
                Ok(t) => texture_dims_valid(width, height, layers) && color_array_wf(t@) && t@
                    == (ColorArrayModel {
                    width,
                    height,
                    layers,
                    mip_maps,
                    mip_maps_current: false,
                    pixels: Seq::new(
                        (width as int * height as int * layers as int) as nat,
                        |i: int| Color { r: 0, g: 0, b: 0, a: 0 },
                    ),
                    writes: Seq::empty(),
                }),
                Err(e) => !texture_dims_valid(width, height, layers)
                    && e == CoreError::ResourceCreation,
            },
    {
        if width == 0 || width > MAX_TEXTURE_DIM || height == 0 || height > MAX_TEXTURE_DIM
            || layers == 0 || layers > MAX_TEXTURE_LAYERS {
            return Err(CoreError::ResourceCreation);
        }
        proof {
            assert(0 < width as int * height as int <= 0x1000000
                && width as int * height as int * layers as int <= 0xFF000000)
                by (nonlinear_arith)
                requires
                    0 < width <= 4096,
                    0 < height <= 4096,
                    0 < layers <= 255;
        }
        let n: usize = (width as usize) * (height as usize) * (layers as usize);
        let pixels = filled_vec(Color { r: 0, g: 0, b: 0, a: 0 }, n);
        let t = ColorTargetTexture2DArray {
            width,
            height,
            layers,
            mip_maps,
            mip_maps_current: false,
            pixels,
            writes: Vec::new(),
        };
        proof {
            assert(t@.writes =~= Seq::<ColorWriteModel>::empty());
        }
        Ok(t)
    }

    /// Width in pixels.
    pub fn width(&self) -> (r: u32)
        ensures
            r == self@.width,
    {
        self.width
    }

    /// Height in pixels.
    pub fn height(&self) -> (r: u32)
        ensures
            r == self@.height,
    {
        self.height
    }

    /// Number of layers.
    pub fn layer_count(&self) -> (r: u32)
        ensures
            r == self@.layers,
    {
        self.layers
    }

    /// The descriptor of this texture for a sampler binding.
    pub fn desc(&self) -> (r: TextureDesc)
        ensures
            r == (TextureDesc {
                kind: TextureKind::ColorArray,
                width: self@.width,
                height: self@.height,
                layers: self@.layers,
            }),
    {
        TextureDesc {
            kind: TextureKind::ColorArray,
            width: self.width,
            height: self.height,
            layers: self.layers,
        }
    }

    /// Clears the selected layers according to the clear state; every other
    /// pixel and the write log stay untouched.
    #[verifier::loop_isolation(false)]
    pub fn clear_layers(&mut self, sel: &Vec<u32>, cs: ClearState)
        requires
            color_array_wf(old(self)@),
        ensures
            color_array_wf(final(self)@),
            final(self)@ == (ColorArrayModel {
                pixels: spec_clear_color_layers(
                    old(self)@.pixels,
                    old(self)@.width as nat,
                    old(self)@.height as nat,
                    sel@,
                    cs,
                ),
                ..old(self)@
            }),
    {
        proof {
            assert(0 < self.width as int * self.height as int <= 0x1000000
                && self.width as int * self.height as int * self.layers as int <= 0xFF000000)
                by (nonlinear_arith)
                requires
                    0 < self.width <= 4096,
                    0 < self.height <= 4096,
                    0 < self.layers <= 255;
        }
        let wh: usize = (self.width as usize) * (self.height as usize);
        let n = self.pixels.len();
        let ghost target = spec_clear_color_layers(
            old(self)@.pixels,
            old(self)@.width as nat,
            old(self)@.height as nat,
            sel@,
            cs,
        );
        let mut i: usize = 0;
        while i < n
            invariant
                i <= n,
                wh == self.width as int * self.height as int,
                self.width == old(self).width,
                self.height == old(self).height,
                self.layers == old(self).layers,
                self.mip_maps == old(self).mip_maps,
                self.mip_maps_current == old(self).mip_maps_current,
                self.writes@ == old(self).writes@,
                self.pixels@.len() == n,
                n == old(self).pixels@.len(),
                forall|j: int| 0 <= j < i ==> self.pixels@[j] == target[j],
                forall|j: int| i <= j < n ==> self.pixels@[j] == old(self).pixels@[j],
            decreases n - i,
        {
            proof {
                assert(i as int / (wh as int) < self.layers as int) by (nonlinear_arith)
                    requires
                        0 < wh as int,
                        (i as int) < (wh as int) * (self.layers as int),
                        (wh as int) * (self.layers as int)
                            == (self.width as int) * (self.height as int) * (self.layers as int),
                        wh as int == (self.width as int) * (self.height as int);
            }
            let l: usize = i / wh;
            if layer_listed(sel, l as u32) {
                let p = self.pixels[i];
                let np = Color {
                    r: match cs.red { Some(v) => v, None => p.r },
                    g: match cs.green { Some(v) => v, None => p.g },
                    b: match cs.blue { Some(v) => v, None => p.b },
                    a: match cs.alpha { Some(v) => v, None => p.a },
                };
                self.pixels.set(i, np);
            }
            proof {
                assert(layer_of(i as int, old(self)@.width as nat, old(self)@.height as nat)
                    == l as int);
            }
            i += 1;
        }
        proof {
            assert(self.pixels@ =~= target);
        }
    }

    /// Number of draws recorded against this texture.
    pub fn write_count(&self) -> (r: usize)
        ensures
            r == self@.writes.len(),
    {
        self.writes.len()
    }

    /// Appends one draw record aimed at the given layers.
    pub fn record_write(&mut self, sel: &Vec<u32>, command: DrawCommand)
        requires
            color_array_wf(old(self)@),
        ensures
            color_array_wf(final(self)@),
            final(self)@ == (ColorArrayModel {
                writes: old(self)@.writes.push(
                    ColorWriteModel { layers: sel@, command: command@ },
                ),
                ..old(self)@
            }),
    {
        self.writes.push(ColorWriteRecord { layers: clone_vec_copy(sel), command });
        proof {
            assert(self@.writes =~= old(self)@.writes.push(
                ColorWriteModel { layers: sel@, command: self.writes@[self.writes@.len() - 1].command@ },
            ));
        }
    }

    /// Regenerates the mip levels from the base level, when the texture has
    /// any.
    pub fn generate_mip_maps(&mut self)
        requires
            color_array_wf(old(self)@),
        ensures
            color_array_wf(final(self)@),
            final(self)@ == (ColorArrayModel {
                mip_maps_current: old(self)@.mip_maps,
                ..old(self)@
            }),
    {
        self.mip_maps_current = self.mip_maps;
    }

    /// The pixel at `(layer, y, x)`.
    pub fn pixel_at(&self, layer: u32, y: u32, x: u32) -> (r: Color)
        requires
            color_array_wf(self@),
            layer < self@.layers,
            y < self@.height,
            x < self@.width,
        ensures
            r == self@.pixels[
                ((layer as int * self@.height as int) + y as int) * self@.width as int + x as int
            ],
    {
        proof {
            assert(0 <= (layer as int) * (self.height as int) + (y as int) < 0x100000
                && 0 <= ((layer as int) * (self.height as int) + (y as int)) * (self.width as int)
                    + (x as int) < (self.width as int) * (self.height as int) * (self.layers as int)
                && (self.width as int) * (self.height as int) * (self.layers as int)
                    <= 0xFF000000)
                by (nonlinear_arith)
                requires
                    layer < self.layers,
                    y < self.height,
                    x < self.width,
                    0 < self.width <= 4096,
                    0 < self.height <= 4096,
                    0 < self.layers <= 255;
        }
        let idx: usize = ((layer as usize) * (self.height as usize) + (y as usize))
            * (self.width as usize) + (x as usize);
        self.pixels[idx]
    }
}

/// A depth texture array on the GPU.
#[derive(Debug)]
pub struct DepthTargetTexture2DArray {
    width: u32,
    height: u32,
    layers: u32,
    pixels: Vec<u32>,
    writes: Vec<DepthWriteRecord>,
}

/// The model of a depth texture array.
pub struct DepthArrayModel {
    pub width: u32,
    pub height: u32,
    pub layers: u32,
    pub pixels: Seq<u32>,
    pub writes: Seq<DepthWriteModel>,
}

impl View for DepthTargetTexture2DArray {
    type V = DepthArrayModel;

    closed spec fn view(&self) -> DepthArrayModel {
        DepthArrayModel {
            width: self.width,
            height: self.height,
            layers: self.layers,
            pixels: self.pixels@,
            writes: Seq::new(self.writes@.len(), |i: int| self.writes@[i]@),
        }
    }
}

impl DepthArrayModel {
    /// The sampler descriptor of a texture with this model.
    pub open spec fn desc_spec(self) -> TextureDesc {
        TextureDesc {
            kind: TextureKind::DepthArray,
            width: self.width,
            height: self.height,
            layers: self.layers,
        }
    }
}

/// Structural well-formedness of a depth array: positive bounded dimensions
/// and one depth value per texel.
pub open spec fn depth_array_wf(m: DepthArrayModel) -> bool {
    &&& texture_dims_valid(m.width, m.height, m.layers)
    &&& m.pixels.len() == m.width as int * m.height as int * m.layers as int
}

impl DepthTargetTexture2DArray {

    /// Allocates a depth texture array cleared to the far plane; invalid
    /// dimensions fail with `ResourceCreation`.
    pub fn new(_context: &Context, width: u32, height: u32, layers: u32) -> (r: Result<
        DepthTargetTexture2DArray,
        CoreError,
    >)
        ensures
            match r {
                Ok(t) => texture_dims_valid(width, height, layers) && depth_array_wf(t@) && t@
                    == (DepthArrayModel {
                    width,
                    height,
                    layers,
                    pixels: Seq::new(
                        (width as int * height as int * layers as int) as nat,
                        |i: int| DEPTH_FAR,
                    ),
                    writes: Seq::empty(),
                }),
                Err(e) => !texture_dims_valid(width, height, layers)
                    && e == CoreError::ResourceCreation,
            },
    {
        if width == 0 || width > MAX_TEXTURE_DIM || height == 0 || height > MAX_TEXTURE_DIM
            || layers == 0 || layers > MAX_TEXTURE_LAYERS {
            return Err(CoreError::ResourceCreation);
        }
        proof {
            assert(0 < width as int * height as int <= 0x1000000
                && width as int * height as int * layers as int <= 0xFF000000)
                by (nonlinear_arith)
                requires
                    0 < width <= 4096,
                    0 < height <= 4096,
                    0 < layers <= 255;
        }
        let n: usize = (width as usize) * (height as usize) * (layers as usize);
        let pixels = filled_vec(DEPTH_FAR, n);
        let t = DepthTargetTexture2DArray { width, height, layers, pixels, writes: Vec::new() };
        proof {
            assert(t@.writes =~= Seq::<DepthWriteModel>::empty());
        }
        Ok(t)
    }

    /// Width in pixels.
    pub fn width(&self) -> (r: u32)
        ensures
            r == self@.width,
    {
        self.width
    }

    /// Height in pixels.
    pub fn height(&self) -> (r: u32)
        ensures
            r == self@.height,
    {
        self.height
    }

    /// Number of layers.
    pub fn layer_count(&self) -> (r: u32)
        ensures
            r == self@.layers,
    {
        self.layers
    }

    /// The descriptor of this texture for a sampler binding.
    pub fn desc(&self) -> (r: TextureDesc)
        ensures
            r == (TextureDesc {
                kind: TextureKind::DepthArray,
                width: self@.width,
                height: self@.height,
                layers: self@.layers,
            }),
    {
        TextureDesc {
            kind: TextureKind::DepthArray,
            width: self.width,
            height: self.height,
            layers: self.layers,
        }
    }

    /// Clears one layer to the given depth value.
    #[verifier::loop_isolation(false)]
    pub fn clear_layer(&mut self, layer: u32, value: u32)
        requires
            depth_array_wf(old(self)@),
        ensures
            depth_array_wf(final(self)@),
            final(self)@ == (DepthArrayModel {
                pixels: spec_clear_depth_layer(
                    old(self)@.pixels,
                    old(self)@.width as nat,
                    old(self)@.height as nat,
                    layer as int,
                    value,
                ),
                ..old(self)@
            }),
    {
        proof {
            assert(0 < self.width as int * self.height as int <= 0x1000000
                && self.width as int * self.height as int * self.layers as int <= 0xFF000000)
                by (nonlinear_arith)
                requires
                    0 < self.width <= 4096,
                    0 < self.height <= 4096,
                    0 < self.layers <= 255;
        }
        let wh: usize = (self.width as usize) * (self.height as usize);
        let n = self.pixels.len();
        let ghost target = spec_clear_depth_layer(
            old(self)@.pixels,
            old(self)@.width as nat,
            old(self)@.height as nat,
            layer as int,
            value,
        );
        let mut i: usize = 0;
        while i < n
            invariant
                i <= n,
                wh == self.width as int * self.height as int,
                self.width == old(self).width,
                self.height == old(self).height,
                self.layers == old(self).layers,
                self.writes@ == old(self).writes@,
                self.pixels@.len() == n,
                n == old(self).pixels@.len(),
                forall|j: int| 0 <= j < i ==> self.pixels@[j] == target[j],
                forall|j: int| i <= j < n ==> self.pixels@[j] == old(self).pixels@[j],
            decreases n - i,
        {
            proof {
                assert(i as int / (wh as int) < self.layers as int) by (nonlinear_arith)
                    requires
                        0 < wh as int,
                        (i as int) < (wh as int) * (self.layers as int),
                        (wh as int) * (self.layers as int)
                            == (self.width as int) * (self.height as int) * (self.layers as int),
                        wh as int == (self.width as int) * (self.height as int);
            }
            let l: usize = i / wh;
            if l == layer as usize {
                self.pixels.set(i, value);
            }
            proof {
                assert(layer_of(i as int, old(self)@.width as nat, old(self)@.height as nat)
                    == l as int);
            }
            i += 1;
        }
        proof {
            assert(self.pixels@ =~= target);
        }
    }

    /// Number of draws recorded against this texture.
    pub fn write_count(&self) -> (r: usize)
        ensures
            r == self@.writes.len(),
    {
        self.writes.len()
    }

    /// Appends one draw record aimed at the given layer.
    pub fn record_write(&mut self, layer: u32, command: DrawCommand)
        requires
            depth_array_wf(old(self)@),
        ensures
            depth_array_wf(final(self)@),
            final(self)@ == (DepthArrayModel {
                writes: old(self)@.writes.push(DepthWriteModel { layer, command: command@ }),
                ..old(self)@
            }),
    {
        self.writes.push(DepthWriteRecord { layer, command });
        proof {
            assert(self@.writes =~= old(self)@.writes.push(
                DepthWriteModel { layer, command: self.writes@[self.writes@.len() - 1].command@ },
            ));
        }
    }

    /// Copies one whole layer into a plain 2D depth texture of the same
    /// dimensions.
    #[verifier::loop_isolation(false)]
    pub fn copy_to(&self, layer: u32, dest: &mut DepthTargetTexture2D, _viewport: Viewport)
        requires
            depth_array_wf(self@),
            depth2d_wf(old(dest)@),
            layer < self@.layers,
            old(dest)@.width == self@.width,
            old(dest)@.height == self@.height,
        ensures
            depth2d_wf(final(dest)@),
            final(dest)@.width == old(dest)@.width,
            final(dest)@.height == old(dest)@.height,
            final(dest)@.pixels == self@.pixels.subrange(
                layer as int * (self@.width as int * self@.height as int),
                (layer as int + 1) * (self@.width as int * self@.height as int),
            ),
    {
        proof {
            assert(0 < self.width as int * self.height as int <= 0x1000000)
                by (nonlinear_arith)
                requires 0 < self.width <= 4096, 0 < self.height <= 4096;
        }
        let wh: usize = (self.width as usize) * (self.height as usize);
        proof {
            assert(layer as int * (self.width as int * self.height as int)
                + (self.width as int * self.height as int)
                <= self.width as int * self.height as int * self.layers as int
                && 0 <= layer as int * (self.width as int * self.height as int)
                && self.width as int * self.height as int * self.layers as int <= 0xFF000000)
                by (nonlinear_arith)
                requires
                    layer < self.layers,
                    0 < self.width <= 4096,
                    0 < self.height <= 4096,
                    0 < self.layers <= 255;
        }
        let base: usize = (layer as usize) * wh;
        let mut px: Vec<u32> = Vec::new();
        let mut i: usize = 0;
        while i < wh
            invariant
                i <= wh,
                px@.len() == i,
                forall|j: int| 0 <= j < i ==> px@[j] == self.pixels@[base + j],
            decreases wh - i,
        {
            px.push(self.pixels[base + i]);
            i += 1;
        }
        dest.replace_pixels(px);
        proof {
            assert((layer as int + 1) * (self@.width as int * self@.height as int)
                == layer as int * (self@.width as int * self@.height as int)
                    + (self@.width as int * self@.height as int)) by (nonlinear_arith);
            assert(dest@.pixels =~= self@.pixels.subrange(
                layer as int * (self@.width as int * self@.height as int),
                (layer as int + 1) * (self@.width as int * self@.height as int),
            ));
        }
    }

    /// The depth value at `(layer, y, x)`.
    pub fn pixel_at(&self, layer: u32, y: u32, x: u32) -> (r: u32)
        requires
            depth_array_wf(self@),
            layer < self@.layers,
            y < self@.height,
            x < self@.width,
        ensures
            r == self@.pixels[
                ((layer as int * self@.height as int) + y as int) * self@.width as int + x as int
            ],
    {
        proof {
            assert(0 <= (layer as int) * (self.height as int) + (y as int) < 0x100000
                && 0 <= ((layer as int) * (self.height as int) + (y as int)) * (self.width as int)
                    + (x as int) < (self.width as int) * (self.height as int) * (self.layers as int)
                && (self.width as int) * (self.height as int) * (self.layers as int)
                    <= 0xFF000000)
                by (nonlinear_arith)
                requires
                    layer < self.layers,
                    y < self.height,
                    x < self.width,
                    0 < self.width <= 4096,
                    0 < self.height <= 4096,
                    0 < self.layers <= 255;
        }
        let idx: usize = ((layer as usize) * (self.height as usize) + (y as usize))
            * (self.width as usize) + (x as usize);
        self.pixels[idx]
    }
}

/// A plain 2D color texture.
#[derive(Debug)]
pub struct Texture2D {
    width: u32,
    height: u32,
    pixels: Vec<Color>,
}

/// The model of a plain 2D color texture.
pub struct Texture2DModel {
    pub width: u32,
    pub height: u32,
    pub pixels: Seq<Color>,
}

impl View for Texture2D {
    type V = Texture2DModel;

    closed spec fn view(&self) -> Texture2DModel {
        Texture2DModel { width: self.width, height: self.height, pixels: self.pixels@ }
    }
}

/// Structural well-formedness of a plain 2D color texture.
pub open spec fn texture2d_wf(m: Texture2DModel) -> bool {
    &&& 0 < m.width <= MAX_TEXTURE_DIM
    &&& 0 < m.height <= MAX_TEXTURE_DIM
    &&& m.pixels.len() == m.width as int * m.height as int
}

impl Texture2D {

    /// Allocates a 2D color texture cleared to transparent black.
    pub fn new(_context: &Context, width: u32, height: u32) -> (r: Result<Texture2D, CoreError>)
        ensures
            match r {
                Ok(t) => texture_dims_valid(width, height, 1) && texture2d_wf(t@) && t@.width == width
                    && t@.height == height && t@.pixels == Seq::new(
                    (width as int * height as int) as nat,
                    |i: int| Color { r: 0, g: 0, b: 0, a: 0 },
                ),
                Err(e) => !texture_dims_valid(width, height, 1) && e == CoreError::ResourceCreation,
            },
    {
        if width == 0 || width > MAX_TEXTURE_DIM || height == 0 || height > MAX_TEXTURE_DIM {
            return Err(CoreError::ResourceCreation);
        }
        proof {
            assert(width as int * height as int <= 0x1000000
                && 0 <= width as int * height as int) by (nonlinear_arith)
                requires 0 < width <= 4096, 0 < height <= 4096;
        }
        let n: usize = (width as usize) * (height as usize);
        Ok(Texture2D { width, height, pixels: filled_vec(Color { r: 0, g: 0, b: 0, a: 0 }, n) })
    }

    /// The descriptor of this texture for a sampler binding.
    pub fn desc(&self) -> (r: TextureDesc)
        ensures
            r == (TextureDesc {
                kind: TextureKind::Color2D,
                width: self@.width,
                height: self@.height,
                layers: 1,
            }),
    {
        TextureDesc { kind: TextureKind::Color2D, width: self.width, height: self.height, layers: 1 }
    }
}

/// A plain 2D depth texture.
#[derive(Debug)]
pub struct DepthTargetTexture2D {
    width: u32,
    height: u32,
    pixels: Vec<u32>,
}

/// The model of a plain 2D depth texture.
pub struct DepthTexture2DModel {
    pub width: u32,
    pub height: u32,
    pub pixels: Seq<u32>,
}

impl View for DepthTargetTexture2D {
    type V = DepthTexture2DModel;

    closed spec fn view(&self) -> DepthTexture2DModel {
        DepthTexture2DModel { width: self.width, height: self.height, pixels: self.pixels@ }
    }
}

/// Structural well-formedness of a plain 2D depth texture.
pub open spec fn depth2d_wf(m: DepthTexture2DModel) -> bool {
    &&& 0 < m.width <= MAX_TEXTURE_DIM
    &&& 0 < m.height <= MAX_TEXTURE_DIM
    &&& m.pixels.len() == m.width as int * m.height as int
}

impl DepthTargetTexture2D {

    /// Allocates a 2D depth texture cleared to the far plane.
    pub fn new(_context: &Context, width: u32, height: u32) -> (r: Result<
        DepthTargetTexture2D,
        CoreError,
    >)
        ensures
            match r {
                Ok(t) => texture_dims_valid(width, height, 1) && depth2d_wf(t@) && t@.width == width
                    && t@.height == height && t@.pixels == Seq::new(
                    (width as int * height as int) as nat,
                    |i: int| DEPTH_FAR,
                ),
                Err(e) => !texture_dims_valid(width, height, 1) && e == CoreError::ResourceCreation,
            },
    {
        if width == 0 || width > MAX_TEXTURE_DIM || height == 0 || height > MAX_TEXTURE_DIM {
            return Err(CoreError::ResourceCreation);
        }
        proof {
            assert(width as int * height as int <= 0x1000000
                && 0 <= width as int * height as int) by (nonlinear_arith)
                requires 0 < width <= 4096, 0 < height <= 4096;
        }
        let n: usize = (width as usize) * (height as usize);
        Ok(DepthTargetTexture2D { width, height, pixels: filled_vec(DEPTH_FAR, n) })
    }

    /// Width in pixels.
    pub fn width(&self) -> (r: u32)
        ensures
            r == self@.width,
    {
        self.width
    }

    /// Height in pixels.
    pub fn height(&self) -> (r: u32)
        ensures
            r == self@.height,
    {
        self.height
    }

    /// The descriptor of this texture for a sampler binding.
    pub fn desc(&self) -> (r: TextureDesc)
        ensures
            r == (TextureDesc {
                kind: TextureKind::Depth2D,
                width: self@.width,
                height: self@.height,
                layers: 1,
            }),
    {
        TextureDesc { kind: TextureKind::Depth2D, width: self.width, height: self.height, layers: 1 }
    }

    /// Replaces the whole pixel store; the replacement must be one value per
    /// texel.
    pub fn replace_pixels(&mut self, pixels: Vec<u32>)
        requires
            depth2d_wf(old(self)@),
            pixels@.len() == old(self)@.width as int * old(self)@.height as int,
        ensures
            depth2d_wf(final(self)@),
            final(self)@ == (DepthTexture2DModel { pixels: pixels@, ..old(self)@ }),
    {
        self.pixels = pixels;
    }

    /// The depth value at `(y, x)`.
    pub fn pixel_at(&self, y: u32, x: u32) -> (r: u32)
        requires
            depth2d_wf(self@),
            y < self@.height,
            x < self@.width,
        ensures
            r == self@.pixels[y as int * self@.width as int + x as int],
    {
        proof {
            assert(0 <= (y as int) * (self.width as int) + (x as int)
                && (y as int) * (self.width as int) + (x as int)
                    < (self.width as int) * (self.height as int)
                && (self.width as int) * (self.height as int) <= 0x1000000)
                by (nonlinear_arith)
                requires
                    y < self.height,
                    x < self.width,
                    0 < self.width <= 4096,
                    0 < self.height <= 4096;
        }
        let idx: usize = (y as usize) * (self.width as usize) + (x as usize);
        self.pixels[idx]
    }
}

} // verus!
