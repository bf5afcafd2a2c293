//! Fixed-function render state: write masks, depth test, culling, viewports
//! and clear state.

use vstd::prelude::*;

verus! {

/// Depth value of the far plane; clearing depth to "1.0" clears to this.
pub const DEPTH_FAR: u32 = 4294967295;

/// Per-channel booleans gating which channels a draw or clear may modify.
#[derive(Clone, Copy, Debug, PartialEq, Eq, Structural)]
pub struct WriteMask {
    pub red: bool,
    pub green: bool,
    pub blue: bool,
    pub alpha: bool,
    pub depth: bool,
}

impl WriteMask {
    /// Mask letting every channel be written.
    pub fn color_and_depth() -> (r: WriteMask)
        ensures
            r == (WriteMask { red: true, green: true, blue: true, alpha: true, depth: true }),
    {
        WriteMask { red: true, green: true, blue: true, alpha: true, depth: true }
    }

    /// Mask letting only the depth channel be written.
    pub fn depth_only() -> (r: WriteMask)
        ensures
            r == (WriteMask { red: false, green: false, blue: false, alpha: false, depth: true }),
    {
        WriteMask { red: false, green: false, blue: false, alpha: false, depth: true }
    }
}

impl Default for WriteMask {
    /// The default mask writes every channel.
    fn default() -> (r: WriteMask)
        ensures
            r == (WriteMask { red: true, green: true, blue: true, alpha: true, depth: true }),
    {
        WriteMask { red: true, green: true, blue: true, alpha: true, depth: true }
    }
}

/// The comparison a fragment's depth must pass to be written.
#[derive(Clone, Copy, Debug, PartialEq, Eq, Structural)]
pub enum DepthTest {
    Never,
    Less,
    Equal,
    NotEqual,
    LessOrEqual,
    Greater,
    GreaterOrEqual,
    Always,
}

/// Which triangle faces are discarded before rasterization.
#[derive(Clone, Copy, Debug, PartialEq, Eq, Structural)]
pub enum Cull {
    Disabled,
    Back,
    Front,
    FrontAndBack,
}

/// The fixed-function state a draw call runs under.
#[derive(Clone, Copy, Debug, PartialEq, Eq, Structural)]
pub struct RenderStates {
    pub depth_test: DepthTest,
    pub write_mask: WriteMask,
    pub cull: Cull,
}

impl RenderStates {
    /// The canonical default state as a specification value.
    pub open spec fn default_spec() -> RenderStates {
        RenderStates {
            depth_test: DepthTest::Less,
            write_mask: WriteMask { red: true, green: true, blue: true, alpha: true, depth: true },
            cull: Cull::Disabled,
        }
    }
}

impl Default for RenderStates {
    /// Depth test `Less`, all channels writable, no culling.
    fn default() -> (r: RenderStates)
        ensures
            r == RenderStates::default_spec(),
    {
        RenderStates {
            depth_test: DepthTest::Less,
            write_mask: WriteMask { red: true, green: true, blue: true, alpha: true, depth: true },
            cull: Cull::Disabled,
        }
    }
}

/// The rectangle of the target a draw is mapped onto.
#[derive(Clone, Copy, Debug, PartialEq, Eq, Structural)]
pub struct Viewport {
    pub x: i32,
    pub y: i32,
    pub width: u32,
    pub height: u32,
}

impl Viewport {
    /// A viewport at the origin with the given dimensions.
    pub fn new_at_origo(width: u32, height: u32) -> (r: Viewport)
        ensures
            r == (Viewport { x: 0, y: 0, width, height }),
    {
        Viewport { x: 0, y: 0, width, height }
    }
}

/// Which channels to clear when a render target write begins, and to what.
/// `None` preserves the existing contents of that channel.
#[derive(Clone, Copy, Debug, PartialEq, Eq, Structural)]
pub struct ClearState {
    /// Clear value for the red channel.
    pub red: Option<u8>,
    /// Clear value for the green channel.
    pub green: Option<u8>,
    /// Clear value for the blue channel.
    pub blue: Option<u8>,
    /// Clear value for the alpha channel.
    pub alpha: Option<u8>,
    /// Clear value for the depth channel; [`DEPTH_FAR`] is the far plane.
    pub depth: Option<u32>,
}

impl ClearState {
    /// Nothing will be cleared.
    pub fn none() -> (r: ClearState)
        ensures
            r == (ClearState { red: None, green: None, blue: None, alpha: None, depth: None }),
    {
        ClearState { red: None, green: None, blue: None, alpha: None, depth: None }
    }

    /// Only the depth channel will be cleared, to the given value.
    pub fn depth(depth: u32) -> (r: ClearState)
        ensures
            r == (ClearState { red: None, green: None, blue: None, alpha: None, depth: Some(depth) }),
    {
        ClearState { red: None, green: None, blue: None, alpha: None, depth: Some(depth) }
    }

    /// The four color channels will be cleared to the given values.
    pub fn color(red: u8, green: u8, blue: u8, alpha: u8) -> (r: ClearState)
        ensures
            r == (ClearState {
                red: Some(red),
                green: Some(green),
                blue: Some(blue),
                alpha: Some(alpha),
                depth: None,
            }),
    {
        ClearState { red: Some(red), green: Some(green), blue: Some(blue), alpha: Some(alpha), depth: None }
    }

    /// Both the color channels and depth will be cleared.
    pub fn color_and_depth(red: u8, green: u8, blue: u8, alpha: u8, depth: u32) -> (r: ClearState)
        ensures
            r == (ClearState {
                red: Some(red),
                green: Some(green),
                blue: Some(blue),
                alpha: Some(alpha),
                depth: Some(depth),
            }),
    {
        ClearState {
            red: Some(red),
            green: Some(green),
            blue: Some(blue),
            alpha: Some(alpha),
            depth: Some(depth),
        }
    }

    /// The canonical default clear as a specification value: opaque black
    /// color and far-plane depth.
    pub open spec fn default_spec() -> ClearState {
        ClearState {
            red: Some(0),
            green: Some(0),
            blue: Some(0),
            alpha: Some(255),
            depth: Some(DEPTH_FAR),
        }
    }
}

impl Default for ClearState {
    /// Clears the color to opaque black and the depth to the far plane.
    fn default() -> (r: ClearState)
        ensures
            r == ClearState::default_spec(),
    {
        ClearState {
            red: Some(0),
            green: Some(0),
            blue: Some(0),
            alpha: Some(255),
            depth: Some(DEPTH_FAR),
        }
    }
}

} // verus!
