//! Core of a deferred 3D rendering engine, modelled over exact integer
//! arithmetic so that every part of it can be verified.
//!
//! The library mirrors the classic GPU pipeline: CPU-side mesh data is
//! validated and uploaded into buffer objects, render targets wrap colour and
//! depth texture arrays, and a deferred pipeline runs a geometry pass followed
//! by a light pass.  Rendering work is modelled as data: a draw call is a
//! [`command::DrawCommand`] value recorded by the target textures, while
//! clears and texture copies act directly on the stored pixels.

pub mod buffer;
pub mod camera;
pub mod command;
pub mod context;
pub mod cpu_mesh;
pub mod deferred_pipeline;
pub mod error;
pub mod instanced_model;
pub mod light;
pub mod material;
pub mod mesh;
pub mod model;
pub mod math;
pub mod render_states;
pub mod render_target;
pub mod shader;
pub mod texture;

use vstd::prelude::*;

verus! {

} // verus!
