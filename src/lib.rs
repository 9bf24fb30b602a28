//! Core of an interactive mesh viewer: mesh geometry and its GPU upload
//! layout, the lifecycle of the GPU objects that hold it, the shader build
//! sequence, the per-frame draw plan and the movement decisions of a frame.
use vstd::prelude::*;

pub mod frame;
pub mod geometry;
pub mod gl;
pub mod pipeline;

verus! {

} // verus!
