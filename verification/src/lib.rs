//! Verified core of a quad-based painting renderer.
//!
//! The crate models the renderer's decision logic: camera commands, quad
//! batching with overflow, GPU resource lifecycles, shader-source handling and
//! the two render passes.  Work that only a live graphics context can do
//! (compiling a shader, checking framebuffer completeness) enters through
//! explicit report values, so every decision taken on those reports is
//! verified.
#![allow(non_snake_case)]

pub mod batch;
pub mod buffer;
pub mod bus;
pub mod camera;
pub mod commands;
pub mod errors;
pub mod events;
pub mod framebuffer;
pub mod gui;
pub mod input;
pub mod layer;
pub mod registry;
pub mod renderer;
pub mod shader;
pub mod shader_source;
pub mod state;
pub mod texture;
pub mod tool;
pub mod vao;
