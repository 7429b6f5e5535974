//! Paint layers.  How layers composite is an open design question; the
//! model carries the layer data the rest of the system refers to: the
//! backing texture, a blend mode with a fixed-point opacity, a name, and
//! clipping bookkeeping.
use crate::camera::MICRO;
use crate::texture::Texture;
use vstd::prelude::*;

verus! {

/// How a layer blends onto the ones below it; the value is the blend
/// opacity in micro-units.
#[derive(Clone, Copy, PartialEq, Eq, Structural, Debug)]
pub enum BlendingMode {
    Multiply(i64),
    Overlay(i64),
    Colordodge(i64),
}

/// One paint layer.
pub struct Layer {
    /// The texture holding the layer's paint.
    pub data: Texture,
    pub mode: BlendingMode,
    pub name: String,
    pub lockedTransparency: bool,
    /// Whether the layer is clipped, and to which layer index.
    pub clipped: (bool, usize),
}

impl Layer {
    /// A fresh layer over the given texture: fully opaque multiply blend,
    /// the given name, transparency unlocked, not clipped.
    pub fn new(data: Texture, name: String) -> (r: Layer)
        ensures
            r.data == data,
            r.mode == BlendingMode::Multiply(MICRO),
            r.name@ == name@,
            !r.lockedTransparency,
            r.clipped == (false, 0usize),
    {
        Layer {
            data,
            mode: BlendingMode::Multiply(MICRO),
            name,
            lockedTransparency: false,
            clipped: (false, 0),
        }
    }
}

} // verus!
