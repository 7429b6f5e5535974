//! The painting tools a panel can select.
use vstd::prelude::*;

verus! {

/// The tools the panel system can select.
#[derive(Clone, Copy, PartialEq, Eq, Structural, Debug)]
pub enum ToolType {
    Brush,
    Rotate,
    Pan,
    Zoom,
    FillBucket,
}

/// What a tool does on the two mouse buttons; the tool layer implements
/// this per tool.
pub trait Tool {
    fn onLeftClick(&self);

    fn onRightClick(&self);
}

} // verus!
