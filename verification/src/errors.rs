use vstd::prelude::*;

verus! {

/// The shader stage a compile failure came from.
#[derive(Clone, Copy, PartialEq, Eq, Structural, Debug)]
pub enum ShaderStage {
    Vertex,
    Fragment,
}

/// Why loading an asset failed: the file could not be read, or its
/// contents could not be decoded.
#[derive(Clone, Copy, PartialEq, Eq, Structural, Debug)]
pub enum AssetCause {
    IoError,
    DecodeError,
}

/// Failure taxonomy of the rendering core.
///
/// Construction-time failures (shader compile or link, framebuffer
/// completeness, asset decode) are surfaced to the caller with their
/// diagnostic context; the affected resource is left unused.
#[derive(Clone, PartialEq, Eq, Debug)]
pub enum RenderError {
    /// The graphics context handed back a null resource handle.
    ResourceCreationError,
    /// One shader stage failed to compile; carries the stage and the log.
    ShaderCompileError { stage: ShaderStage, log: String },
    /// The shader program failed to link; carries the log.
    ShaderLinkError { log: String },
    /// A framebuffer could not be completed.
    FramebufferIncompleteError,
    /// An asset could not be loaded; carries the path and the cause.
    AssetLoadError { path: String, cause: AssetCause },
    /// A buffer upload would run past the buffer's capacity.
    OutOfRangeError,
}

} // verus!
