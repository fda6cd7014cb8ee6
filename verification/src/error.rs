//! Why a renderer could not be made.

use vstd::prelude::*;

verus! {

/// The ways in which making a renderer for a window fails. None of them can
/// be helped by trying again: the environment has to change first.
#[derive(Clone, Copy, Debug, PartialEq, Eq, Structural)]
pub enum RendererError {
    /// The surface supports no texture format on the adapter.
    NoSurfaceFormat,
    /// The surface supports no present mode on the adapter.
    NoPresentMode,
    /// The window has no pixels: its width or its height is zero.
    ZeroExtent,
    /// The window already has a renderer.
    DuplicateWindow,
}

impl RendererError {
    /// The diagnostic that goes with the error.
    pub open spec fn diagnostic(self) -> Seq<char> {
        match self {
            RendererError::NoSurfaceFormat => "Surface format not supported by adapter"@,
            RendererError::NoPresentMode => "Surface presentation mode not supported by adapter"@,
            RendererError::ZeroExtent => "Window has no pixels to render to"@,
            RendererError::DuplicateWindow => "Window already has a renderer"@,
        }
    }

    /// The diagnostic to abort with.
    pub fn message(&self) -> (text: &'static str)
        ensures
            text@ == self.diagnostic(),
    {
        match self {
            RendererError::NoSurfaceFormat => "Surface format not supported by adapter",
            RendererError::NoPresentMode => "Surface presentation mode not supported by adapter",
            RendererError::ZeroExtent => "Window has no pixels to render to",
            RendererError::DuplicateWindow => "Window already has a renderer",
        }
    }
}

} // verus!
