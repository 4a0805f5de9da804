//! Typed, non-retryable failures of the rendering pipeline.

use vstd::prelude::*;

verus! {

/// What went wrong while preparing or finishing a rendering.
#[derive(Clone, Copy, Debug, PartialEq, Eq, Structural)]
pub enum Error {
    /// The mesh holds no vertices, so there is no bounding box and nothing
    /// to render.
    EmptyMesh,
    /// Every pixel of the rendering is transparent, so cropping would leave
    /// an image with no area.
    ZeroAreaImage,
}

impl Error {
    /// A short description of the failure.
    pub fn message(&self) -> &'static str {
        match self {
            Error::EmptyMesh => "cannot render mesh because it is empty",
            Error::ZeroAreaImage => "image has an area of zero after cropping transparent pixels",
        }
    }
}

} // verus!
