//! Reference shader programs.
//!
//! Small verified programs for pipelines whose vertices already carry
//! clip-space positions: the vertex stage passes the position through
//! and hands it on as the varying bundle, and the fragment stage either
//! paints a fixed color or the interpolated varying itself.

use vstd::prelude::*;

verus! {

use crate::program::FragmentProgram;
use crate::program::VertexProgram;
use crate::vec4::Vec4;

/// A vertex stage for pre-transformed geometry: the vertex is its own
/// clip position, and also becomes the varying bundle.
pub struct PassthroughVertex;

impl VertexProgram for PassthroughVertex {
    type Uniform = ();

    type Vertex = Vec4;

    type Varying = Vec4;

    open spec fn clip_spec(&self, uniform: (), vertex: Vec4) -> Vec4 {
        vertex
    }

    open spec fn varying_spec(&self, uniform: (), vertex: Vec4) -> Vec4 {
        vertex
    }

    fn main(&self, uniform: &(), vertex: &Vec4, varying: &mut Vec4) -> (clip: Vec4) {
        *varying = *vertex;
        *vertex
    }
}

/// A fragment stage that paints every covered pixel one fixed color.
pub struct SolidColor {
    pub color: Vec4,
}

impl FragmentProgram for SolidColor {
    type Uniform = ();

    type Varying = Vec4;

    open spec fn frag_spec(&self, uniform: (), varying: Vec4) -> Vec4 {
        self.color
    }

    fn main(&self, uniform: &(), varying: &Vec4) -> (color: Vec4) {
        self.color
    }
}

/// A fragment stage that paints the interpolated varying bundle itself.
pub struct VaryingColor;

impl FragmentProgram for VaryingColor {
    type Uniform = ();

    type Varying = Vec4;

    open spec fn frag_spec(&self, uniform: (), varying: Vec4) -> Vec4 {
        varying
    }

    fn main(&self, uniform: &(), varying: &Vec4) -> (color: Vec4) {
        *varying
    }
}

} // verus!
