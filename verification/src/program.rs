//! The shader stage contracts.
//!
//! A vertex program maps one caller-defined vertex, under a per-draw
//! uniform bundle, to a homogeneous clip-space position and a varying
//! bundle; a fragment program maps an interpolated varying bundle to a
//! color.  Both are pure: each trait pins its method's result to a spec
//! function of the arguments, which is what lets the rasterizer's own
//! contract name the exact color every covered pixel receives.

use vstd::prelude::*;

verus! {

use crate::interpolate::Interpolate;
use crate::vec4::Vec4;

/// The vertex stage: `(uniform, vertex)` to `(clip position, varying)`.
///
/// `main` receives a zeroed varying accumulator and populates it; the
/// clip position's `w` component is the perspective divisor.
pub trait VertexProgram: Sized {
    /// The per-draw constant bundle.
    type Uniform;

    /// The caller-defined input vertex.
    type Vertex;

    /// The attribute bundle handed on to the fragment stage.
    type Varying: Interpolate;

    /// The clip-space position this program assigns to a vertex.
    spec fn clip_spec(&self, uniform: Self::Uniform, vertex: Self::Vertex) -> Vec4;

    /// The varying bundle this program assigns to a vertex.
    spec fn varying_spec(&self, uniform: Self::Uniform, vertex: Self::Vertex) -> Self::Varying;

    /// Runs the vertex stage for one vertex.
    fn main(&self, uniform: &Self::Uniform, vertex: &Self::Vertex, varying: &mut Self::Varying) -> (
        clip: Vec4)
        ensures
            clip == self.clip_spec(*uniform, *vertex),
            *final(varying) == self.varying_spec(*uniform, *vertex),
    ;
}

/// The fragment stage: `(uniform, varying)` to a color.
pub trait FragmentProgram: Sized {
    /// The per-draw constant bundle.
    type Uniform;

    /// The interpolated attribute bundle.
    type Varying: Interpolate;

    /// The color this program assigns to an interpolated fragment.
    spec fn frag_spec(&self, uniform: Self::Uniform, varying: Self::Varying) -> Vec4;

    /// Runs the fragment stage for one covered pixel.
    fn main(&self, uniform: &Self::Uniform, varying: &Self::Varying) -> (color: Vec4)
        ensures
            color == self.frag_spec(*uniform, *varying),
    ;
}

} // verus!
