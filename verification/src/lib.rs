//! A software rasterizer whose scan-conversion core is verified.
//!
//! Triangles arrive as three caller-defined vertices together with a
//! per-draw uniform bundle.  A vertex program maps each vertex to a
//! homogeneous clip-space position and an attribute bundle, the scan
//! converter determines exactly which pixel centers the triangle covers,
//! visibility is resolved against a depth buffer, attributes are
//! interpolated perspective-correctly, and a fragment program turns them
//! into the color written to the target.
//!
//! All coordinates, depths and attributes are 16.16 fixed-point values
//! held in `i64`, so every arithmetic step has an exact contract.

pub mod depth;
pub mod fixed;
pub mod interpolate;
pub mod program;
pub mod programs;
pub mod raster;
pub mod target;
pub mod vec2;
pub mod vec3;
pub mod vec4;
pub mod window;

pub use crate::depth::DepthBuffer;
pub use crate::interpolate::Interpolate;
pub use crate::program::FragmentProgram;
pub use crate::program::VertexProgram;
pub use crate::raster::Raster;
pub use crate::target::Buffer;
pub use crate::target::TargetBuffer;
pub use crate::vec2::Vec2;
pub use crate::vec3::Vec3;
pub use crate::vec4::Vec4;
pub use crate::window::Builder;
pub use crate::window::ContextError;
