//! Integer core of a ray tracer: packed colors, texel storage and wrapped
//! lookup, the framebuffer that a render pass fills, and the recursion bound
//! of the integrator.
pub mod color;
pub mod framebuffer;
pub mod texture;
pub mod tracing;
