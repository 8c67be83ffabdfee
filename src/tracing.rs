//! The recursion bound of the integrator.
use vstd::prelude::*;

verus! {

/// The last recursion depth at which the integrator still tests geometry:
/// the primary ray and three bounces.
pub const MAX_DEPTH: u32 = 3;

/// Whether a ray cast at `depth` is tested against the scene; past the bound
/// the integrator samples the environment instead.
pub fn traces_geometry(depth: u32) -> (r: bool)
    ensures
        r == (depth <= MAX_DEPTH),
{
    !(depth > MAX_DEPTH)
}

} // verus!
