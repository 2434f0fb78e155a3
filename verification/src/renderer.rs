//! Host-side parameters of the simulation renderer: which kernel variant's
//! presentation pipeline is active, and the uniform values a draw binds
//! (window and grid sizes, for aspect-correct scaling).

use vstd::prelude::*;

use crate::math::IVec2;

verus! {

/// Which variant's render pipeline draws the grid.
#[derive(Clone, Copy, Debug, PartialEq, Eq, Hash, Structural)]
pub enum RendererType {
    Totalistic,
    Neural,
}

/// The render-uniform payload: window size and simulation-grid size, each
/// as `[x, y]`.
#[derive(Clone, Copy, Debug)]
pub struct RenderParams {
    pub window_size: [i32; 2],
    pub sim_size: [i32; 2],
}

impl RenderParams {
    pub fn new(window_size: IVec2, sim_size: IVec2) -> (p: RenderParams)
        ensures
            p.window_size@ == seq![window_size.x, window_size.y],
            p.sim_size@ == seq![sim_size.x, sim_size.y],
    {
        RenderParams { window_size: window_size.as_slice(), sim_size: sim_size.as_slice() }
    }
}

} // verus!
