//! Small integer vector types shared by the renderer and the simulation.

use vstd::prelude::*;

verus! {

/// A two-component vector of signed integers (window and surface sizes).
#[derive(Clone, Copy, Debug, PartialEq, Eq, Structural)]
pub struct IVec2 {
    pub x: i32,
    pub y: i32,
}

/// A two-component vector of unsigned integers (grid dimensions).
#[derive(Clone, Copy, Debug, PartialEq, Eq, Structural)]
pub struct UVec2 {
    pub x: u32,
    pub y: u32,
}

impl IVec2 {
    pub fn new(x: i32, y: i32) -> (v: IVec2)
        ensures
            v.x == x,
            v.y == y,
    {
        IVec2 { x, y }
    }

    pub fn as_slice(&self) -> (s: [i32; 2])
        ensures
            s@ == seq![self.x, self.y],
    {
        let s = [self.x, self.y];
        proof {
            assert(s@ =~= seq![self.x, self.y]);
        }
        s
    }
}

impl UVec2 {
    pub fn new(x: u32, y: u32) -> (v: UVec2)
        ensures
            v.x == x,
            v.y == y,
    {
        UVec2 { x, y }
    }
}

} // verus!
