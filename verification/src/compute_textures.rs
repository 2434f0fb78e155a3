//! Bookkeeping for the double-buffered simulation grid: two same-sized
//! surfaces exist at all times, and the generation counter's parity alone
//! decides which one is read and which one is written on the next step.

use vstd::prelude::*;

use crate::image_util::ImageData;
use crate::math::UVec2;

verus! {

/// Index of the surface read by generation `g`'s step: even generations
/// read surface 0, odd generations read surface 1.
pub open spec fn spec_read_index(g: int) -> int {
    if g % 2 == 0 {
        0
    } else {
        1
    }
}

/// Index of the surface written by generation `g`'s step: the one not read.
pub open spec fn spec_write_index(g: int) -> int {
    1 - spec_read_index(g)
}

/// The (read, write) surface pair for a generation: `(0, 1)` when the
/// generation is even, `(1, 0)` when it is odd.
pub fn read_write_indices(generation: usize) -> (rw: (usize, usize))
    ensures
        rw.0 == spec_read_index(generation as int),
        rw.1 == spec_write_index(generation as int),
{
    if generation % 2 == 1 {
        (1, 0)
    } else {
        (0, 1)
    }
}

/// Parity invariant of the double buffer: the pair is `(0, 1)` for even
/// generations and `(1, 0)` for odd ones, read and write never coincide,
/// and consecutive generations always swap the two slots.
pub proof fn lemma_read_write_parity(g: int)
    requires
        g >= 0,
    ensures
        g % 2 == 0 ==> spec_read_index(g) == 0 && spec_write_index(g) == 1,
        g % 2 == 1 ==> spec_read_index(g) == 1 && spec_write_index(g) == 0,
        spec_read_index(g) != spec_write_index(g),
        spec_read_index(g + 1) != spec_read_index(g),
        spec_write_index(g + 1) != spec_write_index(g),
{
}

/// The host-side model of the double-buffered grid: the dimensions both
/// surfaces were allocated with, and the generation counter whose parity
/// selects the read/write pair. The surfaces themselves live on the GPU; the
/// application binds them at the indices this model hands out.
pub struct ComputeTextures {
    current_frame: usize,
    size: UVec2,
}

impl ComputeTextures {
    pub closed spec fn spec_current_frame(self) -> usize {
        self.current_frame
    }

    pub closed spec fn spec_size(self) -> UVec2 {
        self.size
    }

    /// A fresh pair of surfaces sized to the seed image, at generation 0.
    /// The seed belongs in surface 0, the read slot of generation 0.
    pub fn new(input_image: &ImageData) -> (t: ComputeTextures)
        requires
            input_image.wf(),
        ensures
            t.spec_current_frame() == 0,
            t.spec_size().x == input_image.size.x,
            t.spec_size().y == input_image.size.y,
    {
        ComputeTextures {
            current_frame: 0,
            size: UVec2 { x: input_image.size.x as u32, y: input_image.size.y as u32 },
        }
    }

    /// The (read, write) pair of the current generation.
    pub fn get_read_write(&self) -> (rw: (usize, usize))
        ensures
            rw.0 == spec_read_index(self.spec_current_frame() as int),
            rw.1 == spec_write_index(self.spec_current_frame() as int),
    {
        read_write_indices(self.current_frame)
    }

    pub fn get_current_frame(&self) -> (f: usize)
        ensures
            f == self.spec_current_frame(),
    {
        self.current_frame
    }

    pub fn set_current_frame(&mut self, frame: usize)
        ensures
            final(self).spec_current_frame() == frame,
            final(self).spec_size() == old(self).spec_size(),
    {
        self.current_frame = frame;
    }

    /// Slot a replacement image belongs in: the surface currently in the
    /// *write* slot. Used only at (re)initialization, before any steps have
    /// run; the read slot's surface is never the target. The application
    /// uploads `img` to the returned index.
    pub fn set_image(&self, img: &ImageData) -> (target: usize)
        requires
            img.wf(),
            img.size.x == self.spec_size().x,
            img.size.y == self.spec_size().y,
        ensures
            target == spec_write_index(self.spec_current_frame() as int),
            target != spec_read_index(self.spec_current_frame() as int),
    {
        let rw = self.get_read_write();
        rw.1
    }

    /// Index of the surface holding the most recently computed generation;
    /// the renderer reads from here, and a seed image replaces the *other*
    /// (write-slot) surface.
    pub fn get_read_texture(&self) -> (idx: usize)
        ensures
            idx == spec_read_index(self.spec_current_frame() as int),
    {
        let rw = self.get_read_write();
        rw.0
    }
}

} // verus!
