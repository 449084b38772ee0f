use vstd::prelude::*;

verus! {

/// Width of the visible picture, in pixels.
pub const WIDTH: usize = 256;

/// Height of the visible picture, in pixels.
pub const HEIGHT: usize = 240;

/// Number of packed color values the frame buffer holds.
pub const PIXELS: usize = 61440;

/// A fixed-capacity pixel sink: one packed color value per visible dot, in
/// raster order, wrapping back to the first pixel after the last. It does no
/// end-of-frame signaling of its own; the rendering collaborator knows when
/// a full frame has been written.
pub struct Frame {
    /// The pixel buffer, always `PIXELS` entries long.
    pub frame: Vec<u32>,
    /// The cursor of the next pixel to write; always below `PIXELS`.
    pub index: usize,
}

impl Frame {
    /// The sink is well formed when the buffer has its fixed capacity and
    /// the cursor is inside it.
    pub open spec fn wf(self) -> bool {
        &&& self.frame@.len() == PIXELS
        &&& self.index < PIXELS
    }

    pub fn new() -> (r: Frame)
        ensures
            r.wf(),
            r.index == 0,
            forall|i: int| 0 <= i < PIXELS ==> r.frame@[i] == 0xFFu32,
    {
        let mut buffer: Vec<u32> = Vec::new();
        let mut i: usize = 0;
        while i < PIXELS
            invariant
                i <= PIXELS,
                buffer@.len() == i,
                forall|j: int| 0 <= j < i ==> buffer@[j] == 0xFFu32,
            decreases PIXELS - i,
        {
            buffer.push(0xFF);
            i = i + 1;
        }
        Frame { frame: buffer, index: 0 }
    }

    /// Write one color at the cursor and advance it, wrapping to the first
    /// pixel after the last one.
    pub fn set_pixel(&mut self, color: u32)
        requires
            old(self).wf(),
        ensures
            final(self).frame@ == old(self).frame@.update(old(self).index as int, color),
            final(self).index == if old(self).index + 1 == PIXELS { 0 } else { old(self).index + 1 },
            final(self).wf(),
    {
        self.frame.set(self.index, color);
        self.index = self.index + 1;
        if self.index == PIXELS {
            self.index = 0;
        }
    }

    /// A read-only view of the buffer, for the host to copy or display;
    /// the buffer itself stays owned here.
    pub fn get_pointer(&self) -> (r: &Vec<u32>)
        ensures
            r@ == self.frame@,
    {
        &self.frame
    }
}

} // verus!
