use vstd::prelude::*;
use crate::color::{hex_of, Color};

verus! {

/// A grid of `width * height` cells, row after row, each a color packed as
/// `0xRRGGBB`, with a pen color that `point` writes.
pub struct Framebuffer {
    pub width: usize,
    pub height: usize,
    pub buffer: Vec<u32>,
    pub current_color: u32,
}

impl Framebuffer {
    pub open spec fn wf(&self) -> bool {
        self.buffer@.len() == self.width * self.height
    }

    /// Index of the cell in column `x` and row `y`.
    pub open spec fn cell(&self, x: int, y: int) -> int {
        y * self.width + x
    }

    /// A framebuffer of the given size with every cell black and a black pen.
    pub fn new(width: usize, height: usize) -> (fb: Framebuffer)
        requires
            width * height <= usize::MAX,
        ensures
            fb.wf(),
            fb.width == width,
            fb.height == height,
            fb.current_color == 0,
            forall|i: int| 0 <= i < fb.buffer@.len() ==> fb.buffer@[i] == 0,
    {
        let n = width * height;
        let mut buffer: Vec<u32> = Vec::with_capacity(n);
        let mut i: usize = 0;
        while i < n
            invariant
                i <= n,
                buffer@.len() == i,
                forall|k: int| 0 <= k < i ==> buffer@[k] == 0,
            decreases n - i,
        {
            buffer.push(0);
            i += 1;
        }
        Framebuffer { width, height, buffer, current_color: 0 }
    }

    /// Sets the color that the next writes use.
    pub fn set_current_color(&mut self, color: u32)
        ensures
            final(self).current_color == color,
            final(self).width == old(self).width,
            final(self).height == old(self).height,
            final(self).buffer@ == old(self).buffer@,
    {
        self.current_color = color;
    }

    /// Writes the pen color into the cell in column `x` and row `y`; a point
    /// outside the grid changes nothing.
    pub fn point(&mut self, x: usize, y: usize)
        requires
            old(self).wf(),
        ensures
            final(self).wf(),
            final(self).width == old(self).width,
            final(self).height == old(self).height,
            final(self).current_color == old(self).current_color,
            x < old(self).width && y < old(self).height ==> final(self).buffer@ == old(
                self,
            ).buffer@.update(old(self).cell(x as int, y as int), old(self).current_color),
            !(x < old(self).width && y < old(self).height) ==> final(self).buffer@ == old(
                self,
            ).buffer@,
    {
        if x < self.width && y < self.height {
            let n = self.buffer.len();
            proof {
                assert(n == self.width * self.height);
                assert(y * self.width + x < self.width * self.height) by (nonlinear_arith)
                    requires
                        x < self.width,
                        y < self.height,
                ;
            }
            let i = y * self.width + x;
            self.buffer.set(i, self.current_color);
        }
    }

    /// Writes a whole frame: `colors` holds one color per cell, row after
    /// row, and each cell gets its color packed as `0xRRGGBB`. The pen ends
    /// on the color of the last cell.
    pub fn draw_frame(&mut self, colors: &Vec<Color>)
        requires
            old(self).wf(),
            colors@.len() == old(self).width * old(self).height,
        ensures
            final(self).wf(),
            final(self).width == old(self).width,
            final(self).height == old(self).height,
            forall|i: int|
                0 <= i < colors@.len() ==> final(self).buffer@[i] == hex_of(#[trigger] colors@[i]),
            colors@.len() > 0 ==> final(self).current_color == hex_of(colors@.last()),
            colors@.len() == 0 ==> final(self).current_color == old(self).current_color,
    {
        let n = self.buffer.len();
        let mut i: usize = 0;
        while i < n
            invariant
                self.wf(),
                self.width == old(self).width,
                self.height == old(self).height,
                n == colors@.len(),
                n == self.buffer@.len(),
                i <= n,
                forall|k: int| 0 <= k < i ==> self.buffer@[k] == hex_of(#[trigger] colors@[k]),
                i > 0 ==> self.current_color == hex_of(colors@[i - 1]),
                i == 0 ==> self.current_color == old(self).current_color,
            decreases n - i,
        {
            self.current_color = colors[i].to_hex();
            self.buffer.set(i, self.current_color);
            i += 1;
        }
    }
}

} // verus!
