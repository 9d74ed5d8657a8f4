//! The pixel grid a render fills: `height` rows of `width` colors.

use vstd::prelude::*;
use crate::color;
use crate::color::Color;

verus! {

#[derive(Debug)]
pub struct Canvas {
    pub width: usize,
    pub height: usize,
    pub pixels: Vec<Vec<Color>>,
}

impl Canvas {
    /// Every row has the canvas width and every pixel is representable.
    pub open spec fn wf(self) -> bool {
        self.pixels@.len() == self.height && forall|r: int|
            0 <= r < self.height ==> (#[trigger] self.pixels@[r])@.len() == self.width && forall|
                c: int,
            | 0 <= c < self.width ==> self.pixels@[r]@[c].wf()
    }

    /// A canvas of the given size with every pixel black.
    pub fn new(width: usize, height: usize) -> (r: Canvas)
        ensures
            r.wf(),
            r.width == width,
            r.height == height,
            forall|y: int, x: int|
                0 <= y < height && 0 <= x < width ==> r.pixels@[y]@[x] == color::black_s(),
    {
        let mut pixels: Vec<Vec<Color>> = Vec::new();
        let mut y: usize = 0;
        while y < height
            invariant
                y <= height,
                pixels@.len() == y,
                forall|r: int|
                    0 <= r < y ==> (#[trigger] pixels@[r])@.len() == width && forall|c: int|
                        0 <= c < width ==> pixels@[r]@[c] == color::black_s(),
            decreases height - y,
        {
            let mut row: Vec<Color> = Vec::new();
            let mut x: usize = 0;
            while x < width
                invariant
                    x <= width,
                    row@.len() == x,
                    forall|c: int| 0 <= c < x ==> row@[c] == color::black_s(),
                decreases width - x,
            {
                row.push(color::black());
                x = x + 1;
            }
            pixels.push(row);
            y = y + 1;
        }
        Canvas { width, height, pixels }
    }

    /// Overwrites the pixel at `(x, y)`; every other pixel keeps its color.
    pub fn write_pixel(&mut self, x: isize, y: isize, color: &Color)
        requires
            old(self).wf(),
            0 <= x < old(self).width,
            0 <= y < old(self).height,
            color.wf(),
        ensures
            final(self).wf(),
            final(self).width == old(self).width,
            final(self).height == old(self).height,
            forall|r: int, c: int|
                0 <= r < old(self).height && 0 <= c < old(self).width
                    ==> (#[trigger] final(self).pixels@[r]@[c]) == if r == y && c == x {
                    *color
                } else {
                    old(self).pixels@[r]@[c]
                },
    {
        let yu: usize = y as usize;
        let xu: usize = x as usize;
        let row: &mut Vec<Color> = &mut self.pixels[yu];
        row[xu] = *color;
    }
}

} // verus!
