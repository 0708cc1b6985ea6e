use vstd::prelude::*;
use crate::ppu::palette::Color;

verus! {

pub const FRAME_WIDTH: u16 = 256;
pub const FRAME_HEIGHT: u16 = 240;

/// A 256x240 picture, one row of colours per scanline.
pub struct Frame {
    pub pixels: Vec<[Color; 256]>,
}

pub open spec fn black() -> Color {
    Color { r: 0, g: 0, b: 0 }
}

/// Whether (`x`, `y`) lies on the picture.
pub open spec fn on_frame(x: i32, y: i32) -> bool {
    0 <= x < FRAME_WIDTH && 0 <= y < FRAME_HEIGHT
}

impl Frame {
    pub open spec fn wf(&self) -> bool {
        self.pixels@.len() == FRAME_HEIGHT
    }

    /// The colour at (`x`, `y`).
    pub open spec fn pixel(&self, x: i32, y: i32) -> Color {
        self.pixels@[y as int][x as int]
    }

    /// An all-black picture.
    pub fn new() -> (r: Self)
        ensures
            r.wf(),
            forall|x: i32, y: i32| on_frame(x, y) ==> #[trigger] r.pixel(x, y) == black(),
    {
        Frame { pixels: Frame::initialize_frame() }
    }

    /// The colour at (`x`, `y`); black off the picture.
    pub fn get_pixel(&mut self, x: i32, y: i32) -> (r: Color)
        requires
            old(self).wf(),
        ensures
            final(self).pixels@ == old(self).pixels@,
            r == if on_frame(x, y) { old(self).pixel(x, y) } else { black() },
    {
        if (x < 0 || x > (FRAME_WIDTH - 1) as i32) || (y < 0 || y > (FRAME_HEIGHT - 1) as i32) {
            return Color { r: 0, g: 0, b: 0 };
        }
        self.pixels[y as usize][x as usize]
    }

    /// Paint (`x`, `y`); points off the picture are ignored.
    pub fn set_pixel(&mut self, x: i32, y: i32, color: Color)
        requires
            old(self).wf(),
        ensures
            final(self).wf(),
            forall|i: i32, j: i32| on_frame(i, j) ==> #[trigger] final(self).pixel(i, j) == if i == x && j == y {
                color
            } else {
                old(self).pixel(i, j)
            },
    {
        if x >= 0 && x < (FRAME_WIDTH as i32) && y >= 0 && y < (FRAME_HEIGHT as i32) {
            let mut row = self.pixels[y as usize];
            row[x as usize] = color;
            self.pixels.set(y as usize, row);
        }
    }

    fn initialize_frame() -> (r: Vec<[Color; 256]>)
        ensures
            r@.len() == FRAME_HEIGHT,
            forall|y: int, x: int| 0 <= y < FRAME_HEIGHT && 0 <= x < FRAME_WIDTH ==> #[trigger] r@[y][x] == black(),
    {
        let mut frame: Vec<[Color; 256]> = Vec::new();
        let black_row = [Color { r: 0, g: 0, b: 0 }; 256];
        let mut y: u16 = 0;
        while y < FRAME_HEIGHT
            invariant
                y <= FRAME_HEIGHT,
                frame@.len() == y,
                forall|x: int| 0 <= x < FRAME_WIDTH ==> black_row[x] == black(),
                forall|i: int, x: int| 0 <= i < y && 0 <= x < FRAME_WIDTH ==> #[trigger] frame@[i][x] == black(),
            decreases FRAME_HEIGHT - y,
        {
            frame.push(black_row);
            y = y + 1;
        }
        frame
    }
}

} // verus!
