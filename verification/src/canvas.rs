use vstd::prelude::*;
use crate::drawing::Color;

verus! {

/// A square pixel grid, stored row-major. It is created and filled by the
/// compositor and handed to the caller read-only once composition finishes.
pub struct Canvas {
    size: u32,
    pixels: Vec<Color>,
}

impl View for Canvas {
    type V = Seq<Color>;

    /// The row-major sequence of the canvas's pixels.
    closed spec fn view(&self) -> Seq<Color> {
        self.pixels@
    }
}

impl Canvas {
    /// A canvas is well formed when it holds exactly one pixel for each cell
    /// of the square grid.
    pub open spec fn wf(self) -> bool {
        self@.len() == self.spec_size() * self.spec_size()
    }

    pub closed spec fn spec_size(self) -> u32 {
        self.size
    }

    /// The pixel in column `x` of row `y`.
    pub open spec fn pixel(self, x: int, y: int) -> Color {
        self@[y * self.spec_size() + x]
    }

    /// Builds a canvas of the given side length from its row-major pixels.
    pub fn from_pixels(size: u32, pixels: Vec<Color>) -> (canvas: Canvas)
        requires
            pixels@.len() == size * size,
        ensures
            canvas.wf(),
            canvas.spec_size() == size,
            canvas@ == pixels@,
    {
        Canvas { size, pixels }
    }

    /// The side length of the square canvas.
    pub fn size(&self) -> (s: u32)
        ensures
            s == self.spec_size(),
    {
        self.size
    }

    /// Reads one pixel.
    pub fn get_pixel(&self, x: u32, y: u32) -> (c: Color)
        requires
            self.wf(),
            x < self.spec_size(),
            y < self.spec_size(),
        ensures
            c == self.pixel(x as int, y as int),
    {
        // Reading the length brings into scope that the pixel buffer, and so
        // the whole square grid, fits in a usize.
        let _length = self.pixels.len();
        proof {
            lemma_row_major_index_in_range(self.spec_size() as int, x as int, y as int);
        }
        let index: usize = y as usize * self.size as usize + x as usize;
        self.pixels[index]
    }
}

/// In a square grid of the given side, the row-major index of an in-bounds
/// cell lies within the pixel buffer.
pub proof fn lemma_row_major_index_in_range(size: int, x: int, y: int) by (nonlinear_arith)
    requires
        0 <= x < size,
        0 <= y < size,
    ensures
        0 <= y * size + x < size * size,
{
}

} // verus!
