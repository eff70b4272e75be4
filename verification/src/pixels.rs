//! Pixels expressed in a color space, and the images made of them.

use vstd::prelude::*;

verus! {

/// A pixel's color in a color space. `axis0` is the axis that the slice
/// selects on, `axis1` and `axis2` are the two axes of the bar chart; each is
/// a fixed-point value in thousandths.
#[derive(Clone, Copy, Debug, PartialEq, Eq, Structural)]
pub struct SpaceCoordinate {
    pub axis0: i64,
    pub axis1: i64,
    pub axis2: i64,
}

/// The pixels of one image, each converted once into the coordinates of a
/// color space and kept row by row. Moving the slice never converts a pixel
/// again; a new image takes a new grid.
#[derive(Debug)]
pub struct PixelGrid {
    width: u32,
    height: u32,
    pixels: Vec<SpaceCoordinate>,
}

impl View for PixelGrid {
    type V = Seq<SpaceCoordinate>;

    /// The pixels in scan order: row after row, each from left to right.
    closed spec fn view(&self) -> Seq<SpaceCoordinate> {
        self.pixels@
    }
}

impl PixelGrid {
    #[verifier::type_invariant]
    spec fn inv(self) -> bool {
        self.pixels.len() == self.width * self.height
    }

    /// The number of pixels in a row.
    pub closed spec fn width_spec(&self) -> nat {
        self.width as nat
    }

    /// The number of rows.
    pub closed spec fn height_spec(&self) -> nat {
        self.height as nat
    }

    /// The pixel in column `x` of row `y`.
    pub open spec fn pixel_spec(&self, x: int, y: int) -> SpaceCoordinate {
        self@[y * self.width_spec() + x]
    }

    /// Makes the grid of a `width` by `height` image from its pixels in scan
    /// order, if there are `width * height` of them.
    pub fn new(width: u32, height: u32, pixels: Vec<SpaceCoordinate>) -> (res: Option<PixelGrid>)
        ensures
            res is Some <==> pixels.len() == width * height,
            res matches Some(grid) ==> grid@ == pixels@ && grid.width_spec() == width
                && grid.height_spec() == height,
    {
        assert(width * height <= u32::MAX * u32::MAX) by (nonlinear_arith)
            requires
                0 <= width <= u32::MAX,
                0 <= height <= u32::MAX,
        ;
        let size: u64 = width as u64 * height as u64;
        if pixels.len() as u64 == size {
            Some(PixelGrid { width, height, pixels })
        } else {
            None
        }
    }

    /// The number of pixels in a row.
    pub fn width(&self) -> (w: u32)
        ensures
            w == self.width_spec(),
            self@.len() == self.width_spec() * self.height_spec(),
    {
        proof {
            use_type_invariant(self);
        }
        self.width
    }

    /// The number of rows.
    pub fn height(&self) -> (h: u32)
        ensures
            h == self.height_spec(),
            self@.len() == self.width_spec() * self.height_spec(),
    {
        proof {
            use_type_invariant(self);
        }
        self.height
    }

    /// The pixel in column `x` of row `y`.
    pub fn get_pixel(&self, x: u32, y: u32) -> (p: SpaceCoordinate)
        requires
            x < self.width_spec(),
            y < self.height_spec(),
        ensures
            p == self.pixel_spec(x as int, y as int),
            0 <= y * self.width_spec() + x < self@.len(),
    {
        proof {
            use_type_invariant(self);
            lemma_scan_index(x as int, y as int, self.width as int, self.height as int);
        }
        let index: usize = y as usize * self.width as usize + x as usize;
        self.pixels[index]
    }
}

/// The place of pixel (`x`, `y`) in scan order lies within the image, and the
/// pixel after the last of a row is the first of the next.
pub proof fn lemma_scan_index(x: int, y: int, width: int, height: int)
    requires
        0 <= x < width,
        0 <= y < height,
    ensures
        0 <= y * width <= y * width + x < width * height,
        (y + 1) * width == y * width + width,
{
    assert(0 <= y * width && y * width + width <= width * height && (y + 1) * width == y * width
        + width) by (nonlinear_arith)
        requires
            0 <= y < height,
            0 < width,
    ;
}

} // verus!
