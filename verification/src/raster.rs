//! RGBA pixel grids and the target canvas they are fitted into.
use vstd::prelude::*;

verus! {

/// The size of the canvas a thumbnail is rendered onto.
#[derive(Clone, Copy, Debug)]
pub struct CanvasSpec {
    pub width: u32,
    pub height: u32,
}

/// Whether four bytes per pixel of a `width` by `height` grid fit in memory.
pub open spec fn grid_fits(width: u32, height: u32) -> bool {
    width > 0 && height > 0 && 4 * width * height <= usize::MAX
}

/// The number of bytes of a `width` by `height` grid of RGBA pixels.
pub fn grid_len(width: u32, height: u32) -> (n: u128)
    ensures
        n == 4 * width * height,
{
    assert(0 <= width * height <= 0xFFFF_FFFF * 0xFFFF_FFFF) by (nonlinear_arith)
        requires
            0 <= width <= 0xFFFF_FFFF,
            0 <= height <= 0xFFFF_FFFF,
    ;
    assert(4 * (width * height) == 4 * width * height) by (nonlinear_arith);
    let area: u128 = (width as u128) * (height as u128);
    4 * area
}

impl CanvasSpec {
    /// Both sides are positive and the canvas can be allocated.
    pub open spec fn valid(&self) -> bool {
        grid_fits(self.width, self.height)
    }

    /// A canvas of the given size, unless a side is zero or the canvas
    /// would not fit in memory.
    pub fn new(width: u32, height: u32) -> (r: Option<CanvasSpec>)
        ensures
            r.is_some() == grid_fits(width, height),
            r.is_some() ==> r.unwrap().width == width && r.unwrap().height == height,
    {
        if width > 0 && height > 0 && grid_len(width, height) <= usize::MAX as u128 {
            Some(CanvasSpec { width, height })
        } else {
            None
        }
    }
}

/// A grid of RGBA pixels with 8-bit channels, stored row by row.
#[derive(Debug)]
pub struct Raster {
    pub width: u32,
    pub height: u32,
    pub pixels: Vec<u8>,
}

/// The fully transparent pixel.
pub open spec fn transparent_pixel() -> Seq<u8> {
    seq![0u8, 0u8, 0u8, 0u8]
}

/// Row-major position of the first byte of pixel `(x, y)` in a grid of the
/// given width.
pub open spec fn byte_offset(width: int, x: int, y: int) -> int {
    4 * (y * width + x)
}

/// Every pixel inside a grid has its four bytes inside the buffer.
pub proof fn lemma_offset_in_grid(width: int, height: int, x: int, y: int)
    requires
        0 <= x < width,
        0 <= y < height,
    ensures
        0 <= byte_offset(width, x, y),
        byte_offset(width, x, y) + 4 <= 4 * width * height,
        byte_offset(width, x, y) == 4 * (y * width) + 4 * x,
{
    assert(0 <= y * width && y * width + width <= height * width) by (nonlinear_arith)
        requires
            0 <= y < height,
            0 < width,
    ;
    assert(4 * width * height == 4 * (height * width)) by (nonlinear_arith);
}

impl Raster {
    /// Both sides are positive and the buffer holds exactly four bytes for
    /// each pixel.
    pub open spec fn wf(&self) -> bool {
        &&& self.width > 0
        &&& self.height > 0
        &&& self.pixels@.len() == 4 * self.width * self.height
    }

    /// Whether `(x, y)` names a pixel of this grid.
    pub open spec fn contains(&self, x: int, y: int) -> bool {
        0 <= x < self.width && 0 <= y < self.height
    }

    /// The four channel bytes of pixel `(x, y)`.
    pub open spec fn pixel(&self, x: int, y: int) -> Seq<u8> {
        self.pixels@.subrange(
            byte_offset(self.width as int, x, y),
            byte_offset(self.width as int, x, y) + 4,
        )
    }

    /// A grid from its parts, if they describe one: positive sides and a
    /// buffer of exactly four bytes per pixel.
    pub fn from_parts(width: u32, height: u32, pixels: Vec<u8>) -> (r: Option<Raster>)
        ensures
            r.is_some() == (width > 0 && height > 0 && pixels@.len() == 4 * width * height),
            r.is_some() ==> r.unwrap().width == width && r.unwrap().height == height
                && r.unwrap().pixels@ == pixels@ && r.unwrap().wf(),
    {
        if width > 0 && height > 0 && pixels.len() as u128 == grid_len(width, height) {
            Some(Raster { width, height, pixels })
        } else {
            None
        }
    }

    /// A canvas of the given size with every pixel fully transparent.
    pub fn transparent(canvas: CanvasSpec) -> (r: Raster)
        requires
            canvas.valid(),
        ensures
            r.wf(),
            r.width == canvas.width,
            r.height == canvas.height,
            forall|i: int| 0 <= i < r.pixels@.len() ==> r.pixels@[i] == 0,
            forall|x: int, y: int|
                r.contains(x, y) ==> #[trigger] r.pixel(x, y) == transparent_pixel(),
    {
        let n: usize = grid_len(canvas.width, canvas.height) as usize;
        let mut pixels: Vec<u8> = Vec::new();
        let mut i: usize = 0;
        while i < n
            invariant
                i <= n,
                pixels@.len() == i,
                forall|k: int| 0 <= k < i ==> pixels@[k] == 0,
            decreases n - i,
        {
            pixels.push(0u8);
            i = i + 1;
        }
        let r = Raster { width: canvas.width, height: canvas.height, pixels };
        assert forall|x: int, y: int| r.contains(x, y) implies #[trigger] r.pixel(x, y)
            == transparent_pixel() by {
            lemma_offset_in_grid(r.width as int, r.height as int, x, y);
            assert(r.pixel(x, y) =~= transparent_pixel());
        }
        r
    }

    /// The channel bytes of pixel `(x, y)`: red, green, blue, alpha.
    pub fn pixel_at(&self, x: u32, y: u32) -> (p: [u8; 4])
        requires
            self.wf(),
            self.contains(x as int, y as int),
        ensures
            p@ == self.pixel(x as int, y as int),
    {
        proof {
            lemma_offset_in_grid(self.width as int, self.height as int, x as int, y as int);
            assert(0 <= y * self.width <= 0xFFFF_FFFF * 0xFFFF_FFFF) by (nonlinear_arith)
                requires
                    0 <= y <= 0xFFFF_FFFF,
                    0 <= self.width <= 0xFFFF_FFFF,
            ;
        }
        let len: usize = self.pixels.len();
        let row: u128 = (y as u128) * (self.width as u128);
        assert(row == y * self.width);
        assert(4 * (row + x) == byte_offset(self.width as int, x as int, y as int));
        assert(4 * (row + x) + 4 <= len);
        let at: usize = (4 * (row + x as u128)) as usize;
        let p = [self.pixels[at], self.pixels[at + 1], self.pixels[at + 2], self.pixels[at + 3]];
        assert(p@ =~= self.pixel(x as int, y as int));
        p
    }
}

} // verus!
