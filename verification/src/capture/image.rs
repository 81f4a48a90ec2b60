use vstd::prelude::*;

verus! {

/// A colour: red, green and blue.
#[derive(Debug, Clone, Copy, PartialEq, Eq, Hash, Structural)]
pub struct Rgb {
    pub r: u8,
    pub g: u8,
    pub b: u8,
}

/// The squared distance between two colours.
pub open spec fn color_distance_spec(c1: Rgb, c2: Rgb) -> int {
    (c1.r - c2.r) * (c1.r - c2.r) + (c1.g - c2.g) * (c1.g - c2.g) + (c1.b - c2.b) * (c1.b - c2.b)
}

/// The squared distance between two colours; at most `3 * 255 * 255`.
pub fn color_distance(c1: &Rgb, c2: &Rgb) -> (distance: u32)
    ensures
        distance == color_distance_spec(*c1, *c2),
        distance <= 195_075,
{
    let dr: i32 = c1.r as i32 - c2.r as i32;
    let dg: i32 = c1.g as i32 - c2.g as i32;
    let db: i32 = c1.b as i32 - c2.b as i32;
    assert(0 <= dr * dr <= 65_025 && 0 <= dg * dg <= 65_025 && 0 <= db * db <= 65_025)
        by (nonlinear_arith)
        requires
            -255 <= dr <= 255,
            -255 <= dg <= 255,
            -255 <= db <= 255,
    ;
    (dr * dr + dg * dg + db * db) as u32
}

/// A frame of pixels, row after row, three bytes to the pixel.
#[derive(Debug, Clone, PartialEq, Eq)]
pub struct RgbImage {
    width: u32,
    height: u32,
    data: Vec<u8>,
}

impl RgbImage {
    /// Whether the frame holds exactly its pixels: three bytes for each.
    pub open spec fn wf(&self) -> bool {
        self.bytes().len() == self.spec_width() * self.spec_height() * 3
    }

    /// The width in pixels.
    pub closed spec fn spec_width(&self) -> u32 {
        self.width
    }

    /// The height in pixels.
    pub closed spec fn spec_height(&self) -> u32 {
        self.height
    }

    /// The bytes of the frame.
    pub closed spec fn bytes(&self) -> Seq<u8> {
        self.data@
    }

    /// The colour at column `x` of row `y`.
    pub open spec fn pixel(&self, x: int, y: int) -> Rgb {
        let at = (y * self.spec_width() + x) * 3;
        Rgb { r: self.bytes()[at], g: self.bytes()[at + 1], b: self.bytes()[at + 2] }
    }

    /// Whether the pixel lies in the frame.
    pub open spec fn holds(&self, x: int, y: int) -> bool {
        0 <= x < self.spec_width() && 0 <= y < self.spec_height()
    }

    /// A frame from its bytes, if there are three for each pixel.
    pub fn from_raw(width: u32, height: u32, data: Vec<u8>) -> (image: Option<RgbImage>)
        ensures
            image is Some <==> data@.len() == width * height * 3,
            image matches Some(im) ==> im.wf() && im.spec_width() == width && im.spec_height()
                == height && im.bytes() == data@,
    {
        let wanted: u128 = area_bytes(width, height);
        if data.len() as u128 == wanted {
            Some(RgbImage { width, height, data })
        } else {
            None
        }
    }

    /// A black frame of the given size.
    pub fn new(width: u32, height: u32) -> (image: RgbImage)
        requires
            width * height * 3 <= usize::MAX,
        ensures
            image.wf(),
            image.spec_width() == width,
            image.spec_height() == height,
            forall|x: int, y: int|
                image.holds(x, y) ==> #[trigger] image.pixel(x, y) == (Rgb { r: 0, g: 0, b: 0 }),
    {
        let n: u128 = area_bytes(width, height);
        let data: Vec<u8> = vec![0u8; n as usize];
        let image = RgbImage { width, height, data };
        assert forall|x: int, y: int| image.holds(x, y) implies #[trigger] image.pixel(x, y) == (Rgb {
            r: 0,
            g: 0,
            b: 0,
        }) by {
            lemma_pixel_in_bounds(width as int, height as int, x, y);
        }
        image
    }

    /// The width in pixels.
    #[verifier::when_used_as_spec(spec_width)]
    pub fn width(&self) -> (w: u32)
        ensures
            w == self.spec_width(),
    {
        self.width
    }

    /// The height in pixels.
    #[verifier::when_used_as_spec(spec_height)]
    pub fn height(&self) -> (h: u32)
        ensures
            h == self.spec_height(),
    {
        self.height
    }

    /// The bytes of the frame, row after row.
    pub fn as_raw(&self) -> (raw: &Vec<u8>)
        ensures
            raw@ == self.bytes(),
    {
        &self.data
    }

    fn offset(&self, x: u32, y: u32) -> (at: usize)
        requires
            self.wf(),
            self.holds(x as int, y as int),
        ensures
            at == (y * self.spec_width() + x) * 3,
            at + 2 < self.bytes().len() <= usize::MAX,
    {
        proof {
            lemma_pixel_in_bounds(self.width as int, self.height as int, x as int, y as int);
        }
        let len = self.data.len();
        assert(self.bytes().len() == len);
        let row: u64 = mul_u32(y, self.width);
        let at: u64 = (row + x as u64) * 3;
        at as usize
    }

    /// The colour at column `x` of row `y`.
    pub fn get_pixel(&self, x: u32, y: u32) -> (color: Rgb)
        requires
            self.wf(),
            self.holds(x as int, y as int),
        ensures
            color == self.pixel(x as int, y as int),
    {
        proof {
            lemma_pixel_in_bounds(self.width as int, self.height as int, x as int, y as int);
        }
        let at: usize = self.offset(x, y);
        Rgb { r: self.data[at], g: self.data[at + 1], b: self.data[at + 2] }
    }

    /// Sets the colour at column `x` of row `y`; every other pixel stays.
    pub fn put_pixel(&mut self, x: u32, y: u32, color: Rgb)
        requires
            old(self).wf(),
            old(self).holds(x as int, y as int),
        ensures
            final(self).wf(),
            final(self).spec_width() == old(self).spec_width(),
            final(self).spec_height() == old(self).spec_height(),
            final(self).pixel(x as int, y as int) == color,
            forall|i: int, j: int|
                old(self).holds(i, j) && (i != x || j != y) ==> #[trigger] final(self).pixel(i, j)
                    == old(self).pixel(i, j),
    {
        proof {
            lemma_pixel_in_bounds(self.width as int, self.height as int, x as int, y as int);
        }
        let at: usize = self.offset(x, y);
        self.data.set(at, color.r);
        self.data.set(at + 1, color.g);
        self.data.set(at + 2, color.b);
        proof {
            let w = self.width as int;
            let h = self.height as int;
            assert forall|i: int, j: int| old(self).holds(i, j) && (i != x || j
                != y) implies #[trigger] self.pixel(i, j) == old(self).pixel(i, j) by {
                lemma_pixels_apart(w, h, x as int, y as int, i, j);
                lemma_pixel_in_bounds(w, h, i, j);
            }
        }
    }
}

/// The product of two `u32`, which fits in a `u64`.
fn mul_u32(a: u32, b: u32) -> (product: u64)
    ensures
        product == a * b,
{
    assert(a * b <= 0xffff_ffff * 0xffff_ffff) by (nonlinear_arith)
        requires
            0 <= a <= 0xffff_ffff,
            0 <= b <= 0xffff_ffff,
    ;
    (a as u64) * (b as u64)
}

/// How many bytes a frame of the given size takes.
fn area_bytes(width: u32, height: u32) -> (bytes: u128)
    ensures
        bytes == width * height * 3,
{
    (mul_u32(width, height) as u128) * 3
}

/// The three bytes of a pixel of the frame lie within the frame's bytes.
pub proof fn lemma_pixel_in_bounds(w: int, h: int, x: int, y: int)
    requires
        0 <= x < w,
        0 <= y < h,
    ensures
        0 <= (y * w + x) * 3,
        (y * w + x) * 3 + 2 < w * h * 3,
{
    assert(y * w + x < w * h && 0 <= y * w + x) by (nonlinear_arith)
        requires
            0 <= x < w,
            0 <= y < h,
    ;
}

/// Two different pixels do not share a byte.
pub proof fn lemma_pixels_apart(w: int, h: int, x: int, y: int, i: int, j: int)
    requires
        0 <= x < w,
        0 <= y < h,
        0 <= i < w,
        0 <= j < h,
        i != x || j != y,
    ensures
        (j * w + i) * 3 + 2 < (y * w + x) * 3 || (y * w + x) * 3 + 2 < (j * w + i) * 3,
{
    assert(j * w + i != y * w + x) by (nonlinear_arith)
        requires
            0 <= x < w,
            0 <= y < h,
            0 <= i < w,
            0 <= j < h,
            i != x || j != y,
    ;
}

} // verus!
