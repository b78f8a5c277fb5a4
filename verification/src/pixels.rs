use vstd::prelude::*;

verus! {

/// Mathematical model of an RGBA pixel buffer: a width and height in pixels
/// and the flat byte sequence, four bytes (red, green, blue, alpha) per
/// pixel, rows from top to bottom, columns from left to right within a row.
#[verifier::ext_equal]
pub ghost struct ImageView {
    pub width: nat,
    pub height: nat,
    pub data: Seq<u8>,
}

impl ImageView {
    /// The buffer holds exactly four bytes for every pixel.
    pub open spec fn wf(self) -> bool {
        self.data.len() == 4 * (self.width * self.height)
    }

    /// Byte position of channel `c` of the pixel at column `x`, row `y`.
    pub open spec fn byte_index(self, x: int, y: int, c: int) -> int {
        4 * (y * self.width + x) + c
    }

    /// Channel `c` (0 red, 1 green, 2 blue, 3 alpha) of the pixel at `(x, y)`.
    pub open spec fn channel(self, x: int, y: int, c: int) -> u8 {
        self.data[self.byte_index(x, y, c)]
    }

    /// The alpha channel of the pixel at `(x, y)`.
    pub open spec fn alpha(self, x: int, y: int) -> u8 {
        self.channel(x, y, 3)
    }
}

/// A pixel at a valid coordinate lies within the flat buffer.
pub proof fn lemma_pixel_in_bounds(w: int, h: int, x: int, y: int)
    requires
        0 <= x < w,
        0 <= y < h,
    ensures
        0 <= y * w + x < w * h,
{
    assert(0 <= y * w + x < w * h) by (nonlinear_arith)
        requires
            0 <= x < w,
            0 <= y < h,
    ;
}

/// One channel of source-over compositing in integer arithmetic: the convex
/// combination of the destination and source channels weighted by the source
/// alpha, truncated to a whole byte value.
pub open spec fn blend_channel(dst: u8, src: u8, alpha: u8) -> u8 {
    ((((255 - alpha) * dst + alpha * src) / 255) as u8)
}

/// The blended value never exceeds a byte, so the spec-level truncation in
/// `blend_channel` is exact.
pub proof fn lemma_blend_channel_bound(dst: u8, src: u8, alpha: u8)
    ensures
        0 <= (255 - alpha) * dst + alpha * src <= 255 * 255,
{
    assert(0 <= (255 - alpha) * dst + alpha * src <= 255 * 255) by (nonlinear_arith)
        requires
            0 <= dst <= 255,
            0 <= src <= 255,
            0 <= alpha <= 255,
    ;
}

/// Compute one blended channel value in machine arithmetic.
pub fn blend_channel_exec(dst: u8, src: u8, alpha: u8) -> (r: u8)
    ensures
        r == blend_channel(dst, src, alpha),
{
    proof {
        lemma_blend_channel_bound(dst, src, alpha);
    }
    let v: u32 = ((255u32 - (alpha as u32)) * (dst as u32) + (alpha as u32) * (src as u32)) / 255;
    v as u8
}

/// An owned RGBA image buffer with eight bits per channel.
pub struct PixelImage {
    pub(crate) width: u32,
    pub(crate) height: u32,
    pub(crate) data: Vec<u8>,
}

impl View for PixelImage {
    type V = ImageView;

    closed spec fn view(&self) -> ImageView {
        ImageView { width: self.width as nat, height: self.height as nat, data: self.data@ }
    }
}

impl Clone for PixelImage {
    fn clone(&self) -> (r: Self)
        ensures
            r@ == self@,
    {
        PixelImage { width: self.width, height: self.height, data: self.data.clone() }
    }
}

impl PixelImage {
    pub fn width(&self) -> (r: u32)
        ensures
            r == self@.width,
    {
        self.width
    }

    pub fn height(&self) -> (r: u32)
        ensures
            r == self@.height,
    {
        self.height
    }

    /// Length of the flat byte buffer.
    pub fn len_bytes(&self) -> (r: usize)
        ensures
            r == self@.data.len(),
    {
        self.data.len()
    }

    /// Assemble an image from its dimensions and flat byte buffer.
    pub(crate) fn from_parts(width: u32, height: u32, data: Vec<u8>) -> (r: PixelImage)
        ensures
            r@.width == width,
            r@.height == height,
            r@.data == data@,
    {
        PixelImage { width, height, data }
    }

    /// Assemble an image from raw RGBA bytes; accepted exactly when the
    /// buffer length matches the dimensions.
    pub fn from_rgba_bytes(width: u32, height: u32, data: Vec<u8>) -> (r: Option<PixelImage>)
        ensures
            r matches Some(img) ==> img@.wf() && img@.width == width && img@.height == height
                && img@.data == data@,
            r is Some <==> data@.len() == 4 * ((width as int) * (height as int)),
    {
        let n = data.len();
        proof {
            vstd::arithmetic::mul::lemma_mul_upper_bound(
                width as int,
                0xffff_ffff,
                height as int,
                0xffff_ffff,
            );
        }
        let expect: u128 = 4 * ((width as u128) * (height as u128));
        if (n as u128) == expect {
            Some(PixelImage { width, height, data })
        } else {
            None
        }
    }

    /// An opaque, uniformly coloured image of the given dimensions.
    pub fn filled(width: u32, height: u32, red: u8, green: u8, blue: u8, alpha: u8) -> (r:
        PixelImage)
        requires
            4 * (width * height) <= usize::MAX,
        ensures
            r@.wf(),
            r@.width == width,
            r@.height == height,
            forall|x: int, y: int|
                0 <= x < width && 0 <= y < height ==> r@.channel(x, y, 0) == red && r@.channel(
                    x,
                    y,
                    1,
                ) == green && r@.channel(x, y, 2) == blue && r@.channel(x, y, 3) == alpha,
    {
        let total: usize = (width as usize) * (height as usize);
        let mut data: Vec<u8> = Vec::new();
        let mut i: usize = 0;
        while i < total
            invariant
                total == width * height,
                4 * (width * height) <= usize::MAX,
                i <= total,
                data@.len() == 4 * i,
                forall|p: int, c: int|
                    0 <= p < i && 0 <= c < 4 ==> #[trigger] data@[4 * p + c] == (if c == 0 {
                        red
                    } else if c == 1 {
                        green
                    } else if c == 2 {
                        blue
                    } else {
                        alpha
                    }),
            decreases total - i,
        {
            data.push(red);
            data.push(green);
            data.push(blue);
            data.push(alpha);
            i = i + 1;
        }
        let r = PixelImage { width, height, data };
        proof {
            assert forall|x: int, y: int| 0 <= x < width && 0 <= y < height implies r@.channel(
                x,
                y,
                0,
            ) == red && r@.channel(x, y, 1) == green && r@.channel(x, y, 2) == blue && r@.channel(
                x,
                y,
                3,
            ) == alpha by {
                lemma_pixel_in_bounds(width as int, height as int, x, y);
            }
        }
        r
    }

    /// Read channel `c` (0 red, 1 green, 2 blue, 3 alpha) of the pixel at
    /// `(x, y)`.
    pub fn channel_at(&self, x: u32, y: u32, c: u32) -> (r: u8)
        requires
            self@.wf(),
            x < self@.width,
            y < self@.height,
            c < 4,
        ensures
            r == self@.channel(x as int, y as int, c as int),
    {
        let n = self.data.len();
        proof {
            lemma_pixel_in_bounds(self.width as int, self.height as int, x as int, y as int);
        }
        let p: usize = (y as usize) * (self.width as usize) + (x as usize);
        self.data[4 * p + (c as usize)]
    }
}

} // verus!
