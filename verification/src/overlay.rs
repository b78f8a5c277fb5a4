use vstd::prelude::*;

use crate::pixels::{blend_channel, lemma_pixel_in_bounds, ImageView, PixelImage};

verus! {

/// Share of the shorter image side that the scaled logo may occupy at most:
/// twenty of one hundred. Chosen empirically against the damage tolerance of
/// the highest error-correction level, so the symbol stays decodable with
/// its centre occluded.
pub const LOGO_MAX_NUMER: u32 = 20;

/// Denominator of the logo footprint share.
pub const LOGO_MAX_DENOM: u32 = 100;

/// Pixels of opaque backing left visible around the scaled logo on each side.
pub const BACKING_PAD_PX: u32 = 4;

/// Largest footprint, in pixels, that a logo may occupy on an image whose
/// shorter side is `m` pixels.
pub open spec fn spec_max_logo_px(m: int) -> int {
    m * 20 / 100
}

/// The dimensions of the logo after scaling: unchanged when its longer side
/// already fits within `maxpx`, otherwise shrunk proportionally so the longer
/// side becomes exactly `maxpx`. The logo is only ever shrunk, never
/// enlarged.
pub open spec fn spec_scaled_dims(lw: int, lh: int, maxpx: int) -> (int, int) {
    let longer = if lw >= lh {
        lw
    } else {
        lh
    };
    if longer <= maxpx {
        (lw, lh)
    } else {
        (lw * maxpx / longer, lh * maxpx / longer)
    }
}

/// Safe-area rule: neither scaled dimension ever exceeds the footprint bound,
/// and the logo is never enlarged.
pub proof fn lemma_scaled_dims_bounded(lw: int, lh: int, maxpx: int)
    requires
        0 <= lw,
        0 <= lh,
        0 <= maxpx,
    ensures
        spec_scaled_dims(lw, lh, maxpx).0 <= maxpx,
        spec_scaled_dims(lw, lh, maxpx).1 <= maxpx,
        spec_scaled_dims(lw, lh, maxpx).0 <= lw,
        spec_scaled_dims(lw, lh, maxpx).1 <= lh,
{
    let longer = if lw >= lh {
        lw
    } else {
        lh
    };
    if longer <= maxpx {
    } else {
        assert(lw * maxpx / longer <= maxpx && lh * maxpx / longer <= maxpx && lw * maxpx / longer
            <= lw && lh * maxpx / longer <= lh) by (nonlinear_arith)
            requires
                0 <= lw <= longer,
                0 <= lh <= longer,
                0 <= maxpx < longer,
        ;
    }
}

/// Scale `(lw, lh)` so that the longer side fits within `maxpx`, preserving
/// the aspect ratio; dimensions already within the bound are kept.
pub fn scaled_dims(lw: u32, lh: u32, maxpx: u32) -> (r: (u32, u32))
    ensures
        (r.0 as int, r.1 as int) == spec_scaled_dims(lw as int, lh as int, maxpx as int),
        r.0 <= maxpx,
        r.1 <= maxpx,
        r.0 <= lw,
        r.1 <= lh,
{
    proof {
        lemma_scaled_dims_bounded(lw as int, lh as int, maxpx as int);
    }
    let longer: u32 = if lw >= lh {
        lw
    } else {
        lh
    };
    if longer <= maxpx {
        (lw, lh)
    } else {
        proof {
            vstd::arithmetic::mul::lemma_mul_upper_bound(
                lw as int,
                0xffff_ffff,
                maxpx as int,
                0xffff_ffff,
            );
            vstd::arithmetic::mul::lemma_mul_upper_bound(
                lh as int,
                0xffff_ffff,
                maxpx as int,
                0xffff_ffff,
            );
        }
        let nw: u64 = (lw as u64) * (maxpx as u64) / (longer as u64);
        let nh: u64 = (lh as u64) * (maxpx as u64) / (longer as u64);
        (nw as u32, nh as u32)
    }
}

/// What the image resampler produces: the pixels of an RGBA source image of
/// dimensions `(w, h)` scaled to `(nw, nh)`. The result depends on the
/// arguments alone.
pub uninterp spec fn resized_of(data: Seq<u8>, w: int, h: int, nw: int, nh: int) -> Seq<u8>;

/// Relies on image::imageops::resize with the Lanczos3 filter: the output
/// buffer has exactly the requested dimensions, its pixels are a pure
/// function of the source pixels and those dimensions, and resizing to the
/// source's own dimensions copies it unchanged.
#[verifier::external_body]
fn resize_rgba(img: &PixelImage, nw: u32, nh: u32) -> (r: PixelImage)
    requires
        img@.wf(),
    ensures
        r@.wf(),
        r@.width == nw,
        r@.height == nh,
        r@.data == resized_of(
            img@.data,
            img@.width as int,
            img@.height as int,
            nw as int,
            nh as int,
        ),
        nw == img@.width && nh == img@.height ==> r@.data == img@.data,
{
    let src = image::RgbaImage::from_raw(img.width, img.height, img.data.clone()).expect(
        "buffer length matches the dimensions",
    );
    let out = image::imageops::resize(&src, nw, nh, image::imageops::FilterType::Lanczos3);
    PixelImage { width: nw, height: nh, data: out.into_raw() }
}

/// Leftmost column of the centred logo on an image `qw` pixels wide.
pub open spec fn spec_x_off(qw: int, sw: int) -> int {
    (qw - sw) / 2
}

/// First column (or row) of the opaque backing patch: the logo offset less
/// the padding, clamped at the image edge.
pub open spec fn spec_bg0(off: int) -> int {
    if off >= 4 {
        off - 4
    } else {
        0
    }
}

/// One past the last column (or row) of the backing patch, clipped to the
/// image.
pub open spec fn spec_bg1(bg0: int, s: int, q: int) -> int {
    let e = bg0 + s + 8;
    if e <= q {
        e
    } else {
        q
    }
}

/// Whether `(x, y)` lies under the opaque backing patch painted behind the
/// logo `sl` centred on `qr`.
pub open spec fn in_backing(qr: ImageView, sl: ImageView, x: int, y: int) -> bool {
    let bx0 = spec_bg0(spec_x_off(qr.width as int, sl.width as int));
    let by0 = spec_bg0(spec_x_off(qr.height as int, sl.height as int));
    let bx1 = spec_bg1(bx0, sl.width as int, qr.width as int);
    let by1 = spec_bg1(by0, sl.height as int, qr.height as int);
    bx0 <= x < bx1 && by0 <= y < by1
}

/// Whether `(x, y)` lies under the logo `sl` centred on `qr`.
pub open spec fn in_logo(qr: ImageView, sl: ImageView, x: int, y: int) -> bool {
    let xo = spec_x_off(qr.width as int, sl.width as int);
    let yo = spec_x_off(qr.height as int, sl.height as int);
    xo <= x < xo + sl.width && yo <= y < yo + sl.height
}

/// The channel value at `(x, y)` after compositing the scaled logo `sl` onto
/// `qr`: under a logo pixel with nonzero alpha, the convex combination of the
/// pixel beneath (the backing patch where it was painted) and the logo pixel,
/// forced fully opaque; under the rest of the backing patch, the lightest
/// value; everywhere else, the original pixel untouched.
pub open spec fn overlay_channel(qr: ImageView, sl: ImageView, x: int, y: int, c: int) -> u8 {
    let xo = spec_x_off(qr.width as int, sl.width as int);
    let yo = spec_x_off(qr.height as int, sl.height as int);
    if in_logo(qr, sl, x, y) && sl.alpha(x - xo, y - yo) > 0 {
        if c == 3 {
            255
        } else {
            blend_channel(
                if in_backing(qr, sl, x, y) {
                    255
                } else {
                    qr.channel(x, y, c)
                },
                sl.channel(x - xo, y - yo, c),
                sl.alpha(x - xo, y - yo),
            )
        }
    } else if in_backing(qr, sl, x, y) {
        255
    } else {
        qr.channel(x, y, c)
    }
}

/// The pixels of `qr` with the scaled logo `sl` composited into its centre.
pub open spec fn overlaid(qr: ImageView, sl: ImageView) -> ImageView {
    ImageView {
        width: qr.width,
        height: qr.height,
        data: Seq::new(
            (4 * (qr.width * qr.height)) as nat,
            |i: int|
                overlay_channel(
                    qr,
                    sl,
                    (i / 4) % qr.width as int,
                    (i / 4) / qr.width as int,
                    i % 4,
                ),
        ),
    }
}

/// Every pixel outside the backing patch (and so outside the logo, which
/// lies within it) is untouched by compositing.
pub proof fn lemma_overlay_outside_unchanged(qr: ImageView, sl: ImageView, x: int, y: int, c: int)
    requires
        0 <= x < qr.width,
        0 <= y < qr.height,
        0 <= c < 4,
        !in_backing(qr, sl, x, y),
        !in_logo(qr, sl, x, y),
    ensures
        overlay_channel(qr, sl, x, y, c) == qr.channel(x, y, c),
{
}

/// The compositing spec keeps the image dimensions, and reading it per pixel
/// agrees with `overlay_channel`.
pub proof fn lemma_overlaid_channel(qr: ImageView, sl: ImageView, x: int, y: int, c: int)
    requires
        0 <= x < qr.width,
        0 <= y < qr.height,
        0 <= c < 4,
    ensures
        overlaid(qr, sl).wf(),
        overlaid(qr, sl).channel(x, y, c) == overlay_channel(qr, sl, x, y, c),
{
    let img = overlaid(qr, sl);
    let w = qr.width as int;
    lemma_pixel_in_bounds(w, qr.height as int, x, y);
    let i = img.byte_index(x, y, c);
    assert(i == 4 * (y * w + x) + c);
    assert(i / 4 == y * w + x && i % 4 == c) by (nonlinear_arith)
        requires
            i == 4 * (y * w + x) + c,
            0 <= y * w + x,
            0 <= c < 4,
    ;
    assert((y * w + x) % w == x && (y * w + x) / w == y) by (nonlinear_arith)
        requires
            0 <= x < w,
            0 <= y,
    ;
}

/// The four channel values of the composited pixel at `(x, y)`.
fn composed_pixel(qr: &PixelImage, sl: &PixelImage, x: u32, y: u32) -> (r: (u8, u8, u8, u8))
    requires
        qr@.wf(),
        sl@.wf(),
        x < qr@.width,
        y < qr@.height,
        sl@.width <= qr@.width,
        sl@.height <= qr@.height,
    ensures
        r.0 == overlay_channel(qr@, sl@, x as int, y as int, 0),
        r.1 == overlay_channel(qr@, sl@, x as int, y as int, 1),
        r.2 == overlay_channel(qr@, sl@, x as int, y as int, 2),
        r.3 == overlay_channel(qr@, sl@, x as int, y as int, 3),
{
    let qw = qr.width();
    let qh = qr.height();
    let sw = sl.width();
    let sh = sl.height();
    let xo: u32 = (qw - sw) / 2;
    let yo: u32 = (qh - sh) / 2;
    let bx0: u32 = if xo >= BACKING_PAD_PX {
        xo - BACKING_PAD_PX
    } else {
        0
    };
    let by0: u32 = if yo >= BACKING_PAD_PX {
        yo - BACKING_PAD_PX
    } else {
        0
    };
    let bex: u64 = (bx0 as u64) + (sw as u64) + 2 * (BACKING_PAD_PX as u64);
    let bey: u64 = (by0 as u64) + (sh as u64) + 2 * (BACKING_PAD_PX as u64);
    let inside_backing: bool = (x as u64) >= (bx0 as u64) && (x as u64) < bex && (y as u64) >= (
    by0 as u64) && (y as u64) < bey;
    proof {
        assert(inside_backing == in_backing(qr@, sl@, x as int, y as int));
    }
    let inside_logo: bool = x >= xo && ((x - xo) as u64) < (sw as u64) && y >= yo && ((y
        - yo) as u64) < (sh as u64);
    proof {
        assert(inside_logo == in_logo(qr@, sl@, x as int, y as int));
    }
    if inside_logo {
        let lx = x - xo;
        let ly = y - yo;
        let a = sl.channel_at(lx, ly, 3);
        if a > 0 {
            let d0 = if inside_backing {
                255
            } else {
                qr.channel_at(x, y, 0)
            };
            let d1 = if inside_backing {
                255
            } else {
                qr.channel_at(x, y, 1)
            };
            let d2 = if inside_backing {
                255
            } else {
                qr.channel_at(x, y, 2)
            };
            let b0 = crate::pixels::blend_channel_exec(d0, sl.channel_at(lx, ly, 0), a);
            let b1 = crate::pixels::blend_channel_exec(d1, sl.channel_at(lx, ly, 1), a);
            let b2 = crate::pixels::blend_channel_exec(d2, sl.channel_at(lx, ly, 2), a);
            return (b0, b1, b2, 255);
        }
    }
    if inside_backing {
        (255, 255, 255, 255)
    } else {
        (
            qr.channel_at(x, y, 0),
            qr.channel_at(x, y, 1),
            qr.channel_at(x, y, 2),
            qr.channel_at(x, y, 3),
        )
    }
}

/// The image that `overlay_logo` produces: the source logo scaled so its
/// longer side occupies at most twenty hundredths of the shorter side of
/// `qr`, composited into the centre of `qr` over an opaque backing patch.
pub open spec fn spec_overlay_logo(qr: ImageView, logo: ImageView) -> ImageView {
    let m = if qr.width <= qr.height {
        qr.width as int
    } else {
        qr.height as int
    };
    let dims = spec_scaled_dims(logo.width as int, logo.height as int, spec_max_logo_px(m));
    let sl = ImageView {
        width: dims.0 as nat,
        height: dims.1 as nat,
        data: resized_of(
            logo.data,
            logo.width as int,
            logo.height as int,
            dims.0,
            dims.1,
        ),
    };
    overlaid(qr, sl)
}

/// Composite `logo` into the centre of `qr`: scale it to the safe-area
/// bound, paint an opaque backing patch with a small padding behind it, and
/// alpha-blend it over the patch. The output dimensions always equal the
/// input's, and every write stays within them.
pub fn overlay_logo(qr: PixelImage, logo: &PixelImage) -> (r: PixelImage)
    requires
        qr@.wf(),
        logo@.wf(),
    ensures
        r@ == spec_overlay_logo(qr@, logo@),
        r@.wf(),
        r@.width == qr@.width,
        r@.height == qr@.height,
{
    let qw = qr.width();
    let qh = qr.height();
    let qr_min: u32 = if qw <= qh {
        qw
    } else {
        qh
    };
    let maxpx64: u64 = ((qr_min as u64) * (LOGO_MAX_NUMER as u64)) / (LOGO_MAX_DENOM as u64);
    proof {
        assert(maxpx64 == spec_max_logo_px(qr_min as int) && spec_max_logo_px(qr_min as int)
            <= qr_min) by (nonlinear_arith)
            requires
                maxpx64 == (qr_min as int) * 20 / 100,
                0 <= qr_min as int <= 0xffff_ffff,
        ;
    }
    let maxpx: u32 = maxpx64 as u32;
    let dims = scaled_dims(logo.width(), logo.height(), maxpx);
    let sl = resize_rgba(logo, dims.0, dims.1);
    let ghost gq = qr@;
    let ghost gsl = sl@;
    let mut data: Vec<u8> = Vec::new();
    let n = qr.len_bytes();
    let mut y: u32 = 0;
    while y < qh
        invariant
            gq == qr@,
            gsl == sl@,
            gq.wf(),
            gsl.wf(),
            qw == gq.width,
            qh == gq.height,
            gsl.width <= gq.width,
            gsl.height <= gq.height,
            4 * (gq.width * gq.height) <= usize::MAX,
            y <= qh,
            data@.len() == 4 * (y * gq.width as int),
            forall|i: int|
                0 <= i < data@.len() ==> #[trigger] data@[i] == overlay_channel(
                    gq,
                    gsl,
                    (i / 4) % gq.width as int,
                    (i / 4) / gq.width as int,
                    i % 4,
                ),
        decreases qh - y,
    {
        let mut x: u32 = 0;
        while x < qw
            invariant
                gq == qr@,
                gsl == sl@,
                gq.wf(),
                gsl.wf(),
                qw == gq.width,
                qh == gq.height,
                gsl.width <= gq.width,
                gsl.height <= gq.height,
                4 * (gq.width * gq.height) <= usize::MAX,
                y < qh,
                x <= qw,
                data@.len() == 4 * (y * gq.width as int) + 4 * x,
                forall|i: int|
                    0 <= i < data@.len() ==> #[trigger] data@[i] == overlay_channel(
                        gq,
                        gsl,
                        (i / 4) % gq.width as int,
                        (i / 4) / gq.width as int,
                        i % 4,
                    ),
            decreases qw - x,
        {
            let px = composed_pixel(&qr, &sl, x, y);
            let ghost old_len = data@.len() as int;
            data.push(px.0);
            data.push(px.1);
            data.push(px.2);
            data.push(px.3);
            proof {
                lemma_pixel_in_bounds(gq.width as int, gq.height as int, x as int, y as int);
                let w = gq.width as int;
                assert(old_len == 4 * ((y as int) * w + x));
                assert forall|i: int| old_len <= i < data@.len() implies #[trigger] data@[i]
                    == overlay_channel(gq, gsl, (i / 4) % w, (i / 4) / w, i % 4) by {
                    let c = i - old_len;
                    assert(i == 4 * ((y as int) * w + x) + c);
                    assert(i / 4 == (y as int) * w + x && i % 4 == c) by (nonlinear_arith)
                        requires
                            i == 4 * ((y as int) * w + x) + c,
                            0 <= (y as int) * w + x,
                            0 <= c < 4,
                    ;
                    assert(((y as int) * w + x) % w == x as int && ((y as int) * w + x) / w
                        == y as int) by (nonlinear_arith)
                        requires
                            0 <= (x as int) < w,
                            0 <= y as int,
                    ;
                }
            }
            x = x + 1;
        }
        y = y + 1;
        proof {
            let w = gq.width as int;
            assert(4 * ((y - 1) * w) + 4 * w == 4 * (y * w)) by (nonlinear_arith)
                requires
                    w >= 0,
                    y >= 1,
            ;
        }
    }
    let r = PixelImage::from_parts(qw, qh, data);
    proof {
        let m = if gq.width <= gq.height {
            gq.width as int
        } else {
            gq.height as int
        };
        let dims_s = spec_scaled_dims(
            logo@.width as int,
            logo@.height as int,
            spec_max_logo_px(m),
        );
        let sl2 = ImageView {
            width: dims_s.0 as nat,
            height: dims_s.1 as nat,
            data: resized_of(
                logo@.data,
                logo@.width as int,
                logo@.height as int,
                dims_s.0,
                dims_s.1,
            ),
        };
        assert(gsl =~= sl2);
        vstd::arithmetic::mul::lemma_mul_is_commutative(gq.width as int, gq.height as int);
        assert(r@.data =~= overlaid(gq, gsl).data);
        assert(r@ =~= spec_overlay_logo(gq, logo@));
    }
    r
}

} // verus!
