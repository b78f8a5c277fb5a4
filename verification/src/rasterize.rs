use vstd::prelude::*;

use crate::matrix::{grid_wf, ModuleMatrix};
use crate::pixels::{lemma_pixel_in_bounds, ImageView, PixelImage};

verus! {

/// Whether the pixel at `(x, y)` of a `target`-sized square rendering of the
/// grid `m` shows a dark module. The grid plus its quiet zone is mapped onto
/// the output square by nearest-integer scaling, so the whole symbol always
/// fits exactly; pixels that fall in the quiet zone are light.
pub open spec fn raster_dark_at(m: Seq<Seq<bool>>, target: int, x: int, y: int) -> bool {
    let total = m.len() + 8;
    let mx = (x * total) / target;
    let my = (y * total) / target;
    4 <= mx < m.len() + 4 && 4 <= my < m.len() + 4 && m[my - 4][mx - 4]
}

/// The channel value of the pixel at `(x, y)`: dark modules render as the
/// darkest channel value, light modules and the quiet zone as the lightest,
/// and every pixel is fully opaque.
pub open spec fn raster_byte(m: Seq<Seq<bool>>, target: int, x: int, y: int, c: int) -> u8 {
    if c == 3 {
        255
    } else if raster_dark_at(m, target, x, y) {
        0
    } else {
        255
    }
}

/// The pixels of a `target`-sized square rendering of the grid `m`.
pub open spec fn rasterized(m: Seq<Seq<bool>>, target: int) -> ImageView {
    ImageView {
        width: target as nat,
        height: target as nat,
        data: Seq::new((4 * (target * target)) as nat, |i: int| raster_byte(m, target, (i / 4) % target, (i / 4) / target, i % 4)),
    }
}

/// The sequence comprehension in `rasterized` agrees with the per-pixel
/// reading `channel(x, y, c)`.
pub proof fn lemma_rasterized_channel(m: Seq<Seq<bool>>, target: int, x: int, y: int, c: int)
    requires
        0 <= x < target,
        0 <= y < target,
        0 <= c < 4,
    ensures
        rasterized(m, target).wf(),
        rasterized(m, target).channel(x, y, c) == raster_byte(m, target, x, y, c),
{
    let img = rasterized(m, target);
    lemma_pixel_in_bounds(target, target, x, y);
    let i = img.byte_index(x, y, c);
    assert(i == 4 * (y * target + x) + c);
    assert(0 <= i < 4 * (target * target));
    assert(i / 4 == y * target + x && i % 4 == c) by (nonlinear_arith)
        requires
            i == 4 * (y * target + x) + c,
            0 <= y * target + x,
            0 <= c < 4,
    ;
    assert((y * target + x) % target == x && (y * target + x) / target == y) by (nonlinear_arith)
        requires
            0 <= x < target,
            0 <= y,
    ;
}

/// Render the module grid onto an exactly `target` by `target` opaque square:
/// a geometric fit of the symbol and its quiet zone, never a crop.
pub fn rasterize(matrix: &ModuleMatrix, target: u32) -> (r: PixelImage)
    requires
        matrix.inv(),
        grid_wf(matrix@),
        matrix@.len() + 8 <= u32::MAX,
        4 * ((target as int) * (target as int)) <= usize::MAX,
    ensures
        r@ == rasterized(matrix@, target as int),
        r@.wf(),
        r@.width == target,
        r@.height == target,
{
    let side = matrix.side();
    let total: u64 = (side as u64) + 8;
    let t64: u64 = target as u64;
    let mut data: Vec<u8> = Vec::new();
    let ghost gm = matrix@;
    let ghost gt = target as int;
    let mut y: u32 = 0;
    while y < target
        invariant
            matrix.inv(),
            grid_wf(gm),
            gm == matrix@,
            gm.len() + 8 <= u32::MAX,
            4 * (gt * gt) <= usize::MAX,
            gt == target as int,
            total == gm.len() + 8,
            t64 == target as u64,
            side == gm.len(),
            y <= target,
            data@.len() == 4 * (y * gt),
            forall|i: int|
                0 <= i < data@.len() ==> #[trigger] data@[i] == raster_byte(
                    gm,
                    gt,
                    (i / 4) % gt,
                    (i / 4) / gt,
                    i % 4,
                ),
        decreases target - y,
    {
        proof {
            vstd::arithmetic::mul::lemma_mul_upper_bound(
                y as int,
                0xffff_ffff,
                total as int,
                0xffff_ffff,
            );
        }
        let my_u64: u64 = ((y as u64) * total) / t64;
        proof {
            vstd::arithmetic::mul::lemma_mul_strict_inequality(y as int, gt, total as int);
            vstd::arithmetic::div_mod::lemma_multiply_divide_lt(
                (y as int) * (total as int),
                gt,
                total as int,
            );
        }
        let my: usize = my_u64 as usize;
        let mut x: u32 = 0;
        while x < target
            invariant
                matrix.inv(),
                grid_wf(gm),
                gm == matrix@,
                gm.len() + 8 <= u32::MAX,
                4 * (gt * gt) <= usize::MAX,
                gt == target as int,
                total == gm.len() + 8,
                t64 == target as u64,
                side == gm.len(),
                y < target,
                x <= target,
                my == ((y as int) * (total as int)) / gt,
                my < total,
                data@.len() == 4 * (y * gt) + 4 * x,
                forall|i: int|
                    0 <= i < data@.len() ==> #[trigger] data@[i] == raster_byte(
                        gm,
                        gt,
                        (i / 4) % gt,
                        (i / 4) / gt,
                        i % 4,
                    ),
            decreases target - x,
        {
            proof {
                vstd::arithmetic::mul::lemma_mul_upper_bound(
                    x as int,
                    0xffff_ffff,
                    total as int,
                    0xffff_ffff,
                );
            }
            let mx_u64: u64 = ((x as u64) * total) / t64;
            proof {
                vstd::arithmetic::mul::lemma_mul_strict_inequality(x as int, gt, total as int);
                vstd::arithmetic::div_mod::lemma_multiply_divide_lt(
                    (x as int) * (total as int),
                    gt,
                    total as int,
                );
            }
            let mx: usize = mx_u64 as usize;
            let dark: bool = if mx >= 4 && mx < side + 4 && my >= 4 && my < side + 4 {
                matrix.cell_at(mx - 4, my - 4)
            } else {
                false
            };
            proof {
                assert(dark == raster_dark_at(gm, gt, x as int, y as int));
            }
            let ghost old_len = data@.len() as int;
            let v: u8 = if dark {
                0
            } else {
                255
            };
            data.push(v);
            data.push(v);
            data.push(v);
            data.push(255);
            proof {
                lemma_pixel_in_bounds(gt, gt, x as int, y as int);
                assert(old_len == 4 * ((y as int) * gt + x));
                assert forall|i: int| old_len <= i < data@.len() implies #[trigger] data@[i]
                    == raster_byte(gm, gt, (i / 4) % gt, (i / 4) / gt, i % 4) by {
                    let c = i - old_len;
                    assert(i == 4 * ((y as int) * gt + x) + c);
                    assert(i / 4 == (y as int) * gt + x && i % 4 == c) by (nonlinear_arith)
                        requires
                            i == 4 * ((y as int) * gt + x) + c,
                            0 <= (y as int) * gt + x,
                            0 <= c < 4,
                    ;
                    assert(((y as int) * gt + x) % gt == x as int && ((y as int) * gt + x) / gt
                        == y as int) by (nonlinear_arith)
                        requires
                            0 <= (x as int) < gt,
                            0 <= y as int,
                    ;
                }
            }
            x = x + 1;
        }
        y = y + 1;
        proof {
            assert(4 * ((y - 1) * gt) + 4 * gt == 4 * (y * gt)) by (nonlinear_arith)
                requires
                    gt >= 0,
                    y >= 1,
            ;
        }
    }
    let r = PixelImage::from_parts(target, target, data);
    proof {
        assert(r@.data =~= rasterized(gm, gt).data);
        assert(r@ =~= rasterized(gm, gt));
    }
    r
}

} // verus!
