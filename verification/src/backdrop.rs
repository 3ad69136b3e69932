//! The backdrop test pattern: a colour gradient filled into a BGRA pixel
//! buffer, row by row, for the initial window surface.

use vstd::prelude::*;
use vstd::arithmetic::div_mod::{
    lemma_div_is_ordered, lemma_div_multiples_vanish, lemma_div_pos_is_pos,
    lemma_fundamental_div_mod, lemma_mod_bound,
};
use vstd::arithmetic::mul::{lemma_mul_inequality, lemma_mul_is_commutative};

verus! {

/// A channel fading across a span: the fraction of the span still ahead of
/// `v`, scaled to the byte range.
pub open spec fn fade(v: int, extent: int) -> int {
    (v * 255) / extent
}

pub open spec fn min_int(a: int, b: int) -> int {
    if a <= b {
        a
    } else {
        b
    }
}

/// The four bytes of the gradient pixel at column `x` of `w` and row `y` of
/// `h`, in blue, green, red, alpha order.
pub open spec fn gradient_pixel(x: int, y: int, w: int, h: int) -> Seq<u8> {
    let r = min_int(fade(w - x, w), fade(h - y, h));
    let g = min_int(fade(x, w), fade(h - y, h));
    let b = min_int(fade(w - x, w), fade(y, h));
    seq![b as u8, g as u8, r as u8, 255u8]
}

/// A fade stays a byte: the scaled fraction of a span never exceeds 255.
proof fn lemma_fade_bounds(v: int, extent: int)
    requires
        0 <= v <= extent,
        1 <= extent,
    ensures
        0 <= fade(v, extent) <= 255,
{
    lemma_mul_inequality(v, extent, 255);
    lemma_div_is_ordered(v * 255, extent * 255, extent);
    lemma_mul_is_commutative(extent, 255);
    lemma_div_multiples_vanish(255, extent);
    lemma_div_pos_is_pos(v * 255, extent);
}

/// A pixel index below `w * h` decomposes into a column below `w` and a row
/// below `h`.
proof fn lemma_pixel_in_range(p: int, w: int, h: int)
    requires
        0 <= p,
        1 <= w,
        1 <= h,
        p < w * h,
    ensures
        0 <= p % w < w,
        0 <= p / w < h,
{
    lemma_mod_bound(p, w);
    lemma_fundamental_div_mod(p, w);
    lemma_div_pos_is_pos(p, w);
    if p / w >= h {
        lemma_mul_inequality(h, p / w, w);
        lemma_mul_is_commutative(h, w);
        lemma_mul_is_commutative(p / w, w);
    }
}

/// Fills a `width`-by-`height` BGRA pixel buffer with the gradient pattern,
/// row by row.
pub fn gradient(width: u32, height: u32) -> (buf: Vec<u8>)
    requires
        width >= 1,
        height >= 1,
        4 * (width as int) * (height as int) <= usize::MAX,
    ensures
        buf@.len() == 4 * (width as int) * (height as int),
        forall|p: int| 0 <= p < (width as int) * (height as int)
            ==> #[trigger] buf@.subrange(4 * p, 4 * p + 4) == gradient_pixel(
                p % (width as int),
                p / (width as int),
                width as int,
                height as int,
            ),
{
    let ghost w_int = width as int;
    let ghost h_int = height as int;
    proof {
        assert(w_int * h_int >= 1) by (nonlinear_arith)
            requires w_int >= 1, h_int >= 1;
        assert(w_int * h_int <= 4 * w_int * h_int) by (nonlinear_arith)
            requires w_int * h_int >= 0;
    }
    let total: usize = (width as usize) * (height as usize);
    let mut buf: Vec<u8> = Vec::new();
    let mut p: usize = 0;
    while p < total
        invariant
            p <= total,
            total == w_int * h_int,
            w_int == width as int,
            h_int == height as int,
            width >= 1,
            height >= 1,
            4 * w_int * h_int <= usize::MAX,
            buf@.len() == 4 * p,
            forall|q: int| 0 <= q < p ==> #[trigger] buf@.subrange(4 * q, 4 * q + 4)
                == gradient_pixel(q % w_int, q / w_int, w_int, h_int),
        decreases total - p,
    {
        let x = p % (width as usize);
        let y = p / (width as usize);
        proof {
            lemma_pixel_in_range(p as int, w_int, h_int);
            lemma_fade_bounds(w_int - x, w_int);
            lemma_fade_bounds(x as int, w_int);
            lemma_fade_bounds(h_int - y, h_int);
            lemma_fade_bounds(y as int, h_int);
            assert(4 * (p + 1) <= 4 * w_int * h_int) by (nonlinear_arith)
                requires p + 1 <= w_int * h_int;
        }
        let wv = width as u64;
        let hv = height as u64;
        let xv = x as u64;
        let yv = y as u64;
        let toward_left = ((wv - xv) * 255) / wv;
        let toward_right = (xv * 255) / wv;
        let toward_top = ((hv - yv) * 255) / hv;
        let toward_bottom = (yv * 255) / hv;
        let rv = if toward_left <= toward_top { toward_left } else { toward_top };
        let gv = if toward_right <= toward_top { toward_right } else { toward_top };
        let bv = if toward_left <= toward_bottom { toward_left } else { toward_bottom };
        let ghost prior = buf@;
        buf.push(bv as u8);
        buf.push(gv as u8);
        buf.push(rv as u8);
        buf.push(255);
        proof {
            assert forall|q: int| 0 <= q < p + 1 implies #[trigger] buf@.subrange(
                4 * q,
                4 * q + 4,
            ) == gradient_pixel(q % w_int, q / w_int, w_int, h_int) by {
                if q < p {
                    assert(buf@.subrange(4 * q, 4 * q + 4) =~= prior.subrange(4 * q, 4 * q + 4));
                } else {
                    assert(buf@.subrange(4 * q, 4 * q + 4) =~= gradient_pixel(
                        x as int,
                        y as int,
                        w_int,
                        h_int,
                    ));
                }
            }
        }
        p = p + 1;
    }
    proof {
        assert(4 * (w_int * h_int) == 4 * w_int * h_int) by (nonlinear_arith);
    }
    buf
}

} // verus!
