//! Window placement: logical size, centered position and minimum size,
//! computed from the monitor's physical size and its scale factor.
//!
//! A scale factor is kept as an exact ratio of integers, and every derived
//! quantity is an exact fraction, so the placement equations hold exactly.

use vstd::prelude::*;

verus! {

/// Largest numerator or denominator accepted in a [`Scale`]: 2^53, enough to
/// hold exactly any scale factor a display reports.
pub const SCALE_PART_MAX: u64 = 9007199254740992;

/// A display scale factor, the ratio of physical to logical pixels, as the
/// exact fraction `num / den`.
#[derive(Clone, Copy, Debug)]
pub struct Scale {
    pub num: u64,
    pub den: u64,
}

/// A well-formed scale factor is positive, with both parts small enough that
/// the placement arithmetic cannot overflow.
pub open spec fn scale_wf(s: Scale) -> bool {
    &&& 0 < s.num <= SCALE_PART_MAX
    &&& 0 < s.den <= SCALE_PART_MAX
}

/// An exact fraction `num / den` with a positive denominator.
#[derive(Clone, Copy, Debug)]
pub struct Frac {
    pub num: i128,
    pub den: i128,
}

pub open spec fn frac_wf(f: Frac) -> bool {
    0 < f.den
}

/// The fraction `f` equals the quotient `n / d`.
pub open spec fn frac_is_ratio(f: Frac, n: int, d: int) -> bool {
    f.num * d == n * f.den
}

impl Scale {
    pub fn new(num: u64, den: u64) -> (s: Option<Scale>)
        ensures
            match s {
                Some(v) => v.num == num && v.den == den && scale_wf(v),
                None => !scale_wf(Scale { num, den }),
            },
    {
        if 0 < num && num <= SCALE_PART_MAX && 0 < den && den <= SCALE_PART_MAX {
            Some(Scale { num, den })
        } else {
            None
        }
    }
}

/// The geometry handed to window construction: all quantities are logical
/// (physical pixels divided by the scale factor) and exact.
#[derive(Clone, Copy, Debug)]
pub struct Placement {
    pub logical_width: Frac,
    pub logical_height: Frac,
    pub x: Frac,
    pub y: Frac,
    pub min_width: Frac,
    pub min_height: Frac,
}

/// `p` is exactly the placement derived from a monitor of physical size
/// `screen_w x screen_h`, scale factor `s`, and a desired physical base size
/// `base_w x base_h`:
///   logical size  = base / s,
///   position      = (screen / s - logical size) / 2   (centering),
///   minimum size  = logical size * 3/4.
pub open spec fn placement_matches(
    p: Placement,
    screen_w: u32,
    screen_h: u32,
    base_w: u32,
    base_h: u32,
    s: Scale,
) -> bool {
    &&& p.logical_width.num == base_w * s.den
    &&& p.logical_width.den == s.num
    &&& p.logical_height.num == base_h * s.den
    &&& p.logical_height.den == s.num
    &&& p.x.num == (screen_w - base_w) * s.den
    &&& p.x.den == 2 * s.num
    &&& p.y.num == (screen_h - base_h) * s.den
    &&& p.y.den == 2 * s.num
    &&& p.min_width.num == 3 * (base_w * s.den)
    &&& p.min_width.den == 4 * s.num
    &&& p.min_height.num == 3 * (base_h * s.den)
    &&& p.min_height.den == 4 * s.num
}

proof fn lemma_mul_in_range(a: int, b: int, bound_a: int, bound_b: int)
    requires
        -bound_a <= a <= bound_a,
        0 <= b <= bound_b,
        0 <= bound_a,
    ensures
        -(bound_a * bound_b) <= a * b <= bound_a * bound_b,
{
    assert(-(bound_a * bound_b) <= a * b <= bound_a * bound_b) by (nonlinear_arith)
        requires
            -bound_a <= a <= bound_a,
            0 <= b <= bound_b,
            0 <= bound_a,
    ;
}

/// Derives the window geometry from the monitor's physical size, the desired
/// physical base size, and the scale factor, exactly as fractions.
pub fn compute_placement(screen_w: u32, screen_h: u32, base_w: u32, base_h: u32, s: Scale) -> (p:
    Placement)
    requires
        scale_wf(s),
    ensures
        placement_matches(p, screen_w, screen_h, base_w, base_h, s),
        frac_wf(p.logical_width) && frac_wf(p.logical_height),
        frac_wf(p.x) && frac_wf(p.y),
        frac_wf(p.min_width) && frac_wf(p.min_height),
{
    let sn = s.num as i128;
    let sd = s.den as i128;
    let bw = base_w as i128;
    let bh = base_h as i128;
    let sw = screen_w as i128;
    let sh = screen_h as i128;
    proof {
        lemma_mul_in_range(bw as int, sd as int, 0x1_0000_0000, SCALE_PART_MAX as int);
        lemma_mul_in_range(bh as int, sd as int, 0x1_0000_0000, SCALE_PART_MAX as int);
        lemma_mul_in_range((sw - bw) as int, sd as int, 0x1_0000_0000, SCALE_PART_MAX as int);
        lemma_mul_in_range((sh - bh) as int, sd as int, 0x1_0000_0000, SCALE_PART_MAX as int);
    }
    let lw_num: i128 = bw * sd;
    let lh_num: i128 = bh * sd;
    Placement {
        logical_width: Frac { num: lw_num, den: sn },
        logical_height: Frac { num: lh_num, den: sn },
        x: Frac { num: (sw - bw) * sd, den: 2 * sn },
        y: Frac { num: (sh - bh) * sd, den: 2 * sn },
        min_width: Frac { num: 3 * lw_num, den: 4 * sn },
        min_height: Frac { num: 3 * lh_num, den: 4 * sn },
    }
}

/// The logical size divides the scale factor out exactly: as fractions,
/// `logical_width == base_w / s` and `logical_height == base_h / s`,
/// where `s == s.num / s.den`, so `base / s == (base * s.den) / s.num`.
pub proof fn lemma_logical_size_is_base_over_scale(
    p: Placement,
    screen_w: u32,
    screen_h: u32,
    base_w: u32,
    base_h: u32,
    s: Scale,
)
    requires
        scale_wf(s),
        placement_matches(p, screen_w, screen_h, base_w, base_h, s),
    ensures
        frac_is_ratio(p.logical_width, base_w * s.den, s.num as int),
        frac_is_ratio(p.logical_height, base_h * s.den, s.num as int),
{
}

/// The computed position centers the window: as exact fractions,
/// `x + logical_width / 2 == screen_w / (2 * s)`, written with both sides
/// brought over a common denominator (and symmetrically for `y`).
pub proof fn lemma_position_centers_window(
    p: Placement,
    screen_w: u32,
    screen_h: u32,
    base_w: u32,
    base_h: u32,
    s: Scale,
)
    requires
        scale_wf(s),
        placement_matches(p, screen_w, screen_h, base_w, base_h, s),
    ensures
        (2 * p.x.num * p.logical_width.den + p.logical_width.num * p.x.den) * (2 * s.num)
            == screen_w * s.den * (2 * (p.x.den * p.logical_width.den)),
        (2 * p.y.num * p.logical_height.den + p.logical_height.num * p.y.den) * (2 * s.num)
            == screen_h * s.den * (2 * (p.y.den * p.logical_height.den)),
{
    let n = s.num as int;
    let d = s.den as int;
    let w = screen_w as int;
    let h = screen_h as int;
    let b = base_w as int;
    let c = base_h as int;
    assert((2 * ((w - b) * d) * n + (b * d) * (2 * n)) * (2 * n) == w * d * (2 * ((2 * n) * n)))
        by (nonlinear_arith);
    assert((2 * ((h - c) * d) * n + (c * d) * (2 * n)) * (2 * n) == h * d * (2 * ((2 * n) * n)))
        by (nonlinear_arith);
}

/// The minimum size is exactly three quarters of the logical size: as
/// fractions, `min_width == (3/4) * logical_width`, written with both sides
/// brought over a common denominator (and symmetrically for the height).
pub proof fn lemma_min_size_is_three_quarters(
    p: Placement,
    screen_w: u32,
    screen_h: u32,
    base_w: u32,
    base_h: u32,
    s: Scale,
)
    requires
        scale_wf(s),
        placement_matches(p, screen_w, screen_h, base_w, base_h, s),
    ensures
        4 * (p.min_width.num * p.logical_width.den) == 3 * (p.logical_width.num * p.min_width.den),
        4 * (p.min_height.num * p.logical_height.den) == 3 * (p.logical_height.num
            * p.min_height.den),
{
    let n = s.num as int;
    let d = s.den as int;
    let b = base_w as int;
    let c = base_h as int;
    assert(4 * ((3 * (b * d)) * n) == 3 * ((b * d) * (4 * n))) by (nonlinear_arith);
    assert(4 * ((3 * (c * d)) * n) == 3 * ((c * d) * (4 * n))) by (nonlinear_arith);
}

} // verus!
