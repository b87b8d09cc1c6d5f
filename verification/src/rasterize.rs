//! Shape rasterization: closed polygon outlines for aperture flashes and
//! stroked line segments, in fixed-point integer coordinates.
//!
//! A circle becomes a regular polygon of [`CIRCLE_RES`] vertices, a
//! rectangle its four corners, and a stroked segment the rectangle whose
//! long axis follows the segment.  The trigonometry is done on a
//! fixed-point quarter-wave cosine table so that every vertex is an exact
//! integer function of the inputs.

use vstd::arithmetic::div_mod::{lemma_div_is_ordered, lemma_div_multiples_vanish};
use vstd::prelude::*;

use crate::geom::{Vec2, MAX_COORD, SCALE};

verus! {

/// Number of vertices used to tessellate a full circle.
pub const CIRCLE_RES: u64 = 100;

/// Every vertex of the ring may appear in an accumulated layer.
pub open spec fn ring_wf(r: Seq<Vec2>) -> bool {
    forall|i: int| 0 <= i < r.len() ==> (#[trigger] r[i]).vertex_wf()
}

/// `r` is the floor of the square root of `n`.
pub open spec fn is_sqrt(n: int, r: int) -> bool {
    &&& 0 <= r
    &&& r * r <= n
    &&& n < (r + 1) * (r + 1)
}

/// The floor of the square root of a non-negative integer.
pub closed spec fn sqrt_floor(n: int) -> int {
    choose|r: int| #[trigger] is_sqrt(n, r)
}

proof fn lemma_sqrt_exists(n: int)
    requires
        n >= 0,
    ensures
        exists|r: int| is_sqrt(n, r),
    decreases n,
{
    if n == 0 {
        assert(is_sqrt(0, 0));
    } else {
        lemma_sqrt_exists(n - 1);
        let r = choose|r: int| #[trigger] is_sqrt(n - 1, r);
        if (r + 1) * (r + 1) <= n {
            assert(is_sqrt(n, r + 1)) by (nonlinear_arith)
                requires
                    is_sqrt(n - 1, r),
                    (r + 1) * (r + 1) <= n,
            ;
        } else {
            assert(is_sqrt(n, r));
        }
    }
}

proof fn lemma_sqrt_unique(n: int, a: int, b: int)
    requires
        is_sqrt(n, a),
        is_sqrt(n, b),
    ensures
        a == b,
{
    assert(a == b) by (nonlinear_arith)
        requires
            is_sqrt(n, a),
            is_sqrt(n, b),
    ;
}

/// `sqrt_floor` satisfies its characterization on non-negative input.
pub proof fn lemma_sqrt_floor(n: int)
    requires
        n >= 0,
    ensures
        is_sqrt(n, sqrt_floor(n)),
{
    lemma_sqrt_exists(n);
}

/// Largest argument `isqrt` accepts; `(3e12)^2` exceeds it, so the binary
/// search can start from that root bound.
pub const MAX_SQUARE: u128 = 8_000_000_000_000_000_000_000_000;

/// Floor of the square root, by binary search.
fn isqrt(n: u128) -> (r: u128)
    requires
        n <= MAX_SQUARE,
    ensures
        r as int == sqrt_floor(n as int),
        is_sqrt(n as int, r as int),
        r <= 3_000_000_000_000,
{
    let mut lo: u128 = 0;
    let mut hi: u128 = 3_000_000_000_001;
    assert(hi * hi > n) by (nonlinear_arith)
        requires
            hi == 3_000_000_000_001u128,
            n <= MAX_SQUARE,
    ;
    while lo + 1 < hi
        invariant
            lo < hi,
            hi <= 3_000_000_000_001,
            lo * lo <= n,
            n < hi * hi,
        decreases hi - lo,
    {
        let mid = lo + (hi - lo) / 2;
        assert(lo < mid < hi);
        proof {
            assert(mid * mid <= 3_000_000_000_001u128 * 3_000_000_000_001u128)
                by (nonlinear_arith)
                requires
                    0 <= mid <= 3_000_000_000_001u128,
            ;
        }
        if mid * mid <= n {
            lo = mid;
        } else {
            hi = mid;
        }
    }
    proof {
        assert(is_sqrt(n as int, lo as int));
        lemma_sqrt_floor(n as int);
        lemma_sqrt_unique(n as int, lo as int, sqrt_floor(n as int));
    }
    lo
}

/// Fixed-point cosine of `2*pi*j/100` for the first quarter wave
/// (`0 <= j <= 25`), scaled by [`SCALE`].
pub open spec fn qcos(j: int) -> int {
    if j <= 0 {
        1_000_000
    } else if j == 1 {
        998_027
    } else if j == 2 {
        992_115
    } else if j == 3 {
        982_287
    } else if j == 4 {
        968_583
    } else if j == 5 {
        951_057
    } else if j == 6 {
        929_776
    } else if j == 7 {
        904_827
    } else if j == 8 {
        876_307
    } else if j == 9 {
        844_328
    } else if j == 10 {
        809_017
    } else if j == 11 {
        770_513
    } else if j == 12 {
        728_969
    } else if j == 13 {
        684_547
    } else if j == 14 {
        637_424
    } else if j == 15 {
        587_785
    } else if j == 16 {
        535_827
    } else if j == 17 {
        481_754
    } else if j == 18 {
        425_779
    } else if j == 19 {
        368_125
    } else if j == 20 {
        309_017
    } else if j == 21 {
        248_690
    } else if j == 22 {
        187_381
    } else if j == 23 {
        125_333
    } else if j == 24 {
        62_791
    } else {
        0
    }
}

/// Fixed-point cosine of `2*pi*i/100`, scaled by [`SCALE`], for
/// `0 <= i < 100`, folded onto the quarter-wave table by symmetry.
pub open spec fn unit_cos(i: int) -> int {
    if i <= 25 {
        qcos(i)
    } else if i <= 50 {
        -qcos(50 - i)
    } else if i <= 75 {
        -qcos(i - 50)
    } else {
        qcos(100 - i)
    }
}

/// Fixed-point sine of `2*pi*i/100`, scaled by [`SCALE`]: the cosine a
/// quarter turn behind.
pub open spec fn unit_sin(i: int) -> int {
    unit_cos(
        if i >= 25 {
            i - 25
        } else {
            i + 75
        },
    )
}

fn qcos_val(j: u64) -> (r: i64)
    requires
        j <= 25,
    ensures
        r == qcos(j as int),
{
    match j {
        0 => 1_000_000,
        1 => 998_027,
        2 => 992_115,
        3 => 982_287,
        4 => 968_583,
        5 => 951_057,
        6 => 929_776,
        7 => 904_827,
        8 => 876_307,
        9 => 844_328,
        10 => 809_017,
        11 => 770_513,
        12 => 728_969,
        13 => 684_547,
        14 => 637_424,
        15 => 587_785,
        16 => 535_827,
        17 => 481_754,
        18 => 425_779,
        19 => 368_125,
        20 => 309_017,
        21 => 248_690,
        22 => 187_381,
        23 => 125_333,
        24 => 62_791,
        _ => 0,
    }
}

/// Every table entry lies between `0` and [`SCALE`].
proof fn lemma_qcos_bounds(j: int)
    ensures
        0 <= qcos(j) <= SCALE,
{
}

fn unit_cos_val(i: u64) -> (r: i64)
    requires
        i < 100,
    ensures
        r == unit_cos(i as int),
        -SCALE <= r <= SCALE,
{
    proof {
        lemma_qcos_bounds(i as int);
        lemma_qcos_bounds(50 - i as int);
        lemma_qcos_bounds(i as int - 50);
        lemma_qcos_bounds(100 - i as int);
    }
    if i <= 25 {
        qcos_val(i)
    } else if i <= 50 {
        -qcos_val(50 - i)
    } else if i <= 75 {
        -qcos_val(i - 50)
    } else {
        qcos_val(100 - i)
    }
}

fn unit_sin_val(i: u64) -> (r: i64)
    requires
        i < 100,
    ensures
        r == unit_sin(i as int),
        -SCALE <= r <= SCALE,
{
    if i >= 25 {
        unit_cos_val(i - 25)
    } else {
        unit_cos_val(i + 75)
    }
}

/// `r * u / SCALE` rounded toward zero, for a non-negative radius `r` and
/// a table value `u`.
pub open spec fn scale_mag(r: int, u: int) -> int {
    if u >= 0 {
        (r * u) / (SCALE as int)
    } else {
        -((r * -u) / (SCALE as int))
    }
}

/// A scaled table product stays within the radius.
proof fn lemma_muldiv_bound(r: int, u: int)
    requires
        0 <= r,
        0 <= u <= SCALE,
    ensures
        0 <= (r * u) / (SCALE as int) <= r,
{
    assert(0 <= r * u <= r * (SCALE as int)) by (nonlinear_arith)
        requires
            0 <= r,
            0 <= u <= SCALE,
    ;
    lemma_div_is_ordered(r * u, r * (SCALE as int), SCALE as int);
    lemma_div_multiples_vanish(r, SCALE as int);
    assert(r * u >= 0);
    assert((r * u) / (SCALE as int) >= 0) by (nonlinear_arith)
        requires
            r * u >= 0,
    ;
}

fn scale_mag_val(r: i64, u: i64) -> (d: i64)
    requires
        0 <= r <= MAX_COORD,
        -SCALE <= u <= SCALE,
    ensures
        d == scale_mag(r as int, u as int),
        -r <= d <= r,
{
    if u >= 0 {
        proof {
            lemma_muldiv_bound(r as int, u as int);
        }
        let m: u64 = ((r as u64) * (u as u64)) / (SCALE as u64);
        m as i64
    } else {
        proof {
            lemma_muldiv_bound(r as int, -u as int);
        }
        let m: u64 = ((r as u64) * ((-u) as u64)) / (SCALE as u64);
        -(m as i64)
    }
}

/// Vertex `i` of the tessellated circle of radius `r` about `c`.
pub open spec fn circle_pt(c: Vec2, r: int, i: int) -> Vec2 {
    Vec2 {
        x: (c.x + scale_mag(r, unit_cos(i))) as i64,
        y: (c.y + scale_mag(r, unit_sin(i))) as i64,
    }
}

/// The tessellated circle of radius `r` about `c`: [`CIRCLE_RES`]
/// vertices, counterclockwise from the rightmost point.
pub open spec fn circle_ring(c: Vec2, r: int) -> Seq<Vec2> {
    Seq::new(CIRCLE_RES as nat, |i: int| circle_pt(c, r, i))
}

/// Builds the tessellated circle outline.
///
/// Vertices `0`, `25`, `50` and `75` land exactly on
/// `(c.x + r, c.y)`, `(c.x, c.y + r)`, `(c.x - r, c.y)` and
/// `(c.x, c.y - r)`, so the ring's bounding box is exactly the circle's.
pub fn create_circle_path(center: Vec2, radius: i64) -> (ring: Vec<Vec2>)
    requires
        center.wf(),
        0 <= radius <= MAX_COORD,
    ensures
        ring@ == circle_ring(center, radius as int),
        ring@.len() == CIRCLE_RES,
        ring_wf(ring@),
{
    let mut ring: Vec<Vec2> = Vec::with_capacity(100);
    let mut i: u64 = 0;
    while i < 100
        invariant
            i <= 100,
            ring@.len() == i,
            center.wf(),
            0 <= radius <= MAX_COORD,
            forall|k: int| 0 <= k < i ==> ring@[k] == circle_pt(center, radius as int, k),
            forall|k: int| 0 <= k < i ==> (#[trigger] ring@[k]).vertex_wf(),
        decreases 100 - i,
    {
        let u = unit_cos_val(i);
        let v = unit_sin_val(i);
        let dx = scale_mag_val(radius, u);
        let dy = scale_mag_val(radius, v);
        ring.push(Vec2 { x: center.x + dx, y: center.y + dy });
        i = i + 1;
    }
    proof {
        assert(ring@ =~= circle_ring(center, radius as int));
    }
    ring
}

/// The axis-aligned box of width `w` and height `h` centred at `c`,
/// corners counterclockwise from the lower left.  An odd dimension loses
/// its half step to truncation on the low side, as integer halving gives.
pub open spec fn rect_ring(c: Vec2, w: int, h: int) -> Seq<Vec2> {
    let ox = c.x - w / 2;
    let oy = c.y - h / 2;
    seq![
        Vec2 { x: ox as i64, y: oy as i64 },
        Vec2 { x: (ox + w) as i64, y: oy as i64 },
        Vec2 { x: (ox + w) as i64, y: (oy + h) as i64 },
        Vec2 { x: ox as i64, y: (oy + h) as i64 },
    ]
}

/// Builds the axis-aligned rectangle outline.
pub fn create_rect_path(center: Vec2, w: i64, h: i64) -> (ring: Vec<Vec2>)
    requires
        center.wf(),
        0 <= w <= MAX_COORD,
        0 <= h <= MAX_COORD,
    ensures
        ring@ == rect_ring(center, w as int, h as int),
        ring@.len() == 4,
        ring_wf(ring@),
{
    let half_w = ((w as u64) / 2) as i64;
    let half_h = ((h as u64) / 2) as i64;
    let ox = center.x - half_w;
    let oy = center.y - half_h;
    let mut ring: Vec<Vec2> = Vec::with_capacity(4);
    ring.push(Vec2 { x: ox, y: oy });
    ring.push(Vec2 { x: ox + w, y: oy });
    ring.push(Vec2 { x: ox + w, y: oy + h });
    ring.push(Vec2 { x: ox, y: oy + h });
    proof {
        assert(ring@ =~= rect_ring(center, w as int, h as int));
    }
    ring
}

/// Integer division rounded toward zero, for a positive divisor.
pub open spec fn div_trunc(a: int, b: int) -> int {
    if a >= 0 {
        a / b
    } else {
        -((-a) / b)
    }
}

/// The stroke rectangle of a segment from `a` to `b` with the given
/// width: the four corners `a - n`, `b - n`, `b + n`, `a + n`, where `n`
/// is the segment's left normal scaled to half the width.  The corners
/// run counterclockwise, the same orientation the aperture outlines
/// use, so that rings of one batch reinforce rather than cancel under
/// the nonzero fill rule.
///
/// A zero-length segment has no direction to stroke along and yields the
/// empty ring; the interpreter still flashes the aperture at both (equal)
/// endpoints, so such an operation degenerates to a flash.
pub open spec fn stroke_ring(a: Vec2, b: Vec2, t: int) -> Seq<Vec2> {
    if a == b {
        Seq::empty()
    } else {
        let dx = b.x - a.x;
        let dy = b.y - a.y;
        let len = sqrt_floor(dx * dx + dy * dy);
        let half = t / 2;
        let nx = div_trunc(-dy * half, len);
        let ny = div_trunc(dx * half, len);
        seq![
            Vec2 { x: (a.x - nx) as i64, y: (a.y - ny) as i64 },
            Vec2 { x: (b.x - nx) as i64, y: (b.y - ny) as i64 },
            Vec2 { x: (b.x + nx) as i64, y: (b.y + ny) as i64 },
            Vec2 { x: (a.x + nx) as i64, y: (a.y + ny) as i64 },
        ]
    }
}

/// One scaled component of the stroke normal: `d * half / len`, rounded
/// toward zero.
fn scaled_normal_component(d: i64, half: i64, len: u128) -> (r: i64)
    requires
        -2 * MAX_COORD <= d <= 2 * MAX_COORD,
        0 <= half <= MAX_COORD,
        0 < len <= 3_000_000_000_000,
        -(len as int) <= d <= len as int,
    ensures
        r == div_trunc(d * half, len as int),
        -half <= r <= half,
{
    let mag_in: u128 = if d >= 0 {
        d as u128
    } else {
        (-d) as u128
    };
    proof {
        assert(mag_in * (half as u128) <= len * (half as u128) && len * (half as u128)
            <= 3_000_000_000_000u128 * (MAX_COORD as u128)) by (nonlinear_arith)
            requires
                mag_in <= len,
                0 <= half <= MAX_COORD,
                len <= 3_000_000_000_000,
        ;
        lemma_div_is_ordered(
            mag_in as int * (half as int),
            len as int * (half as int),
            len as int,
        );
        lemma_div_multiples_vanish(half as int, len as int);
        assert(mag_in as int * (half as int) >= 0) by (nonlinear_arith)
            requires
                0 <= mag_in,
                0 <= half,
        ;
        assert((mag_in as int * (half as int)) / (len as int) >= 0) by (nonlinear_arith)
            requires
                mag_in as int * (half as int) >= 0,
                len as int > 0,
        ;
        if d < 0 {
            assert(mag_in as int * (half as int) == -(d as int * (half as int)))
                by (nonlinear_arith)
                requires
                    mag_in as int == -(d as int),
            ;
        }
    }
    let mag: u128 = mag_in * (half as u128) / len;
    if d >= 0 {
        mag as i64
    } else {
        -(mag as i64)
    }
}

/// Builds the stroke rectangle of a segment.
pub fn line_to_rect_path(from: Vec2, to: Vec2, thickness: i64) -> (ring: Vec<Vec2>)
    requires
        from.wf(),
        to.wf(),
        0 <= thickness <= MAX_COORD,
    ensures
        ring@ == stroke_ring(from, to, thickness as int),
        from == to ==> ring@.len() == 0,
        from != to ==> ring@.len() == 4,
        ring_wf(ring@),
{
    if from.x == to.x && from.y == to.y {
        let ring: Vec<Vec2> = Vec::new();
        proof {
            assert(ring@ =~= stroke_ring(from, to, thickness as int));
        }
        return ring;
    }
    let dx = to.x - from.x;
    let dy = to.y - from.y;
    let dxw: i128 = dx as i128;
    let dyw: i128 = dy as i128;
    proof {
        assert(0 <= dxw * dxw <= (MAX_SQUARE as int) / 2 && 0 <= dyw * dyw <= (MAX_SQUARE
            as int) / 2) by (nonlinear_arith)
            requires
                -2 * MAX_COORD <= dxw <= 2 * MAX_COORD,
                -2 * MAX_COORD <= dyw <= 2 * MAX_COORD,
        ;
    }
    let sq: i128 = dxw * dxw + dyw * dyw;
    let len = isqrt(sq as u128);
    proof {
        assert(sq > 0) by (nonlinear_arith)
            requires
                sq == dxw * dxw + dyw * dyw,
                dxw != 0 || dyw != 0,
        ;
        assert(len > 0) by {
            if len == 0 {
                assert(is_sqrt(sq as int, 0));
            }
        }
        // the root of the squared length dominates each component
        assert(-(len as int) <= dxw <= len as int && -(len as int) <= dyw <= len as int)
            by (nonlinear_arith)
            requires
                is_sqrt(sq as int, len as int),
                sq == dxw * dxw + dyw * dyw,
        ;
    }
    let half = ((thickness as u64) / 2) as i64;
    let neg_dy = -dy;
    let nx = scaled_normal_component(neg_dy, half, len);
    let ny = scaled_normal_component(dx, half, len);
    let mut ring: Vec<Vec2> = Vec::with_capacity(4);
    ring.push(Vec2 { x: from.x - nx, y: from.y - ny });
    ring.push(Vec2 { x: to.x - nx, y: to.y - ny });
    ring.push(Vec2 { x: to.x + nx, y: to.y + ny });
    ring.push(Vec2 { x: from.x + nx, y: from.y + ny });
    proof {
        assert(ring@ =~= stroke_ring(from, to, thickness as int));
    }
    ring
}

} // verus!
