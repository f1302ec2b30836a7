//! Plane geometry on fixed-point coordinates: integer square roots and the
//! resolution of circular arcs from offset-vector or radius notation.

use vstd::prelude::*;

verus! {

/// A point of the drawing plane, in steps.
#[derive(Clone, Copy, Debug, PartialEq, Eq, Structural)]
pub struct Point2 {
    pub x: i64,
    pub y: i64,
}

/// The circle that an arc command runs along.
#[derive(Clone, Copy, Debug, PartialEq, Eq, Structural)]
pub struct ArcFit {
    pub center: Point2,
    pub radius: i64,
}

/// Arc geometry is resolved only for coordinates, offsets and radii within
/// this many steps of zero, so that the squared terms it works with stay exact.
pub const ARC_LIMIT: i64 = 0x4000_0000;

pub open spec fn in_arc_range(v: int) -> bool {
    -ARC_LIMIT <= v <= ARC_LIMIT
}

pub open spec fn point_in_arc_range(p: Point2) -> bool {
    in_arc_range(p.x as int) && in_arc_range(p.y as int)
}

/// Offset-vector notation: the center lies at `p0 + (i, j)`, and the radius is
/// the distance from the center to `p0`, rounded down to a step.
pub open spec fn offset_arc(p0: Point2, i: int, j: int) -> ArcFit {
    ArcFit {
        center: Point2 { x: (p0.x + i) as i64, y: (p0.y + j) as i64 },
        radius: isqrt((i * i + j * j) as nat) as i64,
    }
}

/// The squared length of the chord from `p0` to `p1`.
pub open spec fn chord_sq(p0: Point2, p1: Point2) -> int {
    (p1.x - p0.x) * (p1.x - p0.x) + (p1.y - p0.y) * (p1.y - p0.y)
}

/// `(2r)^2 - q^2` for a chord of length `q`: the circles of radius `r` through
/// both ends exist exactly when it is not negative.
pub open spec fn radius_disc(p0: Point2, p1: Point2, r: int) -> int {
    4 * r * r - chord_sq(p0, p1)
}

/// A circle of radius `r` passes through both ends of a chord of positive length.
pub open spec fn radius_fits(p0: Point2, p1: Point2, r: int) -> bool {
    chord_sq(p0, p1) > 0 && r > 0 && radius_disc(p0, p1, r) >= 0
}

/// `k * sqrt(disc / (4 * q2))`, truncated toward zero.
pub open spec fn perpendicular_shift(k: int, disc: int, q2: int) -> int {
    let m = isqrt((k * k * disc / (4 * q2)) as nat) as int;
    if k >= 0 {
        m
    } else {
        -m
    }
}

/// `perpendicular_shift(k, disc, q2)` is `k * sqrt(disc / (4 * q2))` truncated
/// toward zero: its magnitude is the largest `a` with `(a * 2q)^2 <= k^2 * disc`,
/// and its sign is that of `k`.
pub proof fn lemma_shift_truncates(k: int, disc: int, q2: int)
    requires
        disc >= 0,
        q2 > 0,
    ensures
        ({
            let m = perpendicular_shift(k, disc, q2);
            let a = if m >= 0 {
                m
            } else {
                -m
            };
            &&& a * a * (4 * q2) <= k * k * disc
            &&& k * k * disc < (a + 1) * (a + 1) * (4 * q2)
            &&& k >= 0 ==> m >= 0
            &&& k < 0 ==> m <= 0
        }),
{
    let n = k * k * disc;
    let d = 4 * q2;
    assert(n >= 0) by (nonlinear_arith)
        requires
            disc >= 0,
            n == k * k * disc,
    ;
    let f = n / d;
    assert(0 <= f && d * f <= n && n < d * (f + 1)) by (nonlinear_arith)
        requires
            n >= 0,
            d > 0,
            f == n / d,
    ;
    lemma_isqrt_bounds(f as nat);
    let a = isqrt(f as nat) as int;
    assert(a * a * d <= n && n < (a + 1) * (a + 1) * d) by (nonlinear_arith)
        requires
            a * a <= f,
            f < (a + 1) * (a + 1),
            d * f <= n,
            n < d * (f + 1),
            d > 0,
            a >= 0,
    ;
}

/// Radius notation: the center lies on the perpendicular bisector of the chord,
/// `sqrt(r^2 - (q/2)^2)` from its midpoint, on the side of the perpendicular
/// `(p0.y - p1.y, p1.x - p0.x)`. The midpoint is rounded down and the shift
/// truncated toward zero, one coordinate at a time.
pub open spec fn radius_arc(p0: Point2, p1: Point2, r: int) -> ArcFit {
    let q2 = chord_sq(p0, p1);
    let disc = radius_disc(p0, p1, r);
    ArcFit {
        center: Point2 {
            x: ((p0.x + p1.x) / 2 + perpendicular_shift(p0.y - p1.y, disc, q2)) as i64,
            y: ((p0.y + p1.y) / 2 + perpendicular_shift(p1.x - p0.x, disc, q2)) as i64,
        },
        radius: r as i64,
    }
}

/// The circle of an arc from `p0` to `p1`: from the offset vector when there is
/// one, else from the radius. There is none without either, when the chord is
/// empty or longer than the diameter, when the radius is not positive, or when
/// a value it needs lies beyond [`ARC_LIMIT`].
pub open spec fn arc_fit(
    p0: Point2,
    p1: Point2,
    offset: Option<(i64, i64)>,
    radius: Option<i64>,
) -> Option<ArcFit> {
    match offset {
        Some((i, j)) => if point_in_arc_range(p0) && in_arc_range(i as int) && in_arc_range(
            j as int,
        ) {
            Some(offset_arc(p0, i as int, j as int))
        } else {
            None
        },
        None => match radius {
            Some(r) => if point_in_arc_range(p0) && point_in_arc_range(p1) && in_arc_range(r as int)
                && radius_fits(p0, p1, r as int) {
                Some(radius_arc(p0, p1, r as int))
            } else {
                None
            },
            None => None,
        },
    }
}

/// The integer square root: the largest `k` with `k * k <= n`.
pub open spec fn isqrt(n: nat) -> nat
    decreases n,
{
    if n == 0 {
        0
    } else {
        let k = isqrt((n - 1) as nat);
        if (k + 1) * (k + 1) <= n {
            k + 1
        } else {
            k
        }
    }
}

/// `isqrt(n)` is the root rounded down.
pub proof fn lemma_isqrt_bounds(n: nat)
    ensures
        isqrt(n) * isqrt(n) <= n,
        n < (isqrt(n) + 1) * (isqrt(n) + 1),
    decreases n,
{
    if n > 0 {
        lemma_isqrt_bounds((n - 1) as nat);
        let k = isqrt((n - 1) as nat);
        if (k + 1) * (k + 1) <= n {
            assert(isqrt(n) == k + 1);
            assert((k + 1) * (k + 1) < (k + 2) * (k + 2)) by (nonlinear_arith);
        } else {
            assert(isqrt(n) == k);
        }
    } else {
        let s = isqrt(n);
        assert(s == 0);
        assert(s * s <= n && n < (s + 1) * (s + 1)) by (nonlinear_arith)
            requires
                s == 0,
                n == 0,
        ;
    }
}

/// A root rounded down is unique.
pub proof fn lemma_isqrt_unique(n: nat, r: nat)
    requires
        r * r <= n,
        n < (r + 1) * (r + 1),
    ensures
        isqrt(n) == r,
{
    lemma_isqrt_bounds(n);
    let s = isqrt(n);
    if s < r {
        assert((s + 1) * (s + 1) <= r * r) by (nonlinear_arith)
            requires
                s + 1 <= r,
        ;
    } else if r < s {
        assert((r + 1) * (r + 1) <= s * s) by (nonlinear_arith)
            requires
                r + 1 <= s,
        ;
    }
}

/// The largest value that [`floor_sqrt`] accepts, plus one.
pub const SQRT_INPUT_BOUND: u128 = 0x1000_0000_0000_0000_0000_0000_0000_0000;

/// Integer square root by bisection.
pub fn floor_sqrt(n: u128) -> (r: u64)
    requires
        n < SQRT_INPUT_BOUND,
    ensures
        r as nat == isqrt(n as nat),
{
    let mut lo: u128 = 0;
    let mut hi: u128 = 0x4000_0000_0000_0000;
    assert(hi * hi == SQRT_INPUT_BOUND);
    while hi - lo > 1
        invariant
            lo < hi <= 0x4000_0000_0000_0000,
            lo * lo <= n,
            n < hi * hi,
        decreases hi - lo,
    {
        let mid = lo + (hi - lo) / 2;
        assert(mid * mid <= hi * hi) by (nonlinear_arith)
            requires
                mid <= hi,
        ;
        assert(hi * hi <= 0x4000_0000_0000_0000u128 * 0x4000_0000_0000_0000u128) by (nonlinear_arith)
            requires
                hi <= 0x4000_0000_0000_0000u128,
        ;
        if mid * mid <= n {
            lo = mid;
        } else {
            hi = mid;
        }
    }
    assert(hi == lo + 1);
    proof {
        lemma_isqrt_unique(n as nat, lo as nat);
    }
    lo as u64
}

/// `s / 2` rounded down.
fn floor_half(s: i128) -> (h: i128)
    requires
        -0x1_0000_0000 <= s <= 0x1_0000_0000,
    ensures
        h == s / 2,
{
    if s >= 0 {
        s / 2
    } else {
        let h = -((-s + 1) / 2);
        assert(h == s / 2) by (nonlinear_arith)
            requires
                s < 0,
                h == -((-s + 1) / 2),
        ;
        h
    }
}

/// `k * sqrt(disc / (4 * q2))` truncated toward zero, for the perpendicular
/// component `k` of a chord whose squared length is `q2`.
fn shift_along(k: i128, disc: i128, q2: i128) -> (m: i128)
    requires
        -0x8000_0000 <= k <= 0x8000_0000,
        0 <= disc <= 0x4000_0000_0000_0000,
        0 < q2 <= 0x8000_0000_0000_0000,
    ensures
        m == perpendicular_shift(k as int, disc as int, q2 as int),
        -0x4000_0000_0000_0000 < m < 0x4000_0000_0000_0000,
{
    assert(0 <= k * k <= 0x4000_0000_0000_0000) by (nonlinear_arith)
        requires
            -0x8000_0000 <= k <= 0x8000_0000,
    ;
    let kk = k * k;
    assert(0 <= kk * disc <= 0x1000_0000_0000_0000_0000_0000_0000_0000) by (nonlinear_arith)
        requires
            0 <= kk <= 0x4000_0000_0000_0000,
            0 <= disc <= 0x4000_0000_0000_0000,
    ;
    let num = kk * disc;
    let den = 4 * q2;
    let quot = num / den;
    assert(0 <= quot && 4 * quot <= num) by (nonlinear_arith)
        requires
            0 <= num,
            4 <= den,
            quot == num / den,
    ;
    let root = floor_sqrt(quot as u128);
    proof {
        lemma_isqrt_bounds(quot as nat);
        let rt = root as int;
        assert(rt < 0x4000_0000_0000_0000) by (nonlinear_arith)
            requires
                rt * rt <= quot,
                quot < 0x1000_0000_0000_0000_0000_0000_0000_0000,
                rt >= 0,
        ;
    }
    if k >= 0 {
        root as i128
    } else {
        -(root as i128)
    }
}

/// Resolves the circle of an arc from `p0` to `p1`, from the offset vector
/// `(i, j)` if given, else from the radius.
pub fn resolve_arc(p0: Point2, p1: Point2, offset: Option<(i64, i64)>, radius: Option<i64>) -> (r:
    Option<ArcFit>)
    ensures
        r == arc_fit(p0, p1, offset, radius),
{
    let in_range = |v: i64| -> (b: bool)
        ensures
            b == in_arc_range(v as int),
        { -ARC_LIMIT <= v && v <= ARC_LIMIT };
    match offset {
        Some((i, j)) => {
            if !(in_range(p0.x) && in_range(p0.y) && in_range(i) && in_range(j)) {
                return None;
            }
            assert(0 <= i * i <= 0x1000_0000_0000_0000 && 0 <= j * j <= 0x1000_0000_0000_0000)
                by (nonlinear_arith)
                requires
                    -0x4000_0000 <= i <= 0x4000_0000,
                    -0x4000_0000 <= j <= 0x4000_0000,
            ;
            let sq = (i as i128) * (i as i128) + (j as i128) * (j as i128);
            let rad = floor_sqrt(sq as u128);
            proof {
                lemma_isqrt_bounds(sq as nat);
                let rt = rad as int;
                if rt > 0x8000_0000 {
                    assert(rt * rt > 0x8000_0000 * 0x8000_0000) by (nonlinear_arith)
                        requires
                            rt > 0x8000_0000,
                    ;
                }
            }
            Some(ArcFit { center: Point2 { x: p0.x + i, y: p0.y + j }, radius: rad as i64 })
        },
        None => match radius {
            Some(r) => {
                if !(in_range(p0.x) && in_range(p0.y) && in_range(p1.x) && in_range(p1.y)
                    && in_range(r)) {
                    return None;
                }
                let dx = p1.x as i128 - p0.x as i128;
                let dy = p1.y as i128 - p0.y as i128;
                assert(0 <= dx * dx <= 0x4000_0000_0000_0000 && 0 <= dy * dy
                    <= 0x4000_0000_0000_0000) by (nonlinear_arith)
                    requires
                        -0x8000_0000 <= dx <= 0x8000_0000,
                        -0x8000_0000 <= dy <= 0x8000_0000,
                ;
                let dxx = dx * dx;
                let dyy = dy * dy;
                let q2 = dxx + dyy;
                assert(0 <= r * r <= 0x1000_0000_0000_0000) by (nonlinear_arith)
                    requires
                        -0x4000_0000 <= r <= 0x4000_0000,
                ;
                let rr = (r as i128) * (r as i128);
                let disc = 4 * rr - q2;
                assert(q2 == chord_sq(p0, p1));
                assert(4 * r * r == 4 * (r * r)) by (nonlinear_arith);
                assert(disc == radius_disc(p0, p1, r as int));
                if q2 == 0 || r <= 0 || disc < 0 {
                    return None;
                }
                let mx = floor_half(p0.x as i128 + p1.x as i128);
                let my = floor_half(p0.y as i128 + p1.y as i128);
                let sx = shift_along(p0.y as i128 - p1.y as i128, disc, q2);
                let sy = shift_along(p1.x as i128 - p0.x as i128, disc, q2);
                Some(ArcFit { center: Point2 { x: (mx + sx) as i64, y: (my + sy) as i64 }, radius: r })
            },
            None => None,
        },
    }
}

} // verus!
