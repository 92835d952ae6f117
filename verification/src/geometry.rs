//! Pure numeric routines of the construction: the circumcircle of three
//! sites and the breakpoint (parabola intersection) of two adjacent arcs
//! at a given sweep position.
//!
//! All arithmetic is exact over `i128`; divisions and square roots round
//! toward negative infinity (`sqrt_floor`, Euclidean `/`). Input
//! coordinates are bounded by [`COORD_BOUND`] so that no intermediate
//! value can overflow.

use vstd::arithmetic::div_mod::lemma_fundamental_div_mod;
use vstd::prelude::*;

use crate::diagram::Point;

verus! {

/// Largest magnitude allowed for a site or rectangle coordinate.
pub const COORD_BOUND: i64 = 1048576;

/// Largest magnitude allowed for a computed circumcenter coordinate;
/// triples whose (rounded) center lies beyond this are treated as having
/// no circle, like collinear triples.
pub const CENTER_LIMIT: i64 = 1099511627776;

/// The coordinates of `p` are small enough for exact evaluation of the
/// geometric predicates.
pub open spec fn coord_ok(p: Point) -> bool {
    -COORD_BOUND <= p.x <= COORD_BOUND && -COORD_BOUND <= p.y <= COORD_BOUND
}

/// Twice the signed area of the triangle `a`, `b`, `c`; zero exactly when
/// the three points are collinear (or not pairwise distinct).
pub open spec fn cross3(a: Point, b: Point, c: Point) -> int {
    (b.x - a.x) * (c.y - a.y) - (b.y - a.y) * (c.x - a.x)
}

/// The floor of the square root of `n`; unspecified for negative `n`
/// (the binder is unsatisfiable there), so every use guards or proves
/// the argument nonnegative.
pub open spec fn sqrt_floor(n: int) -> int {
    choose|r: int| 0 <= r && #[trigger] (r * r) <= n && n < (r + 1) * (r + 1)
}

/// Two distinct nonnegative integers cannot both be the floored square
/// root of `n`.
pub proof fn lemma_sqrt_floor_unique(n: int, r: int)
    by (nonlinear_arith)
    requires
        0 <= r,
        r * r <= n,
        n < (r + 1) * (r + 1),
    ensures
        sqrt_floor(n) == r,
{
    assert(0 <= r && r * r <= n && n < (r + 1) * (r + 1));
    let s = sqrt_floor(n);
    assert(0 <= s && s * s <= n && n < (s + 1) * (s + 1));
}

proof fn lemma_mul_bound(a: int, b: int, ba: int, bb: int)
    by (nonlinear_arith)
    requires
        -ba <= a <= ba,
        -bb <= b <= bb,
        0 <= ba,
        0 <= bb,
    ensures
        -(ba * bb) <= a * b <= ba * bb,
{
}

/// Exact product of two bounded `i128` values; the ghost bounds make the
/// absence of overflow provable at each call site.
pub(crate) fn mul_i(a: i128, b: i128, Ghost(ba): Ghost<int>, Ghost(bb): Ghost<int>) -> (r: i128)
    requires
        0 <= ba,
        0 <= bb,
        -ba <= a as int <= ba,
        -bb <= b as int <= bb,
        ba * bb <= 0x2000_0000_0000_0000_0000_0000_0000_0000,
    ensures
        r as int == a as int * b as int,
        -(ba * bb) <= r as int <= ba * bb,
{
    proof {
        lemma_mul_bound(a as int, b as int, ba, bb);
    }
    a * b
}

/// Floor division (round toward negative infinity) by a positive divisor.
pub(crate) fn div_flr(n: i128, d: i128) -> (r: i128)
    requires
        d > 0,
    ensures
        r as int == n as int / d as int,
        n >= 0 ==> 0 <= r as int <= n as int,
        n < 0 ==> n as int <= r as int <= 0,
{
    proof {
        lemma_fundamental_div_mod(n as int, d as int);
        assert(((n as int) >= 0 ==> 0 <= n as int / d as int && n as int / d as int <= n as int)
            && ((n as int) < 0 ==> n as int <= n as int / d as int && n as int / d as int <= 0))
            by (nonlinear_arith)
            requires
                d as int > 0,
                n as int == d as int * (n as int / d as int) + (n as int % d as int),
                0 <= (n as int % d as int),
                (n as int % d as int) < d as int,
        {
        }
    }
    match n.checked_div_euclid(d) {
        Some(q) => q,
        None => 0,  // unreachable: the quotient always fits
    }
}

/// Floor of the square root. Rounds down; exact when `n` is a perfect
/// square.
pub fn isqrt(n: u128) -> (r: u128)
    requires
        n < 0x1000_0000_0000_0000_0000_0000_0000_0000,
    ensures
        r as int == sqrt_floor(n as int),
        r * r <= n,
        n < (r + 1) * (r + 1),
        r <= 0x4000_0000_0000_0000,
{
    let mut lo: u128 = 0;
    let mut hi: u128 = 0x4000_0000_0000_0000;
    proof {
        assert((0x4000_0000_0000_0001u128 as int) * (0x4000_0000_0000_0001u128 as int)
            > n as int) by (nonlinear_arith)
            requires
                n < 0x1000_0000_0000_0000_0000_0000_0000_0000,
        {
        }
    }
    while lo < hi
        invariant
            lo <= hi,
            hi <= 0x4000_0000_0000_0000,
            lo * lo <= n,
            (hi + 1) * (hi + 1) > n,
        decreases hi - lo,
    {
        let mid = lo + (hi - lo + 1) / 2;
        proof {
            assert(lo < mid <= hi);
            assert(mid * mid <= 0x4000_0000_0000_0000u128 * 0x4000_0000_0000_0000u128)
                by (nonlinear_arith)
                requires
                    mid <= 0x4000_0000_0000_0000u128,
            {
            }
        }
        if mid * mid <= n {
            lo = mid;
        } else {
            hi = mid - 1;
        }
    }
    proof {
        lemma_sqrt_floor_unique(n as int, lo as int);
    }
    lo
}

/// Numerator of the circumcenter x-coordinate (denominator `cc_den`).
pub open spec fn cc_nx(a: Point, b: Point, c: Point) -> int {
    (a.x * a.x + a.y * a.y) * (b.y - c.y) + (b.x * b.x + b.y * b.y) * (c.y - a.y) + (c.x * c.x
        + c.y * c.y) * (a.y - b.y)
}

/// Numerator of the circumcenter y-coordinate (denominator `cc_den`).
pub open spec fn cc_ny(a: Point, b: Point, c: Point) -> int {
    (a.x * a.x + a.y * a.y) * (c.x - b.x) + (b.x * b.x + b.y * b.y) * (a.x - c.x) + (c.x * c.x
        + c.y * c.y) * (b.x - a.x)
}

/// Denominator of the circumcenter coordinates: twice the signed triangle
/// area.
pub open spec fn cc_den(a: Point, b: Point, c: Point) -> int {
    2 * cross3(a, b, c)
}

/// Floor of the quotient `n / d` for nonzero `d` (sign-normalized so the
/// divisor is positive).
pub open spec fn quot_floor(n: int, d: int) -> int {
    if d > 0 {
        n / d
    } else {
        (-n) / (-d)
    }
}

/// The circumcenter x-coordinate, rounded toward negative infinity.
pub open spec fn cc_x(a: Point, b: Point, c: Point) -> int {
    quot_floor(cc_nx(a, b, c), cc_den(a, b, c))
}

/// The circumcenter y-coordinate, rounded toward negative infinity.
pub open spec fn cc_y(a: Point, b: Point, c: Point) -> int {
    quot_floor(cc_ny(a, b, c), cc_den(a, b, c))
}

/// Squared distance between two points.
pub open spec fn dist2(p: Point, q: Point) -> int {
    (p.x - q.x) * (p.x - q.x) + (p.y - q.y) * (p.y - q.y)
}

/// The radius belonging to the rounded center: the floored distance from
/// the rounded circumcenter to site `a`.
pub open spec fn cc_radius(a: Point, b: Point, c: Point) -> int {
    sqrt_floor(
        (cc_x(a, b, c) - a.x) * (cc_x(a, b, c) - a.x) + (cc_y(a, b, c) - a.y) * (cc_y(a, b, c)
            - a.y),
    )
}

/// Whether `circumcircle` reports a circle for the triple: the sites must
/// not be collinear and the rounded center must be representable.
pub open spec fn cc_exists(a: Point, b: Point, c: Point) -> bool {
    cross3(a, b, c) != 0 && -CENTER_LIMIT <= cc_x(a, b, c) <= CENTER_LIMIT && -CENTER_LIMIT <= cc_y(
        a,
        b,
        c,
    ) <= CENTER_LIMIT
}

/// The circumcircle of three sites, by the standard determinant formula.
///
/// Returns `None` exactly when the determinant is zero (collinear or
/// coincident sites — no circle event is possible for the triple) or when
/// the rounded center falls outside the representable range
/// [`CENTER_LIMIT`]. The center is rounded toward negative infinity; the
/// radius is the floored distance from the rounded center to `a`.
pub fn circumcircle(a: Point, b: Point, c: Point) -> (r: Option<(Point, i64)>)
    requires
        coord_ok(a),
        coord_ok(b),
        coord_ok(c),
    ensures
        r.is_some() <==> cc_exists(a, b, c),
        r.is_some() ==> {
            let (ctr, rad) = r.unwrap();
            ctr.x == cc_x(a, b, c) && ctr.y == cc_y(a, b, c) && rad == cc_radius(a, b, c) && rad
                >= 0
        },
{
    let ax = a.x as i128;
    let ay = a.y as i128;
    let bx = b.x as i128;
    let by = b.y as i128;
    let cx = c.x as i128;
    let cy = c.y as i128;
    let ghost cb: int = COORD_BOUND as int;
    let cr = mul_i(bx - ax, cy - ay, Ghost(2 * cb), Ghost(2 * cb)) - mul_i(
        by - ay,
        cx - ax,
        Ghost(2 * cb),
        Ghost(2 * cb),
    );
    assert(cr as int == cross3(a, b, c));
    if cr == 0 {
        assert(!cc_exists(a, b, c));
        return None;
    }
    let na = mul_i(ax, ax, Ghost(cb), Ghost(cb)) + mul_i(ay, ay, Ghost(cb), Ghost(cb));
    let nb = mul_i(bx, bx, Ghost(cb), Ghost(cb)) + mul_i(by, by, Ghost(cb), Ghost(cb));
    let nc = mul_i(cx, cx, Ghost(cb), Ghost(cb)) + mul_i(cy, cy, Ghost(cb), Ghost(cb));
    let ghost sq: int = 2 * cb * cb;
    let nx = mul_i(na, by - cy, Ghost(sq), Ghost(2 * cb)) + mul_i(
        nb,
        cy - ay,
        Ghost(sq),
        Ghost(2 * cb),
    ) + mul_i(nc, ay - by, Ghost(sq), Ghost(2 * cb));
    let ny = mul_i(na, cx - bx, Ghost(sq), Ghost(2 * cb)) + mul_i(
        nb,
        ax - cx,
        Ghost(sq),
        Ghost(2 * cb),
    ) + mul_i(nc, bx - ax, Ghost(sq), Ghost(2 * cb));
    assert(nx as int == cc_nx(a, b, c));
    assert(ny as int == cc_ny(a, b, c));
    let den = 2 * cr;
    assert(den as int == cc_den(a, b, c));
    let (px, py) = if den > 0 {
        (div_flr(nx, den), div_flr(ny, den))
    } else {
        (div_flr(-nx, -den), div_flr(-ny, -den))
    };
    assert(px as int == cc_x(a, b, c));
    assert(py as int == cc_y(a, b, c));
    if px < -CENTER_LIMIT as i128 || px > CENTER_LIMIT as i128 || py < -CENTER_LIMIT as i128 || py
        > CENTER_LIMIT as i128 {
        assert(!cc_exists(a, b, c));
        return None;
    }
    let pxs = px as i64;
    let pys = py as i64;
    let ghost cl: int = 0x200_0000_0000;
    proof {
        assert(cl * cl == 0x40000_0000_0000_0000_0000) by (nonlinear_arith)
            requires
                cl == 0x200_0000_0000,
        {
        }
    }
    let d2 = mul_i(px - ax, px - ax, Ghost(cl), Ghost(cl)) + mul_i(
        py - ay,
        py - ay,
        Ghost(cl),
        Ghost(cl),
    );
    proof {
        assert((px - ax) as int * ((px - ax) as int) >= 0) by (nonlinear_arith);
        assert((py - ay) as int * ((py - ay) as int) >= 0) by (nonlinear_arith);
    }
    let rad128 = isqrt(d2 as u128);
    let rad = rad128 as i64;
    proof {
        assert(d2 as u128 as int == d2 as int);
        assert(rad as int == rad128 as int);
        assert(d2 as int == (cc_x(a, b, c) - a.x) * (cc_x(a, b, c) - a.x) + (cc_y(a, b, c) - a.y)
            * (cc_y(a, b, c) - a.y));
        assert(rad as int == cc_radius(a, b, c));
    }
    Some((Point { x: pxs, y: pys }, rad))
}

/// The x-coordinate where the parabolas of a left site `l` and a right
/// site `r` (foci) intersect, for a horizontal directrix at sweep
/// position `d`: the breakpoint between two adjacent beachline arcs.
///
/// Equal-height foci meet at the (floored) midpoint of their
/// x-coordinates; a focus exactly on the directrix gives a degenerate
/// vertical-ray parabola whose breakpoint is that focus's x-coordinate.
/// Otherwise the quadratic obtained by equating the two parabolas is
/// solved, taking the root at which the left focus's arc lies to the left
/// of the right focus's arc.
pub open spec fn bp_x(l: Point, r: Point, d: int) -> int {
    if l.y == r.y {
        (l.x + r.x) / 2
    } else if l.y == d {
        l.x as int
    } else if r.y == d {
        r.x as int
    } else {
        let dl = l.y - d;
        let dr = r.y - d;
        let aa = dr - dl;
        let bb = dr * l.x - dl * r.x;
        let cc = dr * (l.x * l.x) - dl * (r.x * r.x) - dl * dr * (r.y - l.y);
        let disc = bb * bb - aa * cc;
        let s = sqrt_floor(if disc >= 0 { disc } else { 0 });
        quot_floor(bb - s, aa)
    }
}

/// Computes [`bp_x`] exactly in integer arithmetic (divisions and the
/// square root round toward negative infinity).
pub fn breakpoint_x(l: Point, r: Point, d: i64) -> (x: i64)
    requires
        coord_ok(l),
        coord_ok(r),
        -COORD_BOUND <= d <= COORD_BOUND,
    ensures
        x as int == bp_x(l, r, d as int),
{
    let lx = l.x as i128;
    let ly = l.y as i128;
    let rx = r.x as i128;
    let ry = r.y as i128;
    let dd = d as i128;
    if l.y == r.y {
        let m = div_flr(lx + rx, 2);
        return m as i64;
    }
    if l.y == d {
        return l.x;
    }
    if r.y == d {
        return r.x;
    }
    let ghost cb: int = COORD_BOUND as int;
    let dl = ly - dd;
    let dr = ry - dd;
    let aa = dr - dl;
    let bb = mul_i(dr, lx, Ghost(2 * cb), Ghost(cb)) - mul_i(dl, rx, Ghost(2 * cb), Ghost(cb));
    let lx2 = mul_i(lx, lx, Ghost(cb), Ghost(cb));
    let rx2 = mul_i(rx, rx, Ghost(cb), Ghost(cb));
    let dldr = mul_i(dl, dr, Ghost(2 * cb), Ghost(2 * cb));
    let cc = mul_i(dr, lx2, Ghost(2 * cb), Ghost(cb * cb)) - mul_i(
        dl,
        rx2,
        Ghost(2 * cb),
        Ghost(cb * cb),
    ) - mul_i(dldr, ry - ly, Ghost(4 * cb * cb), Ghost(2 * cb));
    let ghost bbb: int = 4 * cb * cb;
    let ghost ccb: int = 2 * cb * cb * cb + 2 * cb * cb * cb + 8 * cb * cb * cb;
    let disc = mul_i(bb, bb, Ghost(bbb), Ghost(bbb)) - mul_i(aa, cc, Ghost(4 * cb), Ghost(ccb));
    let disc_c: i128 = if disc >= 0 {
        disc
    } else {
        0
    };
    proof {
        assert(bbb * bbb + 4 * cb * ccb < 0x1000_0000_0000_0000_0000_0000_0000_0000)
            by (nonlinear_arith)
            requires
                cb == 1048576,
                bbb == 4 * cb * cb,
                ccb == 2 * cb * cb * cb + 2 * cb * cb * cb + 8 * cb * cb * cb,
        {
        }
    }
    let s = isqrt(disc_c as u128);
    let si = s as i128;
    let num = bb - si;
    let q = if aa > 0 {
        div_flr(num, aa)
    } else {
        div_flr(-num, -aa)
    };
    proof {
        assert(si as int == sqrt_floor(disc_c as int));
        assert(q as int == quot_floor(num as int, aa as int));
    }
    q as i64
}


/// The sign of [`cross3`]: positive when `a`, `b`, `c` make a left turn,
/// negative for a right turn, zero when collinear.
pub fn orientation(a: Point, b: Point, c: Point) -> (r: i32)
    requires
        coord_ok(a),
        coord_ok(b),
        coord_ok(c),
    ensures
        r == 1 ==> cross3(a, b, c) > 0,
        r == -1 ==> cross3(a, b, c) < 0,
        r == 0 ==> cross3(a, b, c) == 0,
        r == 1 || r == -1 || r == 0,
{
    let ghost cb: int = 2 * COORD_BOUND as int;
    proof {
        assert(cb * cb == 0x400_0000_0000) by (nonlinear_arith)
            requires
                cb == 2097152,
        {
        }
    }
    let x = mul_i(
        (b.x - a.x) as i128,
        (c.y - a.y) as i128,
        Ghost(cb),
        Ghost(cb),
    ) - mul_i((b.y - a.y) as i128, (c.x - a.x) as i128, Ghost(cb), Ghost(cb));
    if x > 0 {
        1
    } else if x < 0 {
        -1
    } else {
        0
    }
}


} // verus!
