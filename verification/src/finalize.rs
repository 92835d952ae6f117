//! Finalization of a construction: every in-progress edge whose far
//! endpoint was never fixed is clipped against the bounding rectangle,
//! each face is closed into a bounded polygon by walking the rectangle's
//! boundary (inserting corner vertices as they are passed), and the
//! half-edge mesh is emitted, with an outer ring of twins (carrying the
//! sentinel face handle) along the rectangle so that every half-edge has
//! a twin bounding a different face.

use vstd::prelude::*;

use crate::builder::check_vertices_in;
use crate::builder::rect_in_range;
use crate::builder::vertices_in_rect;
use crate::builder::EdgeRec;
use crate::builder::Rect;
use crate::diagram::check_diagram;
use crate::diagram::dcel_wf;
use crate::diagram::Diagram;
use crate::diagram::Face;
use crate::diagram::FaceId;
use crate::diagram::HalfEdge;
use crate::diagram::HalfEdgeId;
use crate::diagram::Point;
use crate::diagram::Vertex;
use crate::diagram::VertexId;
use crate::geometry::div_flr;
use crate::geometry::mul_i;

verus! {

/// A directed boundary piece of one face's polygon, oriented so the face
/// lies to its left. `has_rec` ties it to the in-progress edge it came
/// from (for twin linking); boundary pieces along the rectangle have no
/// record.
#[derive(Debug, Clone, Copy)]
struct FaceSeg {
    face: usize,
    p: Point,
    q: Point,
    rec: usize,
    has_rec: bool,
}

/// An in-progress edge clipped to the rectangle, with the two cells it
/// separates and their site positions.
#[derive(Debug, Clone, Copy)]
struct ClippedRec {
    fa: usize,
    fb: usize,
    pa: Point,
    pb: Point,
    p: Point,
    q: Point,
}

/// `a / b <= c / d` for positive denominators, compared exactly.
fn frac_le(an: i128, ad: i128, bn: i128, bd: i128) -> (r: bool)
    requires
        0 < ad <= 0x1_0000_0000_0000,
        0 < bd <= 0x1_0000_0000_0000,
        -0x1_0000_0000_0000 <= an <= 0x1_0000_0000_0000,
        -0x1_0000_0000_0000 <= bn <= 0x1_0000_0000_0000,
    ensures
        r == (an as int * bd as int <= bn as int * ad as int),
{
    let ghost m: int = 0x1_0000_0000_0000;
    let x = mul_i(an, bd, Ghost(m), Ghost(m));
    let y = mul_i(bn, ad, Ghost(m), Ghost(m));
    x <= y
}

/// Clips the parametric edge `base + t * (dx, dy)` to the rectangle,
/// over `t >= 0` (`seg == false`, a ray) or `0 <= t <= 1` (`seg == true`,
/// a segment). Returns the clipped endpoints in parameter order, exactly
/// on the rectangle where a side is the binding constraint; `None` when
/// nothing of the edge lies inside, when the direction is null, or when
/// a coordinate is out of the representable range.
#[verifier::loop_isolation(false)]
fn clip_param(rect: Rect, base: Point, dx: i64, dy: i64, seg: bool) -> (r: Option<(Point, Point)>)
    requires
        rect_in_range(rect),
        rect.width > 0,
        rect.height > 0,
    ensures
        r matches Some((p0, p1)) ==> p0 != p1,
{
    let lim: i64 = 0x200_0000_0000;
    if base.x < -lim || base.x > lim || base.y < -lim || base.y > lim {
        return None;
    }
    if dx < -lim || dx > lim || dy < -lim || dy > lim {
        return None;
    }
    if dx == 0 && dy == 0 {
        return None;
    }
    // The feasible t-interval [lo, hi] as exact fractions with positive
    // denominators; hi starts unbounded for a ray.
    let mut lon: i128 = 0;
    let mut lod: i128 = 1;
    let mut hin: i128 = 1;
    let mut hid: i128 = 1;
    let mut has_hi: bool = seg;
    let mut infeasible: bool = false;
    let mut axis: usize = 0;
    let ghost fm: int = 0x1_0000_0000_0000;
    while axis < 2
        invariant
            -0x1_0000_0000_0000 <= lon <= 0x1_0000_0000_0000,
            0 < lod <= 0x1_0000_0000_0000,
            -0x1_0000_0000_0000 <= hin <= 0x1_0000_0000_0000,
            0 < hid <= 0x1_0000_0000_0000,
        decreases 2 - axis,
    {
        let (val, dd, lob, hib) = if axis == 0 {
            (base.x as i128, dx as i128, rect.x as i128, (rect.x + rect.width) as i128)
        } else {
            (base.y as i128, dy as i128, rect.y as i128, (rect.y + rect.height) as i128)
        };
        if dd == 0 {
            if val < lob || val > hib {
                infeasible = true;
            }
        } else {
            // Constraints lob <= val + t*dd <= hib, normalized so the
            // divisor is positive.
            let (raise_n, raise_d, lower_n, lower_d) = if dd > 0 {
                (lob - val, dd, hib - val, dd)
            } else {
                (val - hib, -dd, val - lob, -dd)
            };
            // raise lo to raise_n/raise_d if larger
            if !frac_le(raise_n, raise_d, lon, lod) {
                lon = raise_n;
                lod = raise_d;
            }
            // lower hi to lower_n/lower_d if smaller
            if !has_hi || !frac_le(hin, hid, lower_n, lower_d) {
                hin = lower_n;
                hid = lower_d;
                has_hi = true;
            }
        }
        axis += 1;
    }
    if infeasible || !has_hi {
        return None;
    }
    if !frac_le(lon, lod, hin, hid) {
        return None;
    }
    if lon < 0 {
        // the parameter range starts at the base point itself
        lon = 0;
        lod = 1;
    }
    let p0 = if lon == 0 {
        base
    } else {
        let x = (base.x as i128) + div_flr(mul_i(dx as i128, lon, Ghost(fm), Ghost(fm)), lod);
        let y = (base.y as i128) + div_flr(mul_i(dy as i128, lon, Ghost(fm), Ghost(fm)), lod);
        if x < -(lim as i128) || x > lim as i128 || y < -(lim as i128) || y > lim as i128 {
            return None;
        }
        Point { x: x as i64, y: y as i64 }
    };
    let x1 = (base.x as i128) + div_flr(mul_i(dx as i128, hin, Ghost(fm), Ghost(fm)), hid);
    let y1 = (base.y as i128) + div_flr(mul_i(dy as i128, hin, Ghost(fm), Ghost(fm)), hid);
    if x1 < -(lim as i128) || x1 > lim as i128 || y1 < -(lim as i128) || y1 > lim as i128 {
        return None;
    }
    let p1 = Point { x: x1 as i64, y: y1 as i64 };
    if p0.x == p1.x && p0.y == p1.y {
        return None;
    }
    Some((p0, p1))
}

/// The ray direction along the bisector of `pa` and `pb`, away from the
/// third site `third` of the circle that fixed the edge's known
/// endpoint: the perpendicular of `pb - pa` whose half of the bisector
/// moves away from `third`'s cell.
fn ray_dir(pa: Point, pb: Point, third: Point) -> (r: Option<(i64, i64)>)
    ensures
        r matches Some((dx, dy)) ==> dx * (pb.x - pa.x) + dy * (pb.y - pa.y) == 0 && dx * (pa.x
            - third.x) + dy * (pa.y - third.y) > 0 && !(dx == 0 && dy == 0),
{
    let lim: i64 = 0x200_0000;
    if pa.x < -lim || pa.x > lim || pa.y < -lim || pa.y > lim {
        return None;
    }
    if pb.x < -lim || pb.x > lim || pb.y < -lim || pb.y > lim {
        return None;
    }
    if third.x < -lim || third.x > lim || third.y < -lim || third.y > lim {
        return None;
    }
    let px = -(pb.y - pa.y);
    let py = pb.x - pa.x;
    if px == 0 && py == 0 {
        return None;  // coincident sites have no bisector
    }
    let ghost m: int = 0x800_0000;
    let dot = mul_i(px as i128, (pa.x - third.x) as i128, Ghost(m), Ghost(m)) + mul_i(
        py as i128,
        (pa.y - third.y) as i128,
        Ghost(m),
        Ghost(m),
    );
    proof {
        assert((px as int) * (pb.x - pa.x) + (py as int) * (pb.y - pa.y) == 0)
            by (nonlinear_arith)
            requires
                px as int == -((pb.y - pa.y) as int),
                py as int == (pb.x - pa.x) as int,
        {
        }
    }
    if dot > 0 {
        Some((px, py))
    } else if dot < 0 {
        proof {
            assert(((-px) as int) * ((pb.x - pa.x) as int) + ((-py) as int) * ((pb.y
                - pa.y) as int) == 0 && ((-px) as int) * ((pa.x - third.x) as int) + ((-py) as int)
                * ((pa.y - third.y) as int) > 0) by (nonlinear_arith)
                requires
                    (px as int) * ((pb.x - pa.x) as int) + (py as int) * ((pb.y - pa.y) as int)
                        == 0,
                    (px as int) * ((pa.x - third.x) as int) + (py as int) * ((pa.y
                        - third.y) as int) < 0,
                    -0x400_0000 <= px as int <= 0x400_0000,
                    -0x400_0000 <= py as int <= 0x400_0000,
            {
            }
        }
        Some((-px, -py))
    } else {
        None
    }
}

/// Clips one in-progress edge to the rectangle: a segment when both
/// endpoints were fixed, a ray from one fixed endpoint, or the whole
/// perpendicular bisector of the two sites when no circle event ever
/// bounded it.
fn clip_rec(rect: Rect, rec: &EdgeRec) -> (r: Option<(Point, Point)>)
    requires
        rect_in_range(rect),
        rect.width > 0,
        rect.height > 0,
    ensures
        r matches Some((p0, p1)) ==> p0 != p1,
{
    let lim: i64 = 0x200_0000;
    if rec.pa.x < -lim || rec.pa.x > lim || rec.pa.y < -lim || rec.pa.y > lim {
        return None;
    }
    if rec.pb.x < -lim || rec.pb.x > lim || rec.pb.y < -lim || rec.pb.y > lim {
        return None;
    }
    match (rec.a, rec.b) {
        (Some(a), Some(b)) => {
            let dlim: i64 = 0x400_0000_0000;
            if a.x < -dlim || a.x > dlim || a.y < -dlim || a.y > dlim {
                return None;
            }
            if b.x < -dlim || b.x > dlim || b.y < -dlim || b.y > dlim {
                return None;
            }
            clip_param(rect, a, b.x - a.x, b.y - a.y, true)
        },
        (Some(a), None) => {
            match ray_dir(rec.pa, rec.pb, rec.ta) {
                Some((dx, dy)) => clip_param(rect, a, dx, dy, false),
                None => None,
            }
        },
        (None, Some(b)) => {
            match ray_dir(rec.pa, rec.pb, rec.tb) {
                Some((dx, dy)) => clip_param(rect, b, dx, dy, false),
                None => None,
            }
        },
        (None, None) => {
            // The whole bisector: two rays from the (floored) midpoint.
            let mx = div_flr((rec.pa.x + rec.pb.x) as i128, 2) as i64;
            let my = div_flr((rec.pa.y + rec.pb.y) as i128, 2) as i64;
            let m = Point { x: mx, y: my };
            let px = -(rec.pb.y - rec.pa.y);
            let py = rec.pb.x - rec.pa.x;
            if px == 0 && py == 0 {
                return None;
            }
            let fwd = clip_param(rect, m, px, py, false);
            let bwd = clip_param(rect, m, -px, -py, false);
            match (fwd, bwd) {
                (Some((_, e1)), Some((_, e2))) => {
                    if e1.x == e2.x && e1.y == e2.y {
                        None
                    } else {
                        Some((e2, e1))
                    }
                },
                (Some(x), None) => Some(x),
                (None, Some(x)) => Some(x),
                (None, None) => None,
            }
        },
    }
}

/// The sign of the cross product `(q - p) x (s - p)`: positive when `s`
/// lies to the left of the directed line `p -> q`. Zero also stands for
/// coordinates outside the representable range.
fn cross_sign(p: Point, q: Point, s: Point) -> (r: i32)
    ensures
        r == 1 ==> (q.x - p.x) * (s.y - p.y) - (q.y - p.y) * (s.x - p.x) > 0,
        r == -1 ==> (q.x - p.x) * (s.y - p.y) - (q.y - p.y) * (s.x - p.x) < 0,
        r == 0 ==> (q.x - p.x) * (s.y - p.y) - (q.y - p.y) * (s.x - p.x) == 0 || !(-0x200_0000_0000
            <= p.x <= 0x200_0000_0000 && -0x200_0000_0000 <= p.y <= 0x200_0000_0000
            && -0x200_0000_0000 <= q.x <= 0x200_0000_0000 && -0x200_0000_0000 <= q.y
            <= 0x200_0000_0000 && -0x200_0000_0000 <= s.x <= 0x200_0000_0000 && -0x200_0000_0000
            <= s.y <= 0x200_0000_0000),
        r == 1 || r == -1 || r == 0,
{
    let lim: i64 = 0x200_0000_0000;
    if p.x < -lim || p.x > lim || p.y < -lim || p.y > lim {
        return 0;
    }
    if q.x < -lim || q.x > lim || q.y < -lim || q.y > lim {
        return 0;
    }
    if s.x < -lim || s.x > lim || s.y < -lim || s.y > lim {
        return 0;
    }
    let ghost m: int = 0x400_0000_0000;
    let c = mul_i(
        (q.x - p.x) as i128,
        (s.y - p.y) as i128,
        Ghost(m),
        Ghost(m),
    ) - mul_i((q.y - p.y) as i128, (s.x - p.x) as i128, Ghost(m), Ghost(m));
    if c > 0 {
        1
    } else if c < 0 {
        -1
    } else {
        0
    }
}

/// The counterclockwise perimeter position of a boundary point,
/// measured from the rectangle's lower-left corner; `None` when the
/// point is not on the boundary.
fn perim_t(rect: Rect, p: Point) -> (r: Option<i64>)
    requires
        rect_in_range(rect),
        rect.width > 0,
        rect.height > 0,
    ensures
        r matches Some(t) ==> 0 <= t < 2 * (rect.width + rect.height),
{
    let x1 = rect.x + rect.width;
    let y1 = rect.y + rect.height;
    if p.y == rect.y && rect.x <= p.x && p.x <= x1 {
        Some(p.x - rect.x)
    } else if p.x == x1 && rect.y <= p.y && p.y <= y1 {
        Some(rect.width + (p.y - rect.y))
    } else if p.y == y1 && rect.x <= p.x && p.x <= x1 {
        Some(rect.width + rect.height + (x1 - p.x))
    } else if p.x == rect.x && rect.y <= p.y && p.y <= y1 {
        Some(rect.width + rect.height + rect.width + (y1 - p.y))
    } else {
        None
    }
}

/// Counterclockwise distance from perimeter position `from` to `to`
/// (a full loop when they coincide).
fn perim_delta(from: i64, to: i64, perim: i64) -> (r: i64)
    requires
        0 <= from < perim,
        0 <= to < perim,
        0 < perim <= 0x800_0000,
    ensures
        0 < r <= perim,
{
    if to > from {
        to - from
    } else {
        to + perim - from
    }
}


/// Returns the index of a vertex with position `p`, creating it (with
/// `he` as its incident half-edge) when it is new; `None` when the
/// vertex table would grow beyond the representable range.
fn vid_for(verts: &mut Vec<Point>, inc: &mut Vec<u32>, p: Point, he: u32) -> (r: Option<usize>)
    requires
        old(verts)@.len() == old(inc)@.len(),
        old(verts)@.len() <= 0x1000_0000,
    ensures
        final(verts)@.len() == final(inc)@.len(),
        final(verts)@.len() <= 0x1000_0000,
        r matches Some(v) ==> v < final(verts)@.len(),
{
    let n = verts.len();
    let mut i: usize = 0;
    while i < n
        invariant
            n == verts@.len(),
            verts@.len() == inc@.len(),
            verts@.len() <= 0x1000_0000,
            i <= n,
        decreases n - i,
    {
        if verts[i].x == p.x && verts[i].y == p.y {
            return Some(i);
        }
        i += 1;
    }
    if n >= 0x1000_0000 {
        return None;
    }
    verts.push(p);
    inc.push(he);
    Some(n)
}

/// The four boundary pieces of the whole rectangle, counterclockwise:
/// the cell of the only site when nothing else bounds it.
fn corner_cycle(rect: Rect, f: usize) -> (r: Vec<FaceSeg>)
    requires
        rect_in_range(rect),
        rect.width > 0,
        rect.height > 0,
    ensures
        r@.len() == 4,
        forall|i: int| 0 <= i < 4 ==> (#[trigger] r@[i]).face == f && !r@[i].has_rec,
{
    let x1 = rect.x + rect.width;
    let y1 = rect.y + rect.height;
    let c0 = Point { x: rect.x, y: rect.y };
    let c1 = Point { x: x1, y: rect.y };
    let c2 = Point { x: x1, y: y1 };
    let c3 = Point { x: rect.x, y: y1 };
    let mut v: Vec<FaceSeg> = Vec::new();
    v.push(FaceSeg { face: f, p: c0, q: c1, rec: 0, has_rec: false });
    v.push(FaceSeg { face: f, p: c1, q: c2, rec: 0, has_rec: false });
    v.push(FaceSeg { face: f, p: c2, q: c3, rec: 0, has_rec: false });
    v.push(FaceSeg { face: f, p: c3, q: c0, rec: 0, has_rec: false });
    v
}

/// Assembles the boundary cycle of face `f`, starting from segment
/// `start`: repeatedly follows a segment whose start matches the current
/// endpoint, and where none matches, walks counterclockwise along the
/// rectangle's boundary to the nearest segment start (or back to the
/// cycle's first point), inserting the corners passed on the way.
/// `None` on any internal inconsistency.
fn build_cycle(
    rect: Rect,
    segs: &Vec<FaceSeg>,
    used: &mut Vec<bool>,
    start: usize,
    f: usize,
) -> (r: Option<Vec<FaceSeg>>)
    requires
        rect_in_range(rect),
        rect.width > 0,
        rect.height > 0,
        old(used)@.len() == segs@.len(),
        start < segs@.len(),
    ensures
        final(used)@.len() == segs@.len(),
{
    let n = segs.len();
    if n > 0x0FFF_FFFF {
        return None;
    }
    let perim = 2 * (rect.width + rect.height);
    let t_c0: i64 = 0;
    let t_c1: i64 = rect.width;
    let t_c2: i64 = rect.width + rect.height;
    let t_c3: i64 = rect.width + rect.height + rect.width;
    let x1 = rect.x + rect.width;
    let y1 = rect.y + rect.height;
    let c0 = Point { x: rect.x, y: rect.y };
    let c1 = Point { x: x1, y: rect.y };
    let c2 = Point { x: x1, y: y1 };
    let c3 = Point { x: rect.x, y: y1 };
    let mut chain: Vec<FaceSeg> = Vec::new();
    chain.push(segs[start]);
    used.set(start, true);
    let first_p = segs[start].p;
    let mut cur = segs[start].q;
    let mut fuel: usize = 8 * n + 16;
    while fuel > 0
        invariant
            used@.len() == segs@.len(),
            n == segs@.len(),
            n <= 0x0FFF_FFFF,
            rect_in_range(rect),
            rect.width > 0,
            rect.height > 0,
            perim == 2 * (rect.width + rect.height),
            0 < perim <= 0x800_0000,
            t_c0 == 0,
            t_c1 == rect.width,
            t_c2 == rect.width + rect.height,
            t_c3 == 2 * rect.width + rect.height,
        decreases fuel,
    {
        fuel -= 1;
        if cur.x == first_p.x && cur.y == first_p.y {
            return Some(chain);
        }
        // an unused segment of this face starting exactly here?
        let mut found: bool = false;
        let mut j: usize = 0;
        while j < n && !found
            invariant
                used@.len() == segs@.len(),
                n == segs@.len(),
                j <= n,
                found ==> j < n,
            decreases n - j, (if found { 0int } else { 1int }),
        {
            if !used[j] && segs[j].face == f && segs[j].p.x == cur.x && segs[j].p.y == cur.y {
                found = true;
            } else {
                j += 1;
            }
        }
        if found {
            chain.push(segs[j]);
            used.set(j, true);
            cur = segs[j].q;
            continue ;
        }
        // walk the boundary: the current endpoint must be on it
        let tc = match perim_t(rect, cur) {
            Some(t) => t,
            None => {
                return None;
            },
        };
        let mut best_d: i64 = perim + 1;
        let mut best_p: Point = c0;
        // the chain's own first point closes the cycle
        match perim_t(rect, first_p) {
            Some(t) => {
                let dl = perim_delta(tc, t, perim);
                if dl < best_d {
                    best_d = dl;
                    best_p = first_p;
                }
            },
            None => {},
        }
        // starts of unused segments of this face
        let mut k: usize = 0;
        while k < n
            invariant
                used@.len() == segs@.len(),
                n == segs@.len(),
                k <= n,
                rect_in_range(rect),
                rect.width > 0,
                rect.height > 0,
                perim == 2 * (rect.width + rect.height),
                0 <= tc < perim,
            decreases n - k,
        {
            if !used[k] && segs[k].face == f {
                match perim_t(rect, segs[k].p) {
                    Some(t) => {
                        let dl = perim_delta(tc, t, perim);
                        if dl < best_d {
                            best_d = dl;
                            best_p = segs[k].p;
                        }
                    },
                    None => {},
                }
            }
            k += 1;
        }
        // the rectangle's corners
        let dl0 = perim_delta(tc, t_c0, perim);
        if dl0 < best_d {
            best_d = dl0;
            best_p = c0;
        }
        let dl1 = perim_delta(tc, t_c1, perim);
        if dl1 < best_d {
            best_d = dl1;
            best_p = c1;
        }
        let dl2 = perim_delta(tc, t_c2, perim);
        if dl2 < best_d {
            best_d = dl2;
            best_p = c2;
        }
        let dl3 = perim_delta(tc, t_c3, perim);
        if dl3 < best_d {
            best_d = dl3;
            best_p = c3;
        }
        if best_d > perim {
            return None;
        }
        chain.push(FaceSeg { face: f, p: cur, q: best_p, rec: 0, has_rec: false });
        cur = best_p;
    }
    None
}

/// Builds the finished diagram from the in-progress edges once the event
/// queue is empty: clips every edge, orients each clipped piece so its
/// face lies to the left, closes all `nfaces` face cycles along the
/// rectangle, links twins (with an outer ring carrying the sentinel face
/// handle along the rectangle), and records one face per site. The mesh
/// is checked before it is returned: a `Some` diagram has exactly
/// `nfaces` faces, is a well-formed DCEL, and keeps every vertex inside
/// the rectangle; on any internal inconsistency the result is `None`,
/// never an unchecked mesh.
pub(crate) fn finalize(rect: Rect, nfaces: usize, recs: &Vec<EdgeRec>) -> (r: Option<Diagram>)
    requires
        rect_in_range(rect),
        rect.width > 0,
        rect.height > 0,
        1 <= nfaces,
    ensures
        r matches Some(d) ==> d.faces@.len() == nfaces as int && dcel_wf(d) && vertices_in_rect(
            d,
            rect,
        ),
{
    if nfaces > 0xFFFF {
        return None;
    }
    // clip every record to the rectangle
    let mut clipped: Vec<ClippedRec> = Vec::new();
    let nr = recs.len();
    let mut i: usize = 0;
    while i < nr
        invariant
            nr == recs@.len(),
            i <= nr,
            rect_in_range(rect),
            rect.width > 0,
            rect.height > 0,
        decreases nr - i,
    {
        let rec = recs[i];
        if rec.fa >= nfaces || rec.fb >= nfaces || rec.fa == rec.fb {
            return None;
        }
        match clip_rec(rect, &rec) {
            Some((p, q)) => {
                clipped.push(
                    ClippedRec { fa: rec.fa, fb: rec.fb, pa: rec.pa, pb: rec.pb, p, q },
                );
            },
            None => {},
        }
        i += 1;
    }
    if clipped.len() > 0xFFFF {
        return None;
    }
    // orient each clipped edge for both of its faces
    let mut segs: Vec<FaceSeg> = Vec::new();
    let nc = clipped.len();
    let mut k: usize = 0;
    while k < nc
        invariant
            nc == clipped@.len(),
            k <= nc,
        decreases nc - k,
    {
        let c = clipped[k];
        let s = cross_sign(c.p, c.q, c.pa);
        if s > 0 {
            segs.push(FaceSeg { face: c.fa, p: c.p, q: c.q, rec: k, has_rec: true });
            segs.push(FaceSeg { face: c.fb, p: c.q, q: c.p, rec: k, has_rec: true });
        } else if s < 0 {
            segs.push(FaceSeg { face: c.fa, p: c.q, q: c.p, rec: k, has_rec: true });
            segs.push(FaceSeg { face: c.fb, p: c.p, q: c.q, rec: k, has_rec: true });
        }
        // a site exactly on its own edge's line is degenerate: dropped
        k += 1;
    }
    let ns = segs.len();
    let mut used: Vec<bool> = Vec::new();
    let mut u: usize = 0;
    while u < ns
        invariant
            u <= ns,
            used@.len() == u as int,
        decreases ns - u,
    {
        used.push(false);
        u += 1;
    }
    // per-record half-edge slots for twin linking
    let sent: u32 = 0xFFFF_FFFF;
    let mut rec_a: Vec<u32> = Vec::new();
    let mut rec_b: Vec<u32> = Vec::new();
    let mut w: usize = 0;
    while w < nc
        invariant
            w <= nc,
            rec_a@.len() == w as int,
            rec_b@.len() == w as int,
        decreases nc - w,
    {
        rec_a.push(sent);
        rec_b.push(sent);
        w += 1;
    }
    // close every face's cycle and emit its half-edges
    let mut verts: Vec<Point> = Vec::new();
    let mut inc: Vec<u32> = Vec::new();
    let mut hes: Vec<HalfEdge> = Vec::new();
    let mut faces: Vec<Face> = Vec::new();
    let mut bnd_he: Vec<usize> = Vec::new();
    let mut bnd_p: Vec<Point> = Vec::new();
    let mut bnd_q: Vec<Point> = Vec::new();
    let mut f: usize = 0;
    while f < nfaces
        invariant
            faces@.len() == f as int,
            f <= nfaces,
            nfaces <= 0xFFFF,
            ns == segs@.len(),
            used@.len() == ns as int,
            verts@.len() == inc@.len(),
            verts@.len() <= 0x1000_0000,
            rec_a@.len() == nc as int,
            rec_b@.len() == nc as int,
            bnd_he@.len() == bnd_p@.len(),
            bnd_p@.len() == bnd_q@.len(),
            rect_in_range(rect),
            rect.width > 0,
            rect.height > 0,
        decreases nfaces - f,
    {
        // find a starting segment of this face
        let mut start: usize = 0;
        let mut have_start: bool = false;
        let mut j: usize = 0;
        while j < ns && !have_start
            invariant
                ns == segs@.len(),
                used@.len() == ns as int,
                j <= ns,
                have_start ==> start < ns,
            decreases ns - j, (if have_start { 0int } else { 1int }),
        {
            if !used[j] && segs[j].face == f {
                start = j;
                have_start = true;
            } else {
                j += 1;
            }
        }
        let chain: Vec<FaceSeg> = if have_start {
            match build_cycle(rect, &segs, &mut used, start, f) {
                Some(c) => c,
                None => {
                    return None;
                },
            }
        } else {
            if nfaces != 1 {
                // a face with no edges: a dominated or coincident site
                return None;
            }
            corner_cycle(rect, f)
        };
        let clen = chain.len();
        if clen == 0 {
            return None;
        }
        let base = hes.len();
        if base > 0x0FFF_FFFF || clen > 0x0FFF_FFFF {
            return None;
        }
        let mut ci: usize = 0;
        while ci < clen
            invariant
                clen == chain@.len(),
                ci <= clen,
                base + clen <= 0x1FFF_FFFF,
                hes@.len() == base + ci,
                verts@.len() == inc@.len(),
                verts@.len() <= 0x1000_0000,
                ns == segs@.len(),
                used@.len() == ns as int,
                rec_a@.len() == nc as int,
                rec_b@.len() == nc as int,
                bnd_he@.len() == bnd_p@.len(),
                bnd_p@.len() == bnd_q@.len(),
                f < nfaces,
                nfaces <= 0xFFFF,
            decreases clen - ci,
        {
            let seg = chain[ci];
            let heid = base + ci;
            let v = match vid_for(&mut verts, &mut inc, seg.p, heid as u32) {
                Some(v) => v,
                None => {
                    return None;
                },
            };
            let nx = base + (if ci + 1 == clen {
                0
            } else {
                ci + 1
            });
            let pv = base + (if ci == 0 {
                clen - 1
            } else {
                ci - 1
            });
            hes.push(
                HalfEdge {
                    origin: VertexId::new(v as u32),
                    twin: HalfEdgeId::new(sent),
                    incident_face: FaceId::new(f as u32),
                    next: HalfEdgeId::new(nx as u32),
                    prev: HalfEdgeId::new(pv as u32),
                },
            );
            if seg.has_rec {
                if seg.rec >= nc {
                    return None;
                }
                if rec_a[seg.rec] == sent {
                    rec_a.set(seg.rec, heid as u32);
                } else if rec_b[seg.rec] == sent {
                    rec_b.set(seg.rec, heid as u32);
                } else {
                    return None;
                }
            } else {
                bnd_he.push(heid);
                bnd_p.push(seg.p);
                bnd_q.push(seg.q);
            }
            ci += 1;
        }
        faces.push(Face { first_halfedge: HalfEdgeId::new(base as u32) });
        f += 1;
    }
    // twin links of the interior edges
    let mut t: usize = 0;
    while t < nc
        invariant
            t <= nc,
            rec_a@.len() == nc as int,
            rec_b@.len() == nc as int,
        decreases nc - t,
    {
        let a = rec_a[t];
        let b = rec_b[t];
        if a != sent || b != sent {
            if a == sent || b == sent {
                return None;  // an interior edge seen from only one face
            }
            let au = a as usize;
            let bu = b as usize;
            if au >= hes.len() || bu >= hes.len() {
                return None;
            }
            let mut ha = hes[au];
            ha.twin = HalfEdgeId::new(b);
            hes.set(au, ha);
            let mut hb = hes[bu];
            hb.twin = HalfEdgeId::new(a);
            hes.set(bu, hb);
        }
        t += 1;
    }
    // outer ring: the reversed boundary pieces, carrying the sentinel
    // face handle, so every half-edge has a twin in a different face
    let nb = bnd_he.len();
    let mut outer: Vec<usize> = Vec::new();
    let mut o: usize = 0;
    while o < nb
        invariant
            o <= nb,
            nb == bnd_he@.len(),
            bnd_he@.len() == bnd_p@.len(),
            bnd_p@.len() == bnd_q@.len(),
            outer@.len() == o as int,
            verts@.len() == inc@.len(),
            verts@.len() <= 0x1000_0000,
            nfaces <= 0xFFFF,
        decreases nb - o,
    {
        let oid = hes.len();
        if oid > 0x1FFF_FFFF {
            return None;
        }
        let inner = bnd_he[o];
        if inner >= hes.len() {
            return None;
        }
        let v = match vid_for(&mut verts, &mut inc, bnd_q[o], oid as u32) {
            Some(v) => v,
            None => {
                return None;
            },
        };
        hes.push(
            HalfEdge {
                origin: VertexId::new(v as u32),
                twin: HalfEdgeId::new(inner as u32),
                incident_face: FaceId::new(nfaces as u32),
                next: HalfEdgeId::new(sent),
                prev: HalfEdgeId::new(sent),
            },
        );
        let mut hi = hes[inner];
        hi.twin = HalfEdgeId::new(oid as u32);
        hes.set(inner, hi);
        outer.push(oid);
        o += 1;
    }
    // outer ring adjacency: the outer edge after `i` starts at `i`'s
    // inner start point, i.e. its boundary piece ends there
    let mut x: usize = 0;
    while x < nb
        invariant
            x <= nb,
            nb == bnd_he@.len(),
            bnd_he@.len() == bnd_p@.len(),
            bnd_p@.len() == bnd_q@.len(),
            outer@.len() == nb as int,
        decreases nb - x,
    {
        let px = bnd_p[x];
        let mut y: usize = 0;
        let mut found: bool = false;
        while y < nb && !found
            invariant
                y <= nb,
                nb == bnd_he@.len(),
                bnd_he@.len() == bnd_p@.len(),
                bnd_p@.len() == bnd_q@.len(),
                found ==> y < nb,
            decreases nb - y, (if found { 0int } else { 1int }),
        {
            if bnd_q[y].x == px.x && bnd_q[y].y == px.y {
                found = true;
            } else {
                y += 1;
            }
        }
        if !found {
            return None;
        }
        let ox = outer[x];
        let oy = outer[y];
        if ox >= hes.len() || oy >= hes.len() || ox > 0x1FFF_FFFF || oy > 0x1FFF_FFFF {
            return None;
        }
        let mut hx = hes[ox];
        hx.next = HalfEdgeId::new(oy as u32);
        hes.set(ox, hx);
        let mut hy = hes[oy];
        hy.prev = HalfEdgeId::new(ox as u32);
        hes.set(oy, hy);
        x += 1;
    }
    // assemble the vertex table
    let mut vertices: Vec<Vertex> = Vec::new();
    let nv = verts.len();
    let mut vi: usize = 0;
    while vi < nv
        invariant
            vi <= nv,
            nv == verts@.len(),
            verts@.len() == inc@.len(),
        decreases nv - vi,
    {
        vertices.push(Vertex { coordinates: verts[vi], incident_edge: HalfEdgeId::new(inc[vi]) });
        vi += 1;
    }
    let d = Diagram { vertices, halfedges: hes, faces };
    // Fail loudly rather than hand out a mesh that violates the DCEL
    // contract or strays outside the rectangle.
    if !check_diagram(&d) {
        return None;
    }
    if !check_vertices_in(&d, rect) {
        return None;
    }
    Some(d)
}

} // verus!
