//! The orchestrator: seeds the event queue, runs the sweep-line event
//! loop over the beachline, and materializes the diagram.
//!
//! Internal invariant violations are programming errors, not input
//! errors: the builder fails loudly with [`BuildError::InternalInvariant`]
//! instead of returning a mesh it could not prove well-formed — the
//! finished mesh is re-checked by [`crate::diagram::check_diagram`]
//! before it is returned.

use vstd::prelude::*;

use crate::beachline::Arc;
use crate::beachline::Beachline;
use crate::diagram::count_face;
use crate::diagram::dcel_wf;
use crate::diagram::edge_ok;
use crate::diagram::face_edge_count;
use crate::diagram::face_ok;
use crate::diagram::idx_ok;
use crate::diagram::next_pow;
use crate::diagram::vertex_ok;
use crate::diagram::Diagram;
use crate::diagram::Face;
use crate::diagram::FaceId;
use crate::diagram::HalfEdge;
use crate::diagram::HalfEdgeId;
use crate::diagram::Vertex;
use crate::diagram::VertexId;
use crate::diagram::Point;
use crate::events::Event;
use crate::events::EventQueue;
use crate::geometry::bp_x;
use crate::geometry::coord_ok;
use crate::geometry::mul_i;
use crate::geometry::COORD_BOUND;

verus! {

/// The bounding rectangle of a construction: position and size.
#[derive(Debug, Clone, Copy, PartialEq, Eq, Structural)]
pub struct Rect {
    pub x: i64,
    pub y: i64,
    pub width: i64,
    pub height: i64,
}

/// Why a construction failed.
#[derive(Debug, Clone, Copy, PartialEq, Eq, Structural)]
pub enum BuildError {
    /// The bounding rectangle has non-positive width or height.
    InvalidBounds,
    /// An internal invariant of the construction did not hold; the
    /// builder refuses to return a mesh it could not check.
    InternalInvariant,
}

/// A site lies strictly inside the bounding rectangle; sites on or
/// outside the boundary are excluded from the construction.
pub open spec fn site_inside(p: Point, rect: Rect) -> bool {
    rect.x < p.x < rect.x + rect.width && rect.y < p.y < rect.y + rect.height
}

/// The number of the first `n` sites that lie strictly inside `rect`.
pub open spec fn count_inside_prefix(sites: Seq<Point>, rect: Rect, n: nat) -> int
    decreases n,
{
    if n == 0 {
        0
    } else {
        count_inside_prefix(sites, rect, (n - 1) as nat) + if site_inside(sites[n - 1], rect) {
            1int
        } else {
            0int
        }
    }
}

/// The number of sites that lie strictly inside `rect`.
pub open spec fn count_inside(sites: Seq<Point>, rect: Rect) -> int {
    count_inside_prefix(sites, rect, sites.len())
}

/// The rectangle's coordinates admit exact predicate evaluation.
pub open spec fn rect_in_range(rect: Rect) -> bool {
    &&& -COORD_BOUND <= rect.x
    &&& -COORD_BOUND <= rect.y
    &&& rect.x + rect.width <= COORD_BOUND
    &&& rect.y + rect.height <= COORD_BOUND
    &&& rect.width <= COORD_BOUND
    &&& rect.height <= COORD_BOUND
}

/// The point lies exactly on the rectangle's boundary.
pub open spec fn on_rect_boundary(p: Point, rect: Rect) -> bool {
    &&& rect.x <= p.x <= rect.x + rect.width
    &&& rect.y <= p.y <= rect.y + rect.height
    &&& (p.x == rect.x || p.x == rect.x + rect.width || p.y == rect.y || p.y == rect.y
        + rect.height)
}

/// The subsequence of `sites`'s first `n` entries that lie strictly
/// inside the rectangle, in input order.
pub open spec fn inside_sites_prefix(sites: Seq<Point>, rect: Rect, n: nat) -> Seq<Point>
    decreases n,
{
    if n == 0 {
        Seq::empty()
    } else {
        let pre = inside_sites_prefix(sites, rect, (n - 1) as nat);
        if site_inside(sites[n - 1], rect) {
            pre.push(sites[n - 1])
        } else {
            pre
        }
    }
}

/// The accepted sites: those strictly inside the rectangle, in input
/// order.
pub open spec fn inside_sites(sites: Seq<Point>, rect: Rect) -> Seq<Point> {
    inside_sites_prefix(sites, rect, sites.len())
}

/// `p` is the rounded circumcenter of the three points `a`, `b`, `c`.
#[verifier::opaque]
pub open spec fn center_match(p: Point, a: Point, b: Point, c: Point) -> bool {
    &&& crate::geometry::cc_exists(a, b, c)
    &&& crate::geometry::cc_x(a, b, c) == p.x
    &&& crate::geometry::cc_y(a, b, c) == p.y
}

/// `p` is the rounded circumcenter of some triple of accepted sites.
pub open spec fn vertex_is_circumcenter(p: Point, acc: Seq<Point>) -> bool {
    exists|i: int, j: int, k: int|
        0 <= i < j < k < acc.len() && #[trigger] center_match(p, acc[i], acc[j], acc[k])
}

/// Every vertex of the diagram lies exactly on the rectangle's boundary
/// (a clipped ray end or a corner) or is the rounded circumcenter of
/// three accepted sites (a realized circle event).
pub open spec fn vertices_explained(d: Diagram, rect: Rect, acc: Seq<Point>) -> bool {
    forall|v: int|
        0 <= v < d.vertices@.len() ==> on_rect_boundary(
            (#[trigger] d.vertices@[v]).coordinates,
            rect,
        ) || vertex_is_circumcenter(d.vertices@[v].coordinates, acc)
}

/// Rounding slack for a point that should lie on the bisector of `a`
/// and `b`: the construction stores floored circumcenters and floored
/// clip points, each within about 2.5 units of the exact bisector, and a
/// point at perpendicular distance `t` from it has squared-distance
/// difference `2 t |a - b|`; `8 (|a - b| + 2)` covers that with room.
pub open spec fn bisector_slack(a: Point, b: Point) -> int {
    8 * (crate::geometry::sqrt_floor(crate::geometry::dist2(a, b)) + 2)
}

/// `v` is equidistant from `a` and `b` up to the rounding slack: it lies
/// on their bisector as exactly as floored coordinates allow.
pub open spec fn near_bisector(v: Point, a: Point, b: Point) -> bool {
    -bisector_slack(a, b) <= crate::geometry::dist2(v, a) - crate::geometry::dist2(v, b)
        <= bisector_slack(a, b)
}

/// Every interior half-edge — one whose own face and whose twin's face
/// are both site faces — starts at a vertex on the bisector of those two
/// sites, up to rounding ([`near_bisector`]).
pub open spec fn edges_on_bisectors(d: Diagram, acc: Seq<Point>) -> bool {
    forall|e: int|
        0 <= e < d.halfedges@.len() ==> {
            let he = #[trigger] d.halfedges@[e];
            (0 <= he.twin@ < d.halfedges@.len() && 0 <= he.incident_face@ < acc.len() && 0
                <= d.halfedges@[he.twin@].incident_face@ < acc.len() && 0 <= he.origin@
                < d.vertices@.len()) ==> near_bisector(
                d.vertices@[he.origin@].coordinates,
                acc[he.incident_face@],
                acc[d.halfedges@[he.twin@].incident_face@],
            )
        }
}

/// Every vertex of the diagram lies on or inside the rectangle.
pub open spec fn vertices_in_rect(d: Diagram, rect: Rect) -> bool {
    forall|v: int|
        0 <= v < d.vertices@.len() ==> {
            let p = (#[trigger] d.vertices@[v]).coordinates;
            rect.x <= p.x <= rect.x + rect.width && rect.y <= p.y <= rect.y + rect.height
        }
}

/// An in-progress Voronoi edge between the cells of sites `fa` and `fb`
/// (`pa`, `pb` their positions). Endpoints `a` and `b` are fixed by
/// circle events; an endpoint still `None` when the queue empties is an
/// unbounded ray, clipped against the rectangle during finalization.
/// `ta`/`tb` record, for a fixed endpoint, the third site of the circle
/// that fixed it (used to orient the remaining ray).
#[derive(Debug, Clone, Copy)]
pub(crate) struct EdgeRec {
    pub fa: usize,
    pub fb: usize,
    pub pa: Point,
    pub pb: Point,
    pub a: Option<Point>,
    pub b: Option<Point>,
    pub ta: Point,
    pub tb: Point,
}

/// Maps the breakpoint between adjacent arcs `l` and `r` (arc handles)
/// to the in-progress edge whose far endpoint it will fix: record index
/// and which endpoint slot (`side == false` for `a`, `true` for `b`).
#[derive(Debug, Clone, Copy)]
pub(crate) struct BpEntry {
    pub l: usize,
    pub r: usize,
    pub rec: usize,
    pub side: bool,
}

/// Finds the first in-progress edge map entry for the breakpoint
/// `(l, r)`; `None` exactly when no entry matches.
fn bp_find(bps: &Vec<BpEntry>, l: usize, r: usize) -> (res: Option<usize>)
    ensures
        res matches Some(i) ==> i < bps@.len() && bps@[i as int].l == l && bps@[i as int].r == r
            && forall|j: int|
            0 <= j < i ==> !((#[trigger] bps@[j]).l == l && bps@[j].r == r),
        res.is_none() ==> forall|j: int|
            0 <= j < bps@.len() ==> !((#[trigger] bps@[j]).l == l && bps@[j].r == r),
{
    let mut i: usize = 0;
    let n = bps.len();
    while i < n
        invariant
            n == bps@.len(),
            i <= n,
            forall|j: int| 0 <= j < i ==> !((#[trigger] bps@[j]).l == l && bps@[j].r == r),
        decreases n - i,
    {
        if bps[i].l == l && bps[i].r == r {
            return Some(i);
        }
        i += 1;
    }
    None
}

/// Fixes one endpoint of the in-progress edge traced by breakpoint
/// `(l, r)` to the vertex `v`, recording `third` (the collapsing circle's
/// remaining site) for later ray orientation, and drops the map entry.
/// Returns `false`, changing nothing, when the breakpoint is not being
/// tracked or its record is out of range — internal invariant violations
/// the caller turns into an error.
fn resolve_bp(
    bps: &mut Vec<BpEntry>,
    recs: &mut Vec<EdgeRec>,
    l: usize,
    r: usize,
    v: Point,
    third: Point,
) -> (ok: bool)
    ensures
        !ok ==> final(bps)@ == old(bps)@ && final(recs)@ == old(recs)@,
        ok ==> final(recs)@.len() == old(recs)@.len(),
        ok ==> final(bps)@.len() + 1 == old(bps)@.len(),
        ok ==> forall|i: int|
            0 <= i < old(recs)@.len() ==> {
                let r1 = #[trigger] final(recs)@[i];
                let r0 = old(recs)@[i];
                r1.fa == r0.fa && r1.fb == r0.fb && r1.pa == r0.pa && r1.pb == r0.pb
            },
        ok ==> exists|i: int|
            {
                let e = #[trigger] old(bps)@[i];
                let r0 = old(recs)@[e.rec as int];
                &&& 0 <= i < old(bps)@.len()
                &&& e.l == l
                &&& e.r == r
                &&& e.rec < old(recs)@.len()
                &&& final(bps)@ == old(bps)@.remove(i)
                &&& final(recs)@ == old(recs)@.update(
                    e.rec as int,
                    if !e.side {
                        (EdgeRec {
                            fa: r0.fa,
                            fb: r0.fb,
                            pa: r0.pa,
                            pb: r0.pb,
                            a: Some(v),
                            b: r0.b,
                            ta: third,
                            tb: r0.tb,
                        })
                    } else {
                        (EdgeRec {
                            fa: r0.fa,
                            fb: r0.fb,
                            pa: r0.pa,
                            pb: r0.pb,
                            a: r0.a,
                            b: Some(v),
                            ta: r0.ta,
                            tb: third,
                        })
                    },
                )
            },
{
    let idx = match bp_find(bps, l, r) {
        Some(i) => i,
        None => {
            return false;
        },
    };
    let e = bps[idx];
    if e.rec >= recs.len() {
        return false;
    }
    bps.remove(idx);
    let r0 = recs[e.rec];
    let rec = if !e.side {
        EdgeRec { fa: r0.fa, fb: r0.fb, pa: r0.pa, pb: r0.pb, a: Some(v), b: r0.b, ta: third, tb: r0.tb }
    } else {
        EdgeRec { fa: r0.fa, fb: r0.fb, pa: r0.pa, pb: r0.pb, a: r0.a, b: Some(v), ta: r0.ta, tb: third }
    };
    recs.set(e.rec, rec);
    true
}

/// The in-progress edge map after the arc `old_left` is split: every
/// breakpoint that had it as its left arc now has the copy `new_left`.
pub(crate) open spec fn bp_rekeyed(s: Seq<BpEntry>, old_left: usize, new_left: usize) -> Seq<
    BpEntry,
> {
    s.map_values(
        |e: BpEntry|
            if e.l == old_left {
                (BpEntry { l: new_left, r: e.r, rec: e.rec, side: e.side })
            } else {
                e
            },
    )
}

/// After the arc at handle `old_left` is split, its right breakpoint
/// belongs to the copy `new_left`: rekeys the map entry, touching
/// nothing else.
fn rekey_bp_left(bps: &mut Vec<BpEntry>, old_left: usize, new_left: usize)
    ensures
        final(bps)@ == bp_rekeyed(old(bps)@, old_left, new_left),
{
    let ghost s0 = bps@;
    let n = bps.len();
    let mut i: usize = 0;
    while i < n
        invariant
            n == bps@.len(),
            n == s0.len(),
            i <= n,
            forall|j: int| i <= j < n ==> bps@[j] == s0[j],
            forall|j: int|
                0 <= j < i ==> bps@[j] == bp_rekeyed(s0, old_left, new_left)[j],
        decreases n - i,
    {
        let e = bps[i];
        if e.l == old_left {
            bps.set(i, BpEntry { l: new_left, r: e.r, rec: e.rec, side: e.side });
        }
        i += 1;
    }
    proof {
        assert(bps@ =~= bp_rekeyed(s0, old_left, new_left));
    }
}

/// The arc at frontier position `pos` admits a circle event at sweep
/// position `cur_y`: it has two neighbors, the three foci make a left
/// turn (its breakpoints converge), the triple has a representable
/// circumcircle, and the circle's lowest point is not earlier than the
/// current sweep position (up to the rounding slack of the floored
/// center and radius).
#[verifier::opaque]
pub(crate) open spec fn circle_candidate(bl: Beachline, pos: int, cur_y: i64) -> bool {
    let l = bl.focus_at(pos - 1);
    let m = bl.focus_at(pos);
    let r = bl.focus_at(pos + 1);
    &&& 0 < pos
    &&& pos + 1 < bl.order@.len()
    &&& crate::geometry::cross3(l, m, r) > 0
    &&& crate::geometry::cc_exists(l, m, r)
    &&& crate::geometry::cc_y(l, m, r) + crate::geometry::cc_radius(l, m, r) <= i64::MAX
    &&& crate::geometry::cc_y(l, m, r) + crate::geometry::cc_radius(l, m, r) + 4 >= cur_y
}

/// The circle event enqueued for an admitted candidate: keyed at the
/// circle's lowest point (clamped up to the current sweep position when
/// rounding placed it just below), collapsing the arc at `pos`, with the
/// rounded circumcenter as the candidate vertex.
#[verifier::opaque]
pub(crate) open spec fn circle_event_of(bl: Beachline, pos: int, cur_y: i64) -> Event {
    let l = bl.focus_at(pos - 1);
    let m = bl.focus_at(pos);
    let r = bl.focus_at(pos + 1);
    let bottom = crate::geometry::cc_y(l, m, r) + crate::geometry::cc_radius(l, m, r);
    let y = if bottom < cur_y {
        cur_y as int
    } else {
        bottom
    };
    Event {
        y: y as i64,
        circle: true,
        idx: bl.order@[pos],
        center: (Point {
            x: crate::geometry::cc_x(l, m, r) as i64,
            y: crate::geometry::cc_y(l, m, r) as i64,
        }),
    }
}

/// The queue after one circle-event attempt at `pos`.
pub(crate) open spec fn queue_after_try(q: Seq<Event>, bl: Beachline, pos: int, cur_y: i64) -> Seq<
    Event,
> {
    if circle_candidate(bl, pos, cur_y) {
        q.push(circle_event_of(bl, pos, cur_y))
    } else {
        q
    }
}

/// The validity set after one circle-event attempt at `pos`.
pub(crate) open spec fn valid_after_try(v: Seq<bool>, bl: Beachline, pos: int, cur_y: i64) -> Seq<
    bool,
> {
    if circle_candidate(bl, pos, cur_y) {
        v.update(bl.order@[pos] as int, true)
    } else {
        v
    }
}

/// Attempts a circle event for the arc at frontier position `pos`:
/// exactly when [`circle_candidate`] admits one, [`circle_event_of`] is
/// enqueued and the arc is marked live; otherwise nothing changes.
fn try_circle(bl: &Beachline, valid: &mut Vec<bool>, queue: &mut EventQueue, pos: usize, cur_y: i64)
    requires
        bl.wf(),
        pos < bl.order@.len(),
        old(valid)@.len() == bl.arena@.len(),
    ensures
        final(valid)@.len() == bl.arena@.len(),
        final(queue)@ == queue_after_try(old(queue)@, *bl, pos as int, cur_y),
        final(valid)@ == valid_after_try(old(valid)@, *bl, pos as int, cur_y),
{
    proof {
        reveal(circle_candidate);
        reveal(circle_event_of);
    }
    let nn = bl.len();
    if pos == 0 || pos >= nn - 1 {
        return ;
    }
    // The middle arc only collapses when its two breakpoints converge:
    // its focus makes a left turn between its neighbors' foci.
    let lf = bl.arc_data(bl.arc_at(pos - 1)).focus;
    let mf = bl.arc_data(bl.arc_at(pos)).focus;
    let rf = bl.arc_data(bl.arc_at(pos + 1)).focus;
    if crate::geometry::orientation(lf, mf, rf) != 1 {
        return ;
    }
    let circ = match bl.circumcircle_for(pos) {
        Some(c) => c,
        None => {
            return ;
        },
    };
    let (center, radius) = circ;
    let yb = match center.y.checked_add(radius) {
        Some(v) => v,
        None => {
            return ;  // beyond the representable sweep range: no event
        },
    };
    // The center and radius are floored, so a genuine event's computed
    // bottom can fall a few units below the exact one; an event at or
    // just below the current sweep position fires immediately, while one
    // clearly earlier has truly been passed and is dropped.
    if (yb as i128) + 4 < (cur_y as i128) {
        return ;  // already passed; the arc will not collapse here
    }
    let y_fire = if yb < cur_y {
        cur_y
    } else {
        yb
    };
    let arc = bl.arc_at(pos);
    queue.push(Event { y: y_fire, circle: true, idx: arc, center });
    valid.set(arc, true);
    proof {
        assert(final(queue)@ == old(queue)@.push(circle_event_of(*bl, pos as int, cur_y)));
    }
}

/// Handles a site event: locates the arc above the new site, invalidates
/// its pending circle event, inserts the new arc (splitting, or slotting
/// in beside it when both share the sweep coordinate and the parabola
/// degenerates to a vertical ray), starts tracking the new breakpoints'
/// in-progress edge, and re-evaluates circle events on both sides.
fn process_site(
    bl: &mut Beachline,
    valid: &mut Vec<bool>,
    queue: &mut EventQueue,
    recs: &mut Vec<EdgeRec>,
    bps: &mut Vec<BpEntry>,
    site: usize,
    p: Point,
)
    requires
        old(bl).wf(),
        old(valid)@.len() == old(bl).arena@.len(),
        coord_ok(p),
        -COORD_BOUND <= p.y <= COORD_BOUND,
    ensures
        final(bl).wf(),
        final(valid)@.len() == final(bl).arena@.len(),
        old(bl).order@.len() == 0 ==> {
            &&& final(bl).arena@ == old(bl).arena@.push(Arc { site, focus: p })
            &&& final(bl).order@ == seq![old(bl).arena@.len() as usize]
            &&& final(recs)@ == old(recs)@
            &&& final(bps)@ == old(bps)@
            &&& final(queue)@ == old(queue)@
        },
        old(bl).order@.len() > 0 ==> exists|pos: int|
            {
                let arc0 = #[trigger] old(bl).order@[pos];
                let above = old(bl).arena@[arc0 as int];
                let n0 = old(bl).arena@.len() as usize;
                &&& 0 <= pos < old(bl).order@.len()
                &&& forall|i: int|
                    0 <= i < pos ==> #[trigger] bp_x(
                        old(bl).focus_at(i),
                        old(bl).focus_at(i + 1),
                        p.y as int,
                    ) < p.x
                &&& pos + 1 < old(bl).order@.len() ==> bp_x(
                    old(bl).focus_at(pos),
                    old(bl).focus_at(pos + 1),
                    p.y as int,
                ) >= p.x
                &&& final(recs)@ == old(recs)@.push(
                    (EdgeRec {
                        fa: above.site,
                        fb: site,
                        pa: above.focus,
                        pb: p,
                        a: None,
                        b: None,
                        ta: p,
                        tb: p,
                    }),
                )
                &&& if above.focus.y == p.y {
                    // degenerate: the new arc slots in beside the found one
                    let right = p.x >= above.focus.x;
                    let npos = if right {
                        pos + 1
                    } else {
                        pos
                    };
                    &&& final(bl).arena@ == old(bl).arena@.push(Arc { site, focus: p })
                    &&& final(bl).order@ == old(bl).order@.insert(npos, n0)
                    &&& final(bps)@ == old(bps)@.push(
                        if right {
                            (BpEntry { l: arc0, r: n0, rec: old(recs)@.len() as usize, side: false })
                        } else {
                            (BpEntry { l: n0, r: arc0, rec: old(recs)@.len() as usize, side: false })
                        },
                    )
                    &&& final(queue)@ == queue_after_try(
                        queue_after_try(
                            queue_after_try(old(queue)@, *final(bl), npos - 1, p.y),
                            *final(bl),
                            npos + 1,
                            p.y,
                        ),
                        *final(bl),
                        npos,
                        p.y,
                    )
                } else {
                    // ordinary split: [.., A, ..] becomes [.., A, N, A', ..]
                    &&& final(bl).arena@ == old(bl).arena@.push(Arc { site, focus: p }).push(above)
                    &&& final(bl).order@ == old(bl).order@.subrange(0, pos + 1) + seq![
                        n0,
                        (n0 + 1) as usize,
                    ] + old(bl).order@.subrange(pos + 1, old(bl).order@.len() as int)
                    &&& final(bps)@ == bp_rekeyed(old(bps)@, arc0, (n0 + 1) as usize).push(
                        (BpEntry { l: arc0, r: n0, rec: old(recs)@.len() as usize, side: false }),
                    ).push(
                        (BpEntry {
                            l: n0,
                            r: (n0 + 1) as usize,
                            rec: old(recs)@.len() as usize,
                            side: true,
                        }),
                    )
                    &&& final(queue)@ == queue_after_try(
                        queue_after_try(old(queue)@, *final(bl), pos, p.y),
                        *final(bl),
                        pos + 2,
                        p.y,
                    )
                }
            },
{
    if bl.len() == 0 {
        bl.insert_first(site, p);
        valid.push(false);
        return ;
    }
    let pos = bl.find_arc_above(p.x, p.y);
    let above_arc = bl.arc_at(pos);
    let above = bl.arc_data(above_arc);
    valid.set(above_arc, false);
    if above.focus.y == p.y {
        // Degenerate split: the new parabola is a vertical ray that
        // meets the frontier beside the arc, giving a single breakpoint.
        let right = p.x >= above.focus.x;
        let narc = bl.insert_beside(pos, right, site, p);
        valid.push(false);
        let rec = recs.len();
        recs.push(
            EdgeRec {
                fa: above.site,
                fb: site,
                pa: above.focus,
                pb: p,
                a: None,
                b: None,
                ta: p,
                tb: p,
            },
        );
        let npos = if right {
            pos + 1
        } else {
            pos
        };
        if right {
            bps.push(BpEntry { l: above_arc, r: narc, rec, side: false });
        } else {
            bps.push(BpEntry { l: narc, r: above_arc, rec, side: false });
        }
        let ghost q0 = queue@;
        // The old neighbor on the far side of the new arc also changed
        // adjacency: invalidate it, then re-evaluate around the insertion.
        if npos > 0 {
            let h = bl.arc_at(npos - 1);
            valid.set(h, false);
            try_circle(bl, valid, queue, npos - 1, p.y);
        } else {
            proof {
                assert(!circle_candidate(*bl, npos - 1, p.y)) by {
                    reveal(circle_candidate);
                }
            }
        }
        proof {
            assert(queue@ == queue_after_try(q0, *bl, npos - 1, p.y));
        }
        let n_now = bl.len();
        if npos + 1 < n_now {
            let h = bl.arc_at(npos + 1);
            valid.set(h, false);
            try_circle(bl, valid, queue, npos + 1, p.y);
        } else {
            proof {
                assert(!circle_candidate(*bl, npos + 1, p.y)) by {
                    reveal(circle_candidate);
                }
            }
        }
        proof {
            assert(queue@ == queue_after_try(
                queue_after_try(q0, *bl, npos - 1, p.y),
                *bl,
                npos + 1,
                p.y,
            ));
        }
        try_circle(bl, valid, queue, npos, p.y);
        return ;
    }
    // Ordinary split: [.., A, ..] becomes [.., A, N, A', ..]; A's old
    // right breakpoint now belongs to the copy A'.
    let narc = bl.split_arc(pos, site, p);
    let m_now = bl.len();
    let copy = bl.arena.len() - 1;
    valid.push(false);
    valid.push(false);
    rekey_bp_left(bps, above_arc, copy);
    let rec = recs.len();
    recs.push(
        EdgeRec {
            fa: above.site,
            fb: site,
            pa: above.focus,
            pb: p,
            a: None,
            b: None,
            ta: p,
            tb: p,
        },
    );
    bps.push(BpEntry { l: above_arc, r: narc, rec, side: false });
    bps.push(BpEntry { l: narc, r: copy, rec, side: true });
    try_circle(bl, valid, queue, pos, p.y);
    proof {
        assert(pos + 2 < m_now);
    }
    try_circle(bl, valid, queue, pos + 2, p.y);
}

/// Handles a live circle event: fixes the two in-progress edges around
/// the collapsing arc at the recorded center (the new Voronoi vertex),
/// removes the arc, starts the edge between its former neighbors, and
/// re-evaluates their circle events. Returns the collapsed arc's former
/// frontier position, or `None` on an internal invariant violation.
#[verifier::rlimit(50)]
fn process_circle(
    bl: &mut Beachline,
    valid: &mut Vec<bool>,
    queue: &mut EventQueue,
    recs: &mut Vec<EdgeRec>,
    bps: &mut Vec<BpEntry>,
    ev: Event,
) -> (res: Option<usize>)
    requires
        old(bl).wf(),
        old(valid)@.len() == old(bl).arena@.len(),
    ensures
        final(bl).wf(),
        final(valid)@.len() == final(bl).arena@.len(),
        res matches Some(p) ==> {
                let pos = p as int;
                let larc = old(bl).order@[pos - 1];
                let rarc = old(bl).order@[pos + 1];
                let ld = old(bl).arena@[larc as int];
                let rd = old(bl).arena@[rarc as int];
                &&& 0 < pos
                &&& pos + 1 < old(bl).order@.len()
                &&& old(bl).order@[pos] == ev.idx
                &&& final(bl).arena@ == old(bl).arena@
                &&& final(bl).order@ == old(bl).order@.remove(pos)
                &&& final(recs)@.len() == old(recs)@.len() + 1
                &&& final(recs)@.last() == (EdgeRec {
                    fa: ld.site,
                    fb: rd.site,
                    pa: ld.focus,
                    pb: rd.focus,
                    a: Some(ev.center),
                    b: None,
                    ta: old(bl).arena@[ev.idx as int].focus,
                    tb: old(bl).arena@[ev.idx as int].focus,
                })
                &&& forall|i: int|
                    0 <= i < old(recs)@.len() ==> {
                        let r1 = #[trigger] final(recs)@[i];
                        let r0 = old(recs)@[i];
                        r1.fa == r0.fa && r1.fb == r0.fb && r1.pa == r0.pa && r1.pb == r0.pb
                    }
                &&& final(bps)@.len() + 1 == old(bps)@.len()
                &&& final(bps)@.last() == (BpEntry {
                    l: larc,
                    r: rarc,
                    rec: old(recs)@.len() as usize,
                    side: true,
                })
                &&& final(queue)@ == queue_after_try(
                    queue_after_try(old(queue)@, *final(bl), pos - 1, ev.y),
                    *final(bl),
                    pos,
                    ev.y,
                )
            },
{
    let pos = match bl.position_of(ev.idx) {
        Some(p) => p,
        None => {
            return None;  // a live event always references a live arc
        },
    };
    let n_now = bl.len();
    if pos == 0 || pos + 1 >= n_now {
        return None;  // a live event's arc always has two neighbors
    }
    let larc = bl.arc_at(pos - 1);
    let rarc = bl.arc_at(pos + 1);
    let ld = bl.arc_data(larc);
    let rd = bl.arc_data(rarc);
    let md = bl.arc_data(ev.idx);
    // Fix the two edges traced by the collapsing arc's breakpoints; the
    // third site of each circle is the neighbor beyond the breakpoint.
    if !resolve_bp(bps, recs, larc, ev.idx, ev.center, rd.focus) {
        return None;
    }
    let ghost r1 = recs@;
    if !resolve_bp(bps, recs, ev.idx, rarc, ev.center, ld.focus) {
        return None;
    }
    let ghost r2 = recs@;
    bl.remove_arc(pos);
    valid.set(larc, false);
    valid.set(rarc, false);
    // The former neighbors become adjacent: their breakpoint starts a
    // new edge at the vertex; the collapsed arc's site orients the ray.
    let rec = recs.len();
    recs.push(
        EdgeRec {
            fa: ld.site,
            fb: rd.site,
            pa: ld.focus,
            pb: rd.focus,
            a: Some(ev.center),
            b: None,
            ta: md.focus,
            tb: md.focus,
        },
    );
    bps.push(BpEntry { l: larc, r: rarc, rec, side: true });
    let ghost q0 = queue@;
    try_circle(bl, valid, queue, pos - 1, ev.y);
    let ghost q1 = queue@;
    try_circle(bl, valid, queue, pos, ev.y);
    proof {
        let posi = pos as int;
        assert(q1 == queue_after_try(q0, *bl, posi - 1, ev.y));
        assert(queue@ == queue_after_try(q1, *bl, posi, ev.y));
        assert(bl.order@ == old(bl).order@.remove(posi));
        assert(bl.arena@ == old(bl).arena@);
        assert(recs@.len() == old(recs)@.len() + 1);
        assert(bps@.len() + 1 == old(bps)@.len());
        assert forall|i: int|
            0 <= i < old(recs)@.len() implies {
            let rr1 = #[trigger] recs@[i];
            let rr0 = old(recs)@[i];
            rr1.fa == rr0.fa && rr1.fb == rr0.fb && rr1.pa == rr0.pa && rr1.pb == rr0.pb
        } by {
            assert(r1[i].fa == old(recs)@[i].fa && r1[i].fb == old(recs)@[i].fb && r1[i].pa
                == old(recs)@[i].pa && r1[i].pb == old(recs)@[i].pb);
            assert(r2[i].fa == r1[i].fa && r2[i].fb == r1[i].fb && r2[i].pa == r1[i].pa
                && r2[i].pb == r1[i].pb);
            assert(recs@[i] == r2[i]);
        }
    }
    Some(pos)
}

/// Decides whether `p` is the rounded circumcenter of some triple of
/// the accepted sites, by exhaustive search.
fn is_circumcenter_of(p: Point, acc: &Vec<Point>) -> (b: bool)
    requires
        forall|k: int| 0 <= k < acc@.len() ==> coord_ok(#[trigger] acc@[k]),
    ensures
        b == vertex_is_circumcenter(p, acc@),
{
    let n = acc.len();
    let mut i: usize = 0;
    while i < n
        invariant
            n == acc@.len(),
            i <= n,
            forall|k: int| 0 <= k < acc@.len() ==> coord_ok(#[trigger] acc@[k]),
            forall|i0: int, j0: int, k0: int|
                0 <= i0 < j0 < k0 < n && i0 < i ==> !#[trigger] center_match(
                    p,
                    acc@[i0],
                    acc@[j0],
                    acc@[k0],
                ),
        decreases n - i,
    {
        let mut j: usize = i + 1;
        while j < n
            invariant
                n == acc@.len(),
                i < j <= n,
                i < n,
                forall|k: int| 0 <= k < acc@.len() ==> coord_ok(#[trigger] acc@[k]),
                forall|j0: int, k0: int|
                    i < j0 < k0 < n && j0 < j ==> !#[trigger] center_match(
                        p,
                        acc@[i as int],
                        acc@[j0],
                        acc@[k0],
                    ),
            decreases n - j,
        {
            let mut k: usize = j + 1;
            while k < n
                invariant
                    n == acc@.len(),
                    i < j < n,
                    j < k <= n,
                    forall|kk: int| 0 <= kk < acc@.len() ==> coord_ok(#[trigger] acc@[kk]),
                    forall|k0: int|
                        j < k0 < n && k0 < k ==> !#[trigger] center_match(
                            p,
                            acc@[i as int],
                            acc@[j as int],
                            acc@[k0],
                        ),
                decreases n - k,
            {
                let hit = match crate::geometry::circumcircle(acc[i], acc[j], acc[k]) {
                    Some((c, _)) => c.x == p.x && c.y == p.y,
                    None => false,
                };
                proof {
                    reveal(center_match);
                }
                if hit {
                    proof {
                        assert(center_match(p, acc@[i as int], acc@[j as int], acc@[k as int]));
                    }
                    return true;
                }
                proof {
                    assert(!center_match(p, acc@[i as int], acc@[j as int], acc@[k as int]));
                }
                k += 1;
            }
            proof {
                assert forall|j0: int, k0: int|
                    i < j0 < k0 < n && j0 < j + 1 implies !#[trigger] center_match(
                    p,
                    acc@[i as int],
                    acc@[j0],
                    acc@[k0],
                ) by {
                    if j0 == j {
                        assert(!center_match(p, acc@[i as int], acc@[j0], acc@[k0]));
                    }
                }
            }
            j += 1;
        }
        proof {
            assert forall|i0: int, j0: int, k0: int|
                0 <= i0 < j0 < k0 < n && i0 < i + 1 implies !#[trigger] center_match(
                p,
                acc@[i0],
                acc@[j0],
                acc@[k0],
            ) by {
                if i0 == i {
                    assert(!center_match(p, acc@[i0], acc@[j0], acc@[k0]));
                }
            }
        }
        i += 1;
    }
    false
}

/// Checks at run time that every vertex is explained: exactly on the
/// rectangle's boundary, or the rounded circumcenter of three accepted
/// sites.
fn check_vertices_explained(d: &Diagram, rect: Rect, acc: &Vec<Point>) -> (b: bool)
    requires
        rect_in_range(rect),
        rect.width > 0,
        rect.height > 0,
        forall|k: int| 0 <= k < acc@.len() ==> coord_ok(#[trigger] acc@[k]),
    ensures
        b == vertices_explained(*d, rect, acc@),
{
    let nv = d.vertices.len();
    let x1 = rect.x + rect.width;
    let y1 = rect.y + rect.height;
    let mut v: usize = 0;
    while v < nv
        invariant
            nv == d.vertices@.len(),
            v <= nv,
            rect_in_range(rect),
            rect.width > 0,
            rect.height > 0,
            x1 == rect.x + rect.width,
            y1 == rect.y + rect.height,
            forall|k: int| 0 <= k < acc@.len() ==> coord_ok(#[trigger] acc@[k]),
            forall|v0: int|
                0 <= v0 < v ==> on_rect_boundary(
                    (#[trigger] d.vertices@[v0]).coordinates,
                    rect,
                ) || vertex_is_circumcenter(d.vertices@[v0].coordinates, acc@),
        decreases nv - v,
    {
        let p = d.vertices[v].coordinates;
        let on_b = rect.x <= p.x && p.x <= x1 && rect.y <= p.y && p.y <= y1 && (p.x == rect.x
            || p.x == x1 || p.y == rect.y || p.y == y1);
        if !on_b {
            if !is_circumcenter_of(p, acc) {
                return false;
            }
        }
        v += 1;
    }
    true
}

/// Checks at run time that every interior half-edge starts on the
/// bisector of its two faces' sites, up to rounding.
fn check_edges_on_bisectors(d: &Diagram, rect: Rect, acc: &Vec<Point>) -> (b: bool)
    requires
        rect_in_range(rect),
        rect.width > 0,
        rect.height > 0,
        vertices_in_rect(*d, rect),
        forall|k: int| 0 <= k < acc@.len() ==> coord_ok(#[trigger] acc@[k]),
    ensures
        b == edges_on_bisectors(*d, acc@),
{
    let ne = d.halfedges.len();
    let na = acc.len();
    let nv = d.vertices.len();
    let mut e: usize = 0;
    while e < ne
        invariant
            ne == d.halfedges@.len(),
            na == acc@.len(),
            nv == d.vertices@.len(),
            e <= ne,
            rect_in_range(rect),
            rect.width > 0,
            rect.height > 0,
            vertices_in_rect(*d, rect),
            forall|k: int| 0 <= k < acc@.len() ==> coord_ok(#[trigger] acc@[k]),
            forall|e0: int|
                0 <= e0 < e ==> {
                    let he = #[trigger] d.halfedges@[e0];
                    (0 <= he.twin@ < d.halfedges@.len() && 0 <= he.incident_face@ < acc@.len()
                        && 0 <= d.halfedges@[he.twin@].incident_face@ < acc@.len() && 0
                        <= he.origin@ < d.vertices@.len()) ==> near_bisector(
                        d.vertices@[he.origin@].coordinates,
                        acc@[he.incident_face@],
                        acc@[d.halfedges@[he.twin@].incident_face@],
                    )
                },
        decreases ne - e,
    {
        let he = d.halfedges[e];
        let t = he.twin.raw() as usize;
        let fa = he.incident_face.raw() as usize;
        let og = he.origin.raw() as usize;
        if t < ne && fa < na && og < nv {
            let fb = d.halfedges[t].incident_face.raw() as usize;
            if fb < na {
                let v = d.vertices[og].coordinates;
                let a = acc[fa];
                let b2 = acc[fb];
                let ghost cb: int = 0x200_0000;
                let da = mul_i(
                    (v.x - a.x) as i128,
                    (v.x - a.x) as i128,
                    Ghost(cb),
                    Ghost(cb),
                ) + mul_i((v.y - a.y) as i128, (v.y - a.y) as i128, Ghost(cb), Ghost(cb));
                let db = mul_i(
                    (v.x - b2.x) as i128,
                    (v.x - b2.x) as i128,
                    Ghost(cb),
                    Ghost(cb),
                ) + mul_i((v.y - b2.y) as i128, (v.y - b2.y) as i128, Ghost(cb), Ghost(cb));
                let dab = mul_i(
                    (a.x - b2.x) as i128,
                    (a.x - b2.x) as i128,
                    Ghost(cb),
                    Ghost(cb),
                ) + mul_i((a.y - b2.y) as i128, (a.y - b2.y) as i128, Ghost(cb), Ghost(cb));
                proof {
                    assert((a.x - b2.x) as i128 as int * ((a.x - b2.x) as i128 as int) >= 0)
                        by (nonlinear_arith);
                    assert((a.y - b2.y) as i128 as int * ((a.y - b2.y) as i128 as int) >= 0)
                        by (nonlinear_arith);
                }
                let slack = 8 * (crate::geometry::isqrt(dab as u128) as i128 + 2);
                if da - db > slack || db - da > slack {
                    return false;
                }
            }
        }
        e += 1;
    }
    true
}

/// Checks at run time that every vertex lies on or inside the rectangle.
pub(crate) fn check_vertices_in(d: &Diagram, rect: Rect) -> (b: bool)
    requires
        rect_in_range(rect),
        rect.width > 0,
        rect.height > 0,
    ensures
        b == vertices_in_rect(*d, rect),
{
    let nv = d.vertices.len();
    let mut v: usize = 0;
    while v < nv
        invariant
            nv == d.vertices@.len(),
            v <= nv,
            rect_in_range(rect),
            rect.width > 0,
            rect.height > 0,
            forall|k: int|
                0 <= k < v ==> {
                    let p = (#[trigger] d.vertices@[k]).coordinates;
                    rect.x <= p.x <= rect.x + rect.width && rect.y <= p.y <= rect.y + rect.height
                },
        decreases nv - v,
    {
        let p = d.vertices[v].coordinates;
        if p.x < rect.x || p.x > rect.x + rect.width || p.y < rect.y || p.y > rect.y
            + rect.height {
            return false;
        }
        v += 1;
    }
    true
}

/// The diagram's one face is the whole bounding rectangle: its vertices
/// are exactly the four corners, and face 0's boundary walks them
/// counterclockwise from the lower-left corner.
pub open spec fn whole_rect_cell(d: Diagram, rect: Rect) -> bool {
    &&& d.faces@.len() == 1
    &&& d.vertices@.len() == 4
    &&& d.vertices@[0].coordinates == (Point { x: rect.x, y: rect.y })
    &&& d.vertices@[1].coordinates == (Point { x: (rect.x + rect.width) as i64, y: rect.y })
    &&& d.vertices@[2].coordinates == (Point {
        x: (rect.x + rect.width) as i64,
        y: (rect.y + rect.height) as i64,
    })
    &&& d.vertices@[3].coordinates == (Point { x: rect.x, y: (rect.y + rect.height) as i64 })
    &&& d.faces@[0].first_halfedge@ == 0
    &&& forall|i: int|
        0 <= i < 4 ==> (#[trigger] d.halfedges@[i]).origin@ == i && d.halfedges@[i].next@ == ((i
            + 1) % 4) && d.halfedges@[i].incident_face@ == 0
}

/// The diagram of a single site: its cell is the whole bounding
/// rectangle. Four corner vertices, four interior half-edges looping
/// counterclockwise around the one face, and their four twins looping
/// clockwise around the sentinel outer face.
fn single_cell(rect: Rect) -> (d: Diagram)
    requires
        rect_in_range(rect),
        rect.width > 0,
        rect.height > 0,
    ensures
        d.faces@.len() == 1,
        d.vertices@.len() == 4,
        d.halfedges@.len() == 8,
        dcel_wf(d),
        vertices_in_rect(d, rect),
        whole_rect_cell(d, rect),
        forall|v: int|
            0 <= v < d.vertices@.len() ==> on_rect_boundary(
                (#[trigger] d.vertices@[v]).coordinates,
                rect,
            ),
        forall|i: int|
            0 <= i < 8 ==> (#[trigger] d.halfedges@[i]).incident_face@ == (if i < 4 {
                0int
            } else {
                1int
            }),
{
    let x1 = rect.x + rect.width;
    let y1 = rect.y + rect.height;
    let c0 = Point { x: rect.x, y: rect.y };
    let c1 = Point { x: x1, y: rect.y };
    let c2 = Point { x: x1, y: y1 };
    let c3 = Point { x: rect.x, y: y1 };
    let mut vertices: Vec<Vertex> = Vec::new();
    vertices.push(Vertex { coordinates: c0, incident_edge: HalfEdgeId::new(0) });
    vertices.push(Vertex { coordinates: c1, incident_edge: HalfEdgeId::new(1) });
    vertices.push(Vertex { coordinates: c2, incident_edge: HalfEdgeId::new(2) });
    vertices.push(Vertex { coordinates: c3, incident_edge: HalfEdgeId::new(3) });
    let mut hes: Vec<HalfEdge> = Vec::new();
    hes.push(
        HalfEdge {
            origin: VertexId::new(0),
            twin: HalfEdgeId::new(4),
            incident_face: FaceId::new(0),
            next: HalfEdgeId::new(1),
            prev: HalfEdgeId::new(3),
        },
    );
    hes.push(
        HalfEdge {
            origin: VertexId::new(1),
            twin: HalfEdgeId::new(5),
            incident_face: FaceId::new(0),
            next: HalfEdgeId::new(2),
            prev: HalfEdgeId::new(0),
        },
    );
    hes.push(
        HalfEdge {
            origin: VertexId::new(2),
            twin: HalfEdgeId::new(6),
            incident_face: FaceId::new(0),
            next: HalfEdgeId::new(3),
            prev: HalfEdgeId::new(1),
        },
    );
    hes.push(
        HalfEdge {
            origin: VertexId::new(3),
            twin: HalfEdgeId::new(7),
            incident_face: FaceId::new(0),
            next: HalfEdgeId::new(0),
            prev: HalfEdgeId::new(2),
        },
    );
    hes.push(
        HalfEdge {
            origin: VertexId::new(1),
            twin: HalfEdgeId::new(0),
            incident_face: FaceId::new(1),
            next: HalfEdgeId::new(7),
            prev: HalfEdgeId::new(5),
        },
    );
    hes.push(
        HalfEdge {
            origin: VertexId::new(2),
            twin: HalfEdgeId::new(1),
            incident_face: FaceId::new(1),
            next: HalfEdgeId::new(4),
            prev: HalfEdgeId::new(6),
        },
    );
    hes.push(
        HalfEdge {
            origin: VertexId::new(3),
            twin: HalfEdgeId::new(2),
            incident_face: FaceId::new(1),
            next: HalfEdgeId::new(5),
            prev: HalfEdgeId::new(7),
        },
    );
    hes.push(
        HalfEdge {
            origin: VertexId::new(0),
            twin: HalfEdgeId::new(3),
            incident_face: FaceId::new(1),
            next: HalfEdgeId::new(6),
            prev: HalfEdgeId::new(4),
        },
    );
    let mut faces: Vec<Face> = Vec::new();
    faces.push(Face { first_halfedge: HalfEdgeId::new(0) });
    let d = Diagram { vertices, halfedges: hes, faces };
    proof {
        reveal_with_fuel(count_face, 9);
        reveal_with_fuel(next_pow, 6);
        assert(face_edge_count(d, 0) == 4);
        assert(edge_ok(d, 0) && edge_ok(d, 1) && edge_ok(d, 2) && edge_ok(d, 3));
        assert(edge_ok(d, 4) && edge_ok(d, 5) && edge_ok(d, 6) && edge_ok(d, 7));
        assert forall|e: int| idx_ok(d, e) implies #[trigger] edge_ok(d, e) by {
            assert(0 <= e < 8);
        }
        assert(vertex_ok(d, 0) && vertex_ok(d, 1) && vertex_ok(d, 2) && vertex_ok(d, 3));
        assert forall|v: int| 0 <= v < d.vertices@.len() implies #[trigger] vertex_ok(d, v) by {
            assert(0 <= v < 4);
        }
        assert(next_pow(d, 0, 4) == 0 && next_pow(d, 1, 4) == 1 && next_pow(d, 2, 4) == 2
            && next_pow(d, 3, 4) == 3);
        assert forall|e: int| idx_ok(d, e) && crate::diagram::face_of(d, e) == 0 implies
            #[trigger] next_pow(d, e, face_edge_count(d, 0) as nat) == e by {
            assert(0 <= e < 4);
        }
        assert forall|e: int, j: int|
            idx_ok(d, e) && crate::diagram::face_of(d, e) == 0 && 0 < j < face_edge_count(d, 0)
                implies #[trigger] next_pow(d, e, j as nat) != e by {
            assert(0 <= e < 4 && 1 <= j <= 3);
            assert(next_pow(d, e, 1nat) != e);
            assert(next_pow(d, e, 2nat) != e);
            assert(next_pow(d, e, 3nat) != e);
        }
        assert(face_ok(d, 0));
        assert forall|f: int| 0 <= f < d.faces@.len() implies #[trigger] face_ok(d, f) by {
            assert(f == 0);
        }
        assert(dcel_wf(d));
    }
    d
}

/// Builds the Voronoi diagram of `sites` inside the bounding rectangle
/// `rect` by a sweep over site and circle events, and materializes it as
/// a doubly-connected edge list.
///
/// Sites on or outside the rectangle's boundary are excluded. Fails with
/// `InvalidBounds` exactly when the rectangle has non-positive width or
/// height, and with `InternalInvariant` when the construction cannot
/// vouch for its own output (a programming error or degenerate
/// coincident-site input, never silently an ill-formed mesh). A returned
/// diagram is well-formed ([`dcel_wf`]), has exactly one face per
/// strictly interior site, keeps every vertex in the rectangle, and
/// every vertex is accounted for: exactly on the rectangle's boundary
/// (a clipped ray end or a corner), or the rounded circumcenter of
/// three accepted sites (a realized circle event).
pub fn construct(rect: Rect, sites: &Vec<Point>) -> (r: Result<Diagram, BuildError>)
    requires
        rect_in_range(rect),
    ensures
        (rect.width <= 0 || rect.height <= 0) <==> r == Err::<Diagram, BuildError>(
            BuildError::InvalidBounds,
        ),
        r matches Ok(d) ==> dcel_wf(d) && d.faces@.len() == count_inside(sites@, rect)
            && vertices_in_rect(d, rect),
        rect.width > 0 && rect.height > 0 && count_inside(sites@, rect) == 0 ==> (r matches Ok(d)
            && d.halfedges@.len() == 0 && d.vertices@.len() == 0),
        rect.width > 0 && rect.height > 0 && count_inside(sites@, rect) == 1 ==> (r matches Ok(d)
            && d.halfedges@.len() == 8 && whole_rect_cell(d, rect) && forall|v: int|
            0 <= v < d.vertices@.len() ==> on_rect_boundary(
                (#[trigger] d.vertices@[v]).coordinates,
                rect,
            )),
        r matches Ok(d) ==> vertices_explained(d, rect, inside_sites(sites@, rect)),
        r matches Ok(d) ==> edges_on_bisectors(d, inside_sites(sites@, rect)),
{
    if rect.width <= 0 || rect.height <= 0 {
        return Err(BuildError::InvalidBounds);
    }
    // Seed: one site event per site strictly inside the rectangle.
    let mut accepted: Vec<Point> = Vec::new();
    let n = sites.len();
    let mut i: usize = 0;
    while i < n
        invariant
            n == sites@.len(),
            i <= n,
            rect_in_range(rect),
            rect.width > 0,
            rect.height > 0,
            accepted@.len() == count_inside_prefix(sites@, rect, i as nat),
            accepted@ == inside_sites_prefix(sites@, rect, i as nat),
            forall|k: int| 0 <= k < accepted@.len() ==> site_inside(#[trigger] accepted@[k], rect),
        decreases n - i,
    {
        let p = sites[i];
        if rect.x < p.x && p.x < rect.x + rect.width && rect.y < p.y && p.y < rect.y
            + rect.height {
            accepted.push(p);
        }
        i += 1;
    }
    proof {
        assert(accepted@.len() == count_inside(sites@, rect));
        assert(accepted@ == inside_sites(sites@, rect));
        assert forall|k: int| 0 <= k < accepted@.len() implies coord_ok(
            #[trigger] accepted@[k],
        ) by {
            assert(site_inside(accepted@[k], rect));
        }
    }
    let na = accepted.len();
    if na == 0 {
        let d = Diagram { vertices: Vec::new(), halfedges: Vec::new(), faces: Vec::new() };
        return Ok(d);
    }
    if na == 1 {
        // a single site owns the whole rectangle; the sweep has nothing
        // to do, so the cell is built directly and success is owed
        let d = single_cell(rect);
        proof {
            assert forall|v: int| 0 <= v < d.vertices@.len() implies on_rect_boundary(
                (#[trigger] d.vertices@[v]).coordinates,
                rect,
            ) || vertex_is_circumcenter(d.vertices@[v].coordinates, inside_sites(sites@, rect)) by {
                assert(on_rect_boundary(d.vertices@[v].coordinates, rect));
            }
            // one face per site: every half-edge has the sentinel outer
            // face on one side, so no interior edge exists
            let acc = inside_sites(sites@, rect);
            assert(acc.len() == 1);
            assert forall|e: int| 0 <= e < d.halfedges@.len() implies {
                let he = #[trigger] d.halfedges@[e];
                (0 <= he.twin@ < d.halfedges@.len() && 0 <= he.incident_face@ < acc.len() && 0
                    <= d.halfedges@[he.twin@].incident_face@ < acc.len() && 0 <= he.origin@
                    < d.vertices@.len()) ==> near_bisector(
                    d.vertices@[he.origin@].coordinates,
                    acc[he.incident_face@],
                    acc[d.halfedges@[he.twin@].incident_face@],
                )
            } by {
                if e < 4 {
                    assert(crate::diagram::edge_ok(d, e));
                    assert(d.halfedges@[e].incident_face@ == 0);
                    assert(crate::diagram::face_of(d, d.halfedges@[e].twin@) != 0);
                } else {
                    assert(d.halfedges@[e].incident_face@ == 1);
                }
            }
        }
        return Ok(d);
    }
    let mut queue = EventQueue::new();
    let mut s: usize = 0;
    while s < na
        invariant
            na == accepted@.len(),
            s <= na,
        decreases na - s,
    {
        queue.push(
            Event { y: accepted[s].y, circle: false, idx: s, center: Point { x: 0, y: 0 } },
        );
        s += 1;
    }
    let mut bl = Beachline::new();
    let mut valid: Vec<bool> = Vec::new();
    let mut recs: Vec<EdgeRec> = Vec::new();
    let mut bps: Vec<BpEntry> = Vec::new();
    // The sweep: handle events in order until the queue empties. The
    // event count is linear in the site count; the fuel bound only makes
    // a runaway loop an internal error instead of a hang.
    let mut fuel: u128 = 64 * (na as u128) + 64;
    while queue.len() > 0
        invariant
            bl.wf(),
            valid@.len() == bl.arena@.len(),
            na == accepted@.len(),
            na >= 2,
            count_inside(sites@, rect) == na as int,
            accepted@ == inside_sites(sites@, rect),
            forall|k: int| 0 <= k < accepted@.len() ==> site_inside(#[trigger] accepted@[k], rect),
            rect_in_range(rect),
            rect.width > 0,
            rect.height > 0,
        decreases fuel,
    {
        if fuel == 0 {
            return Err(BuildError::InternalInvariant);
        }
        fuel -= 1;
        let ev = match queue.pop_min() {
            Some(e) => e,
            None => {
                return Err(BuildError::InternalInvariant);
            },
        };
        if !ev.circle {
            if ev.idx >= na {
                return Err(BuildError::InternalInvariant);
            }
            let p = accepted[ev.idx];
            proof {
                assert(site_inside(p, rect));
                assert(coord_ok(p));
            }
            process_site(&mut bl, &mut valid, &mut queue, &mut recs, &mut bps, ev.idx, p);
        } else {
            if ev.idx >= valid.len() {
                return Err(BuildError::InternalInvariant);
            }
            if valid[ev.idx] {
                // still live: the middle arc survived unperturbed
                valid.set(ev.idx, false);
                if process_circle(&mut bl, &mut valid, &mut queue, &mut recs, &mut bps, ev)
                    .is_none() {
                    return Err(BuildError::InternalInvariant);
                }
            }
            // stale circle events are discarded without effect
        }
    }
    let d = match crate::finalize::finalize(rect, na, &recs) {
        Some(d) => d,
        None => {
            return Err(BuildError::InternalInvariant);
        },
    };
    proof {
        assert forall|k: int| 0 <= k < accepted@.len() implies coord_ok(
            #[trigger] accepted@[k],
        ) by {
            assert(site_inside(accepted@[k], rect));
        }
    }
    // Fail loudly unless every vertex is accounted for: a clipped ray
    // end or corner on the boundary, or a realized circle event's
    // circumcenter.
    if !check_vertices_explained(&d, rect, &accepted) {
        return Err(BuildError::InternalInvariant);
    }
    // ... and unless every interior edge lies (up to rounding) on the
    // bisector of the two sites whose cells it separates.
    if !check_edges_on_bisectors(&d, rect, &accepted) {
        return Err(BuildError::InternalInvariant);
    }
    Ok(d)
}

} // verus!
