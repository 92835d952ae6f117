//! The beachline: the ordered, dynamically mutable sequence of parabolic
//! arcs forming the sweep frontier.
//!
//! Arcs live in an arena and are addressed by stable integer handles;
//! the left-to-right frontier order is a separate sequence of handles, so
//! splitting and removing arcs never invalidates a neighbor's handle and
//! no arc can point at removed storage.

use vstd::prelude::*;

use crate::diagram::Point;
use crate::geometry;
use crate::geometry::bp_x;
use crate::geometry::coord_ok;
use crate::geometry::COORD_BOUND;

verus! {

/// A beachline element: the parabolic arc of one site's focus.
#[derive(Debug, Clone, Copy)]
pub struct Arc {
    /// Index of the site whose parabola this arc represents.
    pub site: usize,
    /// That site's position (the parabola's focus).
    pub focus: Point,
}

/// The sweep frontier. `order` holds the handles of the live arcs from
/// left to right; `arena` holds every arc ever created, so handles stay
/// stable across splits and removals.
#[derive(Debug)]
pub struct Beachline {
    pub arena: Vec<Arc>,
    pub order: Vec<usize>,
}

impl Beachline {
    /// Well-formedness: the frontier only holds distinct, allocated
    /// handles, and every focus is in coordinate range.
    pub open spec fn wf(self) -> bool {
        &&& forall|i: int| 0 <= i < self.order@.len() ==> self.order@[i] < self.arena@.len()
        &&& forall|i: int, j: int|
            0 <= i < j < self.order@.len() ==> self.order@[i] != self.order@[j]
        &&& forall|k: int| 0 <= k < self.arena@.len() ==> coord_ok(#[trigger] self.arena@[k].focus)
    }

    /// The focus of the arc at frontier position `i`.
    pub open spec fn focus_at(self, i: int) -> Point {
        self.arena@[self.order@[i] as int].focus
    }

    /// The site of the arc at frontier position `i`.
    pub open spec fn site_at(self, i: int) -> int {
        self.arena@[self.order@[i] as int].site as int
    }

    pub fn new() -> (b: Beachline)
        ensures
            b.wf(),
            b.order@.len() == 0,
            b.arena@.len() == 0,
    {
        Beachline { arena: Vec::new(), order: Vec::new() }
    }

    /// Number of live arcs.
    pub fn len(&self) -> (n: usize)
        ensures
            n == self.order@.len(),
    {
        self.order.len()
    }

    /// The handle of the arc at frontier position `pos`.
    pub fn arc_at(&self, pos: usize) -> (a: usize)
        requires
            pos < self.order@.len(),
        ensures
            a == self.order@[pos as int],
    {
        self.order[pos]
    }

    /// The arc record for handle `arc`.
    pub fn arc_data(&self, arc: usize) -> (a: Arc)
        requires
            arc < self.arena@.len(),
        ensures
            a == self.arena@[arc as int],
    {
        self.arena[arc]
    }

    /// The current frontier position of the arc with handle `arc`, if it
    /// is live.
    pub fn position_of(&self, arc: usize) -> (r: Option<usize>)
        ensures
            match r {
                Some(p) => p < self.order@.len() && self.order@[p as int] == arc,
                None => forall|i: int| 0 <= i < self.order@.len() ==> self.order@[i] != arc,
            },
    {
        let mut i: usize = 0;
        while i < self.order.len()
            invariant
                i <= self.order@.len(),
                forall|j: int| 0 <= j < i ==> self.order@[j] != arc,
            decreases self.order@.len() - i,
        {
            if self.order[i] == arc {
                return Some(i);
            }
            i += 1;
        }
        None
    }

    /// Locates the arc above x-coordinate `x` at directrix `d`: the first
    /// (leftmost) frontier position whose right breakpoint is at or right
    /// of `x`; the rightmost arc if every breakpoint is left of `x`.
    pub fn find_arc_above(&self, x: i64, d: i64) -> (pos: usize)
        requires
            self.wf(),
            self.order@.len() > 0,
            -COORD_BOUND <= d <= COORD_BOUND,
        ensures
            pos < self.order@.len(),
            forall|i: int|
                0 <= i < pos ==> #[trigger] bp_x(self.focus_at(i), self.focus_at(i + 1), d as int)
                    < x,
            pos + 1 < self.order@.len() ==> bp_x(
                self.focus_at(pos as int),
                self.focus_at(pos as int + 1),
                d as int,
            ) >= x,
    {
        let n = self.order.len();
        let mut i: usize = 0;
        while i + 1 < n
            invariant
                self.wf(),
                -COORD_BOUND <= d <= COORD_BOUND,
                n == self.order@.len(),
                i < self.order@.len(),
                forall|j: int|
                    0 <= j < i ==> #[trigger] bp_x(
                        self.focus_at(j),
                        self.focus_at(j + 1),
                        d as int,
                    ) < x,
            decreases self.order@.len() - i,
        {
            let left = self.arena[self.order[i]];
            let right = self.arena[self.order[i + 1]];
            let bx = geometry::breakpoint_x(left.focus, right.focus, d);
            if bx >= x {
                return i;
            }
            i += 1;
        }
        i
    }

    /// Inserts the first arc of an empty frontier.
    pub fn insert_first(&mut self, site: usize, focus: Point) -> (arc: usize)
        requires
            old(self).wf(),
            old(self).order@.len() == 0,
            coord_ok(focus),
        ensures
            final(self).wf(),
            arc == old(self).arena@.len(),
            final(self).arena@ == old(self).arena@.push(Arc { site, focus }),
            final(self).order@ =~= seq![arc],
    {
        let arc = self.arena.len();
        self.arena.push(Arc { site, focus });
        self.order.push(arc);
        arc
    }

    /// Splits the arc at frontier position `pos` on a new site: the
    /// frontier `[..., A, ...]` becomes `[..., A, N, A', ...]`, where `N`
    /// is the new site's arc and `A'` a copy of `A` (same site and
    /// focus). Returns `N`'s handle; the copy's handle is `N + 1`.
    pub fn split_arc(&mut self, pos: usize, site: usize, focus: Point) -> (arc: usize)
        requires
            old(self).wf(),
            pos < old(self).order@.len(),
            coord_ok(focus),
        ensures
            final(self).wf(),
            arc == old(self).arena@.len(),
            final(self).arena@ == old(self).arena@.push(Arc { site, focus }).push(
                old(self).arena@[old(self).order@[pos as int] as int],
            ),
            final(self).order@ =~= old(self).order@.subrange(0, pos as int + 1) + seq![
                arc,
                (arc + 1) as usize,
            ] + old(self).order@.subrange(pos as int + 1, old(self).order@.len() as int),
    {
        let _n = self.order.len();
        let arc = self.arena.len();
        let copy = self.arena[self.order[pos]];
        self.arena.push(Arc { site, focus });
        let copy_handle = self.arena.len();
        self.arena.push(copy);
        self.order.insert(pos + 1, copy_handle);
        self.order.insert(pos + 1, arc);
        proof {
            assert forall|i: int, j: int|
                0 <= i < j < self.order@.len() implies self.order@[i] != self.order@[j] by {
                assert(forall|k: int|
                    0 <= k < old(self).order@.len() ==> old(self).order@[k]
                        < old(self).arena@.len());
            }
        }
        arc
    }

    /// Inserts a lone new arc beside frontier position `pos` (to its
    /// right if `right`, else to its left) without splitting: the
    /// degenerate form of a site event whose new parabola is a vertical
    /// ray that meets the frontier at an existing arc's end.
    pub fn insert_beside(&mut self, pos: usize, right: bool, site: usize, focus: Point) -> (arc:
        usize)
        requires
            old(self).wf(),
            pos < old(self).order@.len(),
            coord_ok(focus),
        ensures
            final(self).wf(),
            arc == old(self).arena@.len(),
            final(self).arena@ == old(self).arena@.push(Arc { site, focus }),
            final(self).order@ =~= old(self).order@.insert(
                if right {
                    pos as int + 1
                } else {
                    pos as int
                },
                arc,
            ),
    {
        let _n = self.order.len();
        let arc = self.arena.len();
        self.arena.push(Arc { site, focus });
        if right {
            self.order.insert(pos + 1, arc);
        } else {
            self.order.insert(pos, arc);
        }
        proof {
            assert forall|i: int, j: int|
                0 <= i < j < self.order@.len() implies self.order@[i] != self.order@[j] by {
                assert(forall|k: int|
                    0 <= k < old(self).order@.len() ==> old(self).order@[k]
                        < old(self).arena@.len());
            }
        }
        arc
    }

    /// Unlinks the arc at frontier position `pos`, relinking its
    /// neighbors to each other. The arena entry stays (handles are
    /// stable); only the frontier shrinks.
    pub fn remove_arc(&mut self, pos: usize)
        requires
            old(self).wf(),
            pos < old(self).order@.len(),
        ensures
            final(self).wf(),
            final(self).arena@ == old(self).arena@,
            final(self).order@ =~= old(self).order@.remove(pos as int),
    {
        self.order.remove(pos);
    }

    /// The circumcircle of the three consecutive arcs centered on
    /// frontier position `pos`, as `(center, radius)`; `None` when the
    /// arc has fewer than two neighbors or the triple admits no circle.
    pub fn circumcircle_for(&self, pos: usize) -> (r: Option<(Point, i64)>)
        requires
            self.wf(),
            pos < self.order@.len(),
        ensures
            (pos == 0 || pos + 1 >= self.order@.len()) ==> r.is_none(),
            (0 < pos && pos + 1 < self.order@.len()) ==> {
                let a = self.focus_at(pos as int - 1);
                let b = self.focus_at(pos as int);
                let c = self.focus_at(pos as int + 1);
                &&& r.is_some() <==> geometry::cc_exists(a, b, c)
                &&& r.is_some() ==> r.unwrap().0.x == geometry::cc_x(a, b, c)
                    && r.unwrap().0.y == geometry::cc_y(a, b, c) && r.unwrap().1
                    == geometry::cc_radius(a, b, c) && r.unwrap().1 >= 0
            },
    {
        let n = self.order.len();
        if pos == 0 || pos >= n - 1 {
            return None;
        }
        let a = self.arena[self.order[pos - 1]].focus;
        let b = self.arena[self.order[pos]].focus;
        let c = self.arena[self.order[pos + 1]].focus;
        geometry::circumcircle(a, b, c)
    }
}

} // verus!
