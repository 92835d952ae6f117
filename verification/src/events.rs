//! The event queue of the sweep: a priority structure over site and
//! circle events, ordered by sweep position with a deterministic
//! tie-break so that identical input always yields an identical mesh.
//!
//! Circle events are not physically removed when they become stale; the
//! builder keeps a separate validity set and discards stale events when
//! they are popped (lazy deletion).

use vstd::prelude::*;

use crate::diagram::Point;

verus! {

/// A pending event: a site event (`circle == false`, `idx` is the site
/// index) or a circle event (`circle == true`, `idx` is the collapsing
/// arc's handle and `center` the candidate vertex).
#[derive(Debug, Clone, Copy, PartialEq, Eq, Structural)]
pub struct Event {
    /// The sweep position at which the event fires.
    pub y: i64,
    /// `false` for a site event, `true` for a circle event.
    pub circle: bool,
    /// Site index (site events) or collapsing arc handle (circle events).
    pub idx: usize,
    /// Candidate vertex of a circle event; unused for site events.
    pub center: Point,
}

/// Strict priority order: by sweep position, then site events before
/// circle events, then by site index / arc handle.
pub open spec fn key_lt(a: Event, b: Event) -> bool {
    a.y < b.y || (a.y == b.y && ((!a.circle && b.circle) || (a.circle == b.circle && a.idx
        < b.idx)))
}

/// The first index of `s` that holds a minimal event under [`key_lt`];
/// exact duplicates are broken by queue position, keeping the pop
/// deterministic.
pub open spec fn first_min_idx(s: Seq<Event>) -> int
    decreases s.len(),
{
    if s.len() <= 1 {
        0
    } else {
        let m = first_min_idx(s.drop_last());
        if key_lt(s.last(), s[m]) {
            s.len() - 1
        } else {
            m
        }
    }
}

/// The index returned by [`first_min_idx`] is in range.
pub proof fn lemma_first_min_idx_in_range(s: Seq<Event>)
    requires
        s.len() > 0,
    ensures
        0 <= first_min_idx(s) < s.len(),
    decreases s.len(),
{
    if s.len() > 1 {
        lemma_first_min_idx_in_range(s.drop_last());
    }
}

/// The event at [`first_min_idx`] is minimal: no event in the sequence
/// is strictly smaller.
pub proof fn lemma_first_min_idx_minimal(s: Seq<Event>)
    requires
        s.len() > 0,
    ensures
        forall|i: int|
            0 <= i < s.len() ==> !key_lt(#[trigger] s[i], s[first_min_idx(s)]),
    decreases s.len(),
{
    if s.len() > 1 {
        lemma_first_min_idx_minimal(s.drop_last());
        let m = first_min_idx(s.drop_last());
        lemma_first_min_idx_in_range(s.drop_last());
        assert forall|i: int| 0 <= i < s.len() implies !key_lt(#[trigger] s[i], s[first_min_idx(s)]) by {
            if i < s.len() - 1 {
                assert(s.drop_last()[i] == s[i]);
                assert(s.drop_last()[m] == s[m]);
            }
        }
    }
}

fn event_before(a: &Event, b: &Event) -> (r: bool)
    ensures
        r == key_lt(*a, *b),
{
    if a.y < b.y {
        true
    } else if a.y == b.y {
        if !a.circle && b.circle {
            true
        } else if a.circle == b.circle && a.idx < b.idx {
            true
        } else {
            false
        }
    } else {
        false
    }
}

/// A priority queue over [`Event`]s keyed by [`key_lt`], with the first
/// minimal element (in insertion order) popped first.
#[derive(Debug)]
pub struct EventQueue {
    items: Vec<Event>,
}

impl EventQueue {
    pub closed spec fn view(self) -> Seq<Event> {
        self.items@
    }

    pub fn new() -> (q: EventQueue)
        ensures
            q@.len() == 0,
    {
        EventQueue { items: Vec::new() }
    }

    pub fn len(&self) -> (n: usize)
        ensures
            n == self@.len(),
    {
        self.items.len()
    }

    pub fn is_empty(&self) -> (b: bool)
        ensures
            b == (self@.len() == 0),
    {
        self.items.len() == 0
    }

    /// Enqueues an event.
    pub fn push(&mut self, e: Event)
        ensures
            final(self)@ == old(self)@.push(e),
    {
        self.items.push(e);
    }

    /// Removes and returns the first minimal event; `None` on an empty
    /// queue. Identical input sequences always pop in the same order.
    pub fn pop_min(&mut self) -> (r: Option<Event>)
        ensures
            old(self)@.len() == 0 ==> r.is_none() && final(self)@ == old(self)@,
            old(self)@.len() > 0 ==> {
                let m = first_min_idx(old(self)@);
                r == Some(old(self)@[m]) && final(self)@ == old(self)@.remove(m)
            },
    {
        if self.items.len() == 0 {
            return None;
        }
        let ghost s0 = self.items@;
        let mut best: usize = 0;
        let mut i: usize = 1;
        while i < self.items.len()
            invariant
                self.items@ == s0,
                0 < i <= s0.len(),
                best < i,
                best == first_min_idx(s0.subrange(0, i as int)),
            decreases self.items.len() - i,
        {
            proof {
                assert(s0.subrange(0, i + 1).drop_last() =~= s0.subrange(0, i as int));
                assert(s0.subrange(0, i + 1).last() == s0[i as int]);
            }
            if event_before(&self.items[i], &self.items[best]) {
                best = i;
            }
            i += 1;
        }
        proof {
            assert(s0.subrange(0, s0.len() as int) =~= s0);
        }
        let e = self.items.remove(best);
        Some(e)
    }
}

} // verus!
