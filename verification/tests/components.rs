//! Unit tests of the geometric kernel, the event queue and the
//! beachline.

use voronoi::beachline::Beachline;
use voronoi::diagram::Point;
use voronoi::events::Event;
use voronoi::events::EventQueue;
use voronoi::geometry;

fn pt(x: i64, y: i64) -> Point {
    Point { x, y }
}

#[test]
fn isqrt_exact_and_floored() {
    assert_eq!(geometry::isqrt(0), 0);
    assert_eq!(geometry::isqrt(1), 1);
    assert_eq!(geometry::isqrt(2), 1);
    assert_eq!(geometry::isqrt(3), 1);
    assert_eq!(geometry::isqrt(4), 2);
    assert_eq!(geometry::isqrt(140625), 375);
    assert_eq!(geometry::isqrt(140624), 374);
    assert_eq!(geometry::isqrt((1u128 << 100) - 1), (1u128 << 50) - 1);
}

#[test]
fn circumcircle_of_scenario_triangle() {
    let (c, r) = geometry::circumcircle(pt(200, 200), pt(800, 200), pt(500, 800)).unwrap();
    assert_eq!(c, pt(500, 425));
    assert_eq!(r, 375);
}

#[test]
fn circumcircle_collinear_is_none() {
    assert!(geometry::circumcircle(pt(0, 0), pt(10, 10), pt(20, 20)).is_none());
    assert!(geometry::circumcircle(pt(5, 7), pt(5, 7), pt(20, 3)).is_none());
}

#[test]
fn circumcircle_orientation_invariant() {
    let a = pt(200, 200);
    let b = pt(800, 200);
    let c = pt(500, 800);
    let (c1, r1) = geometry::circumcircle(a, b, c).unwrap();
    let (c2, r2) = geometry::circumcircle(c, a, b).unwrap();
    let (c3, r3) = geometry::circumcircle(b, c, a).unwrap();
    assert_eq!((c1, r1), (c2, r2));
    assert_eq!((c1, r1), (c3, r3));
}

#[test]
fn breakpoint_equal_heights_is_midpoint() {
    assert_eq!(geometry::breakpoint_x(pt(250, 500), pt(750, 500), 900), 500);
    assert_eq!(geometry::breakpoint_x(pt(-10, 3), pt(20, 3), 7), 5);
}

#[test]
fn breakpoint_focus_on_directrix_is_vertical_ray() {
    assert_eq!(geometry::breakpoint_x(pt(300, 700), pt(600, 200), 700), 300);
    assert_eq!(geometry::breakpoint_x(pt(600, 200), pt(300, 700), 700), 300);
}

#[test]
fn breakpoint_general_case() {
    // foci (0,1) and (2,0), directrix 2: the parabolas intersect where
    // x^2 + 4x - 6 = 0; between left focus (0,1) and right focus (2,0)
    // the consistent root is the right one, -2 + sqrt(10) = 1.162...;
    // with the floored square root the kernel computes (2 - 3)/(-1) = 1.
    let x = geometry::breakpoint_x(pt(0, 1), pt(2, 0), 2);
    assert_eq!(x, 1);
    // mirrored: left focus (0,0), right focus (2,1) picks the left root
    // 4 - sqrt(10) = 0.837...; the kernel computes (4 - 3)/1 = 1, one
    // unit above, from the same floored square root.
    let x2 = geometry::breakpoint_x(pt(0, 0), pt(2, 1), 2);
    assert_eq!(x2, 1);
}

#[test]
fn orientation_signs() {
    assert_eq!(geometry::orientation(pt(0, 0), pt(1, 0), pt(0, 1)), 1);
    assert_eq!(geometry::orientation(pt(0, 0), pt(0, 1), pt(1, 0)), -1);
    assert_eq!(geometry::orientation(pt(0, 0), pt(1, 1), pt(2, 2)), 0);
}

fn site_ev(y: i64, idx: usize) -> Event {
    Event { y, circle: false, idx, center: Point { x: 0, y: 0 } }
}

fn circle_ev(y: i64, idx: usize) -> Event {
    Event { y, circle: true, idx, center: Point { x: 1, y: 1 } }
}

#[test]
fn queue_orders_by_sweep_then_kind_then_index() {
    let mut q = EventQueue::new();
    q.push(circle_ev(5, 0));
    q.push(site_ev(5, 2));
    q.push(site_ev(3, 7));
    q.push(site_ev(5, 1));
    q.push(circle_ev(4, 9));
    assert_eq!(q.len(), 5);
    assert_eq!(q.pop_min(), Some(site_ev(3, 7)));
    assert_eq!(q.pop_min(), Some(circle_ev(4, 9)));
    assert_eq!(q.pop_min(), Some(site_ev(5, 1)));
    assert_eq!(q.pop_min(), Some(site_ev(5, 2)));
    assert_eq!(q.pop_min(), Some(circle_ev(5, 0)));
    assert_eq!(q.pop_min(), None);
    assert!(q.is_empty());
}

#[test]
fn queue_duplicate_keys_pop_in_insertion_order() {
    let mut q = EventQueue::new();
    let a = Event { y: 2, circle: true, idx: 3, center: Point { x: 10, y: 11 } };
    let b = Event { y: 2, circle: true, idx: 3, center: Point { x: 20, y: 21 } };
    q.push(a);
    q.push(b);
    assert_eq!(q.pop_min(), Some(a));
    assert_eq!(q.pop_min(), Some(b));
}

#[test]
fn beachline_split_and_remove() {
    let mut bl = Beachline::new();
    let a0 = bl.insert_first(0, pt(200, 200));
    assert_eq!(bl.len(), 1);
    // a site with the same sweep coordinate slots in beside the arc
    let a1 = bl.insert_beside(0, true, 1, pt(800, 200));
    assert_eq!(bl.len(), 2);
    assert_eq!(bl.arc_at(0), a0);
    assert_eq!(bl.arc_at(1), a1);
    // a later site splits the arc above it into three
    let pos = bl.find_arc_above(500, 800);
    assert_eq!(pos, 0);
    let n2 = bl.split_arc(pos, 2, pt(500, 800));
    assert_eq!(bl.len(), 4);
    assert_eq!(bl.arc_at(0), a0);
    assert_eq!(bl.arc_at(1), n2);
    assert_eq!(bl.arc_at(2), n2 + 1); // the copy of the split arc
    assert_eq!(bl.arc_at(3), a1);
    assert_eq!(bl.arc_data(n2 + 1).site, 0);
    assert_eq!(bl.arc_data(n2 + 1).focus, pt(200, 200));
    // removing the copy relinks its neighbors
    bl.remove_arc(2);
    assert_eq!(bl.len(), 3);
    assert_eq!(bl.arc_at(0), a0);
    assert_eq!(bl.arc_at(1), n2);
    assert_eq!(bl.arc_at(2), a1);
    assert_eq!(bl.position_of(n2), Some(1));
    assert_eq!(bl.position_of(n2 + 1), None);
}

#[test]
fn beachline_circumcircle_for_needs_two_neighbors() {
    let mut bl = Beachline::new();
    bl.insert_first(0, pt(200, 200));
    bl.insert_beside(0, true, 1, pt(800, 200));
    assert!(bl.circumcircle_for(0).is_none());
    assert!(bl.circumcircle_for(1).is_none());
    bl.split_arc(0, 2, pt(500, 800));
    // middle of (site 2, site 0, site 1) at positions 1..3
    let (c, r) = bl.circumcircle_for(2).unwrap();
    assert_eq!(c, pt(500, 425));
    assert_eq!(r, 375);
}
