//! End-to-end scenarios of the construction, on a unit rectangle scaled
//! by 1000 fixed-point units.

use voronoi::builder::construct;
use voronoi::builder::BuildError;
use voronoi::builder::Rect;
use voronoi::diagram::Diagram;
use voronoi::diagram::FaceId;
use voronoi::diagram::HalfEdgeId;
use voronoi::diagram::Point;
use voronoi::diagram::VertexId;

fn unit_rect() -> Rect {
    Rect { x: 0, y: 0, width: 1000, height: 1000 }
}

fn pt(x: i64, y: i64) -> Point {
    Point { x, y }
}

/// Number of vertices strictly inside the rectangle.
fn interior_vertex_count(d: &Diagram, r: Rect) -> usize {
    d.vertices
        .iter()
        .filter(|v| {
            let p = v.coordinates;
            p.x > r.x && p.x < r.x + r.width && p.y > r.y && p.y < r.y + r.height
        })
        .count()
}

/// Number of undirected edges whose two half-edges both bound real faces.
fn interior_edge_count(d: &Diagram) -> usize {
    let nf = d.faces.len() as u32;
    let mut count = 0;
    for (i, he) in d.halfedges.iter().enumerate() {
        let t = he.twin.0 as usize;
        if t > i {
            let f1 = d.halfedges[i].incident_face;
            let f2 = d.halfedges[t].incident_face;
            if f1.raw() < nf && f2.raw() < nf {
                count += 1;
            }
        }
    }
    count
}

#[test]
fn one_site_whole_rectangle() {
    let d = construct(unit_rect(), &vec![pt(500, 500)]).unwrap();
    assert_eq!(d.faces.len(), 1);
    assert_eq!(interior_vertex_count(&d, unit_rect()), 0);
    // the single face is the whole rectangle: its cycle has 4 corners
    let first = d.faces[0].first_halfedge;
    let mut cur = first;
    let mut corners = Vec::new();
    for _ in 0..4 {
        let he = d.get_half_edge(cur).unwrap();
        let v = d.get_vertex(he.origin).unwrap();
        corners.push((v.coordinates.x, v.coordinates.y));
        cur = he.next;
    }
    assert_eq!(cur, first);
    corners.sort();
    assert_eq!(corners, vec![(0, 0), (0, 1000), (1000, 0), (1000, 1000)]);
}

#[test]
fn two_sites_vertical_bisector() {
    let d = construct(unit_rect(), &vec![pt(250, 500), pt(750, 500)]).unwrap();
    assert_eq!(d.faces.len(), 2);
    assert_eq!(interior_vertex_count(&d, unit_rect()), 0);
    assert_eq!(interior_edge_count(&d), 1);
    // the one interior edge is the vertical bisector at x == 500
    let nf = d.faces.len() as u32;
    for he in &d.halfedges {
        let tw = d.get_half_edge(he.twin).unwrap();
        if he.incident_face.raw() < nf && tw.incident_face.raw() < nf {
            let a = d.get_vertex(he.origin).unwrap().coordinates;
            let b = d.get_vertex(tw.origin).unwrap().coordinates;
            assert_eq!(a.x, 500);
            assert_eq!(b.x, 500);
            let mut ys = vec![a.y, b.y];
            ys.sort();
            assert_eq!(ys, vec![0, 1000]);
        }
    }
}

#[test]
fn three_sites_one_circumcenter_vertex() {
    let sites = vec![pt(200, 200), pt(800, 200), pt(500, 800)];
    let d = construct(unit_rect(), &sites).unwrap();
    assert_eq!(d.faces.len(), 3);
    assert_eq!(interior_vertex_count(&d, unit_rect()), 1);
    assert_eq!(interior_edge_count(&d), 3);
    let inner: Vec<Point> = d
        .vertices
        .iter()
        .map(|v| v.coordinates)
        .filter(|p| p.x > 0 && p.x < 1000 && p.y > 0 && p.y < 1000)
        .collect();
    // the interior vertex is the circumcenter of the three sites
    assert_eq!(inner, vec![pt(500, 425)]);
}

#[test]
fn boundary_site_is_excluded() {
    let sites = vec![pt(500, 0), pt(250, 500)];
    let d = construct(unit_rect(), &sites).unwrap();
    assert_eq!(d.faces.len(), 1);
}

#[test]
fn outside_site_is_excluded() {
    let sites = vec![pt(-100, 500), pt(250, 500), pt(1500, 300)];
    let d = construct(unit_rect(), &sites).unwrap();
    assert_eq!(d.faces.len(), 1);
}

#[test]
fn invalid_rectangle_is_rejected() {
    let r = Rect { x: 0, y: 0, width: 0, height: 1000 };
    assert_eq!(construct(r, &vec![pt(1, 1)]), Err(BuildError::InvalidBounds));
    let r2 = Rect { x: 10, y: 10, width: 100, height: -5 };
    assert_eq!(construct(r2, &vec![pt(1, 1)]), Err(BuildError::InvalidBounds));
}

#[test]
fn no_sites_empty_diagram() {
    let d = construct(unit_rect(), &vec![]).unwrap();
    assert_eq!(d.faces.len(), 0);
    assert_eq!(d.halfedges.len(), 0);
    assert_eq!(d.vertices.len(), 0);
}

#[test]
fn construction_is_deterministic() {
    let sites = vec![pt(200, 200), pt(800, 200), pt(500, 800), pt(300, 600)];
    let d1 = construct(unit_rect(), &sites).unwrap();
    let d2 = construct(unit_rect(), &sites).unwrap();
    assert_eq!(d1, d2);
}

#[test]
fn four_sites_one_face_each() {
    let sites = vec![pt(200, 200), pt(800, 200), pt(500, 800), pt(300, 600)];
    let d = construct(unit_rect(), &sites).unwrap();
    assert_eq!(d.faces.len(), 4);
}

#[test]
fn five_sites_one_face_each() {
    let sites = vec![pt(100, 150), pt(850, 250), pt(500, 500), pt(210, 800), pt(700, 750)];
    let d = construct(unit_rect(), &sites).unwrap();
    assert_eq!(d.faces.len(), 5);
}

#[test]
fn twin_relation_is_symmetric_and_separating() {
    let sites = vec![pt(200, 200), pt(800, 200), pt(500, 800)];
    let d = construct(unit_rect(), &sites).unwrap();
    for i in 0..d.halfedges.len() {
        let e = d.get_half_edge(HalfEdgeId(i as u32)).unwrap();
        let t = d.get_half_edge(e.twin).unwrap();
        assert_eq!(t.twin, HalfEdgeId(i as u32));
        assert_ne!(e.incident_face, t.incident_face);
    }
}

#[test]
fn face_cycles_close_exactly() {
    let sites = vec![pt(200, 200), pt(800, 200), pt(500, 800), pt(300, 600)];
    let d = construct(unit_rect(), &sites).unwrap();
    for (f, face) in d.faces.iter().enumerate() {
        let count = d
            .halfedges
            .iter()
            .filter(|he| he.incident_face.raw() == f as u32)
            .count();
        let mut cur = face.first_halfedge;
        for step in 0..count {
            let he = d.get_half_edge(cur).unwrap();
            assert_eq!(he.incident_face.raw(), f as u32);
            cur = he.next;
            if step + 1 < count {
                assert_ne!(cur, face.first_halfedge);
            }
        }
        assert_eq!(cur, face.first_halfedge);
    }
}

#[test]
fn lookup_out_of_range_is_none() {
    let d = construct(unit_rect(), &vec![pt(500, 500)]).unwrap();
    assert!(d.get_vertex(VertexId::new(d.vertices.len() as u32)).is_none());
    assert!(d.get_half_edge(HalfEdgeId(d.halfedges.len() as u32)).is_none());
    assert!(d.get_face(FaceId::new(d.faces.len() as u32)).is_none());
    assert!(d.get_vertex(VertexId::new(0)).is_some());
}

#[test]
fn three_collinear_sites_make_stripes() {
    // collinear sites admit no circle events: parallel bisectors only
    let d = construct(unit_rect(), &vec![pt(200, 500), pt(500, 500), pt(800, 500)]).unwrap();
    assert_eq!(d.faces.len(), 3);
    assert_eq!(interior_vertex_count(&d, unit_rect()), 0);
    assert_eq!(interior_edge_count(&d), 2);
}

#[test]
fn three_vertically_collinear_sites() {
    let d = construct(unit_rect(), &vec![pt(500, 200), pt(500, 500), pt(500, 800)]).unwrap();
    assert_eq!(d.faces.len(), 3);
    assert_eq!(interior_vertex_count(&d, unit_rect()), 0);
    assert_eq!(interior_edge_count(&d), 2);
}

#[test]
fn four_cocircular_sites_share_one_vertex() {
    // the four cells of a square of sites meet in a single vertex at
    // its center; the degenerate zero-length edge is dropped
    let sites = vec![pt(300, 300), pt(700, 300), pt(700, 700), pt(300, 700)];
    let d = construct(unit_rect(), &sites).unwrap();
    assert_eq!(d.faces.len(), 4);
    assert_eq!(interior_vertex_count(&d, unit_rect()), 1);
    let inner: Vec<Point> = d
        .vertices
        .iter()
        .map(|v| v.coordinates)
        .filter(|p| p.x > 0 && p.x < 1000 && p.y > 0 && p.y < 1000)
        .collect();
    assert_eq!(inner, vec![pt(500, 500)]);
}

#[test]
fn grid_of_nine_sites() {
    let mut sites = Vec::new();
    for x in [250, 500, 750] {
        for y in [250, 500, 750] {
            sites.push(pt(x, y));
        }
    }
    let d = construct(unit_rect(), &sites).unwrap();
    assert_eq!(d.faces.len(), 9);
}

#[test]
fn ten_scattered_sites() {
    let sites = vec![
        pt(113, 87),
        pt(912, 140),
        pt(333, 333),
        pt(640, 410),
        pt(255, 601),
        pt(777, 666),
        pt(128, 905),
        pt(500, 777),
        pt(873, 873),
        pt(444, 222),
    ];
    let d = construct(unit_rect(), &sites).unwrap();
    assert_eq!(d.faces.len(), 10);
}

#[test]
fn close_pair_of_sites() {
    let sites = vec![pt(499, 500), pt(501, 500), pt(500, 900)];
    let d = construct(unit_rect(), &sites).unwrap();
    assert_eq!(d.faces.len(), 3);
}

#[test]
fn default_diagram_is_empty() {
    let d = Diagram::default();
    assert!(d.vertices.is_empty());
    assert!(d.halfedges.is_empty());
    assert!(d.faces.is_empty());
}

#[test]
fn negative_origin_rectangle() {
    // a rectangle with a negative origin is a valid configuration
    let r = Rect { x: -500, y: -500, width: 1000, height: 1000 };
    let sites = vec![pt(-250, 0), pt(250, 0)];
    let d = construct(r, &sites).unwrap();
    assert_eq!(d.faces.len(), 2);
    assert_eq!(interior_vertex_count(&d, r), 0);
    assert_eq!(interior_edge_count(&d), 1);
}
