//! The output container: a doubly-connected edge list (DCEL) of vertices,
//! half-edges and faces, addressed by stable integer handles.
//!
//! Half-edges bounding the outside of the clipped diagram carry the
//! sentinel face handle `FaceId(faces.len())`, for which `get_face`
//! returns `None`; every interior half-edge's face is a real face.

use vstd::prelude::*;

verus! {

/// A fixed-point planar position. The unit is chosen by the caller.
#[derive(Debug, Clone, Copy, PartialEq, Eq, Structural, Hash)]
pub struct Point {
    pub x: i64,
    pub y: i64,
}

/// Handle of a vertex in a `Diagram`.
#[derive(Debug, Clone, Copy, PartialEq, Eq, Structural, Hash)]
pub struct VertexId(u32);

/// Handle of a half-edge in a `Diagram`.
#[derive(Debug, Clone, Copy, PartialEq, Eq, Structural, Hash)]
pub struct HalfEdgeId(pub u32);

/// Handle of a face in a `Diagram`.
#[derive(Debug, Clone, Copy, PartialEq, Eq, Structural, Hash)]
pub struct FaceId(u32);

impl VertexId {
    pub closed spec fn view(self) -> int {
        self.0 as int
    }

    pub fn new(raw: u32) -> (r: VertexId)
        ensures
            r@ == raw as int,
    {
        VertexId(raw)
    }

    pub fn raw(self) -> (r: u32)
        ensures
            r as int == self@,
    {
        self.0
    }
}

impl HalfEdgeId {
    pub closed spec fn view(self) -> int {
        self.0 as int
    }

    pub fn new(raw: u32) -> (r: HalfEdgeId)
        ensures
            r@ == raw as int,
    {
        HalfEdgeId(raw)
    }

    pub fn raw(self) -> (r: u32)
        ensures
            r as int == self@,
    {
        self.0
    }
}

impl FaceId {
    pub closed spec fn view(self) -> int {
        self.0 as int
    }

    pub fn new(raw: u32) -> (r: FaceId)
        ensures
            r@ == raw as int,
    {
        FaceId(raw)
    }

    pub fn raw(self) -> (r: u32)
        ensures
            r as int == self@,
    {
        self.0
    }
}

/// A point of the output mesh.
#[derive(Debug, Clone, Copy, PartialEq, Eq, Structural)]
pub struct Vertex {
    pub coordinates: Point,
    pub incident_edge: HalfEdgeId,
}

/// A directed mesh edge; its twin bounds the neighboring face in the
/// opposite direction, and `next`/`prev` walk the loop around
/// `incident_face`.
#[derive(Debug, Clone, Copy, PartialEq, Eq, Structural)]
pub struct HalfEdge {
    pub origin: VertexId,
    pub twin: HalfEdgeId,
    pub incident_face: FaceId,
    pub next: HalfEdgeId,
    pub prev: HalfEdgeId,
}

/// One face per site, bounded by a closed loop of half-edges.
#[derive(Debug, Clone, Copy, PartialEq, Eq, Structural)]
pub struct Face {
    pub first_halfedge: HalfEdgeId,
}

/// The finished diagram: plain indexed storage with bounds-checked lookup.
#[derive(Debug, Clone, PartialEq)]
pub struct Diagram {
    pub vertices: Vec<Vertex>,
    pub halfedges: Vec<HalfEdge>,
    pub faces: Vec<Face>,
}

impl Default for Diagram {
    fn default() -> (d: Diagram)
        ensures
            d.vertices@.len() == 0,
            d.halfedges@.len() == 0,
            d.faces@.len() == 0,
    {
        Diagram { vertices: Vec::new(), halfedges: Vec::new(), faces: Vec::new() }
    }
}

impl Diagram {
    /// Looks up a vertex by handle; `None` exactly when the handle is out
    /// of range.
    pub fn get_vertex(&self, vertex_id: VertexId) -> (r: Option<&Vertex>)
        ensures
            vertex_id@ < self.vertices@.len() ==> r == Some(&self.vertices@[vertex_id@]),
            vertex_id@ >= self.vertices@.len() ==> r.is_none(),
    {
        self.vertices.get(vertex_id.0 as usize)
    }

    /// Looks up a half-edge by handle; `None` exactly when the handle is
    /// out of range.
    pub fn get_half_edge(&self, halfedge_id: HalfEdgeId) -> (r: Option<&HalfEdge>)
        ensures
            halfedge_id@ < self.halfedges@.len() ==> r == Some(&self.halfedges@[halfedge_id@]),
            halfedge_id@ >= self.halfedges@.len() ==> r.is_none(),
    {
        self.halfedges.get(halfedge_id.0 as usize)
    }

    /// Looks up a face by handle; `None` exactly when the handle is out of
    /// range. The sentinel outer face is out of range by construction.
    pub fn get_face(&self, face_id: FaceId) -> (r: Option<&Face>)
        ensures
            face_id@ < self.faces@.len() ==> r == Some(&self.faces@[face_id@]),
            face_id@ >= self.faces@.len() ==> r.is_none(),
    {
        self.faces.get(face_id.0 as usize)
    }
}


/// Law: every handle's view is a nonnegative integer below 2^32, so a
/// handle obtained from a getter can stand in index predicates such as
/// [`idx_ok`] directly.
pub proof fn lemma_handle_views(v: VertexId, h: HalfEdgeId, f: FaceId)
    ensures
        0 <= v@ < 0x1_0000_0000,
        0 <= h@ < 0x1_0000_0000,
        0 <= f@ < 0x1_0000_0000,
{
}

/// `e` is a valid half-edge index of `d`.
pub open spec fn idx_ok(d: Diagram, e: int) -> bool {
    0 <= e < d.halfedges@.len()
}

/// The twin index of half-edge `e`.
pub open spec fn twin_of(d: Diagram, e: int) -> int {
    d.halfedges@[e].twin@
}

/// The next index of half-edge `e`.
pub open spec fn next_of(d: Diagram, e: int) -> int {
    d.halfedges@[e].next@
}

/// The prev index of half-edge `e`.
pub open spec fn prev_of(d: Diagram, e: int) -> int {
    d.halfedges@[e].prev@
}

/// The incident face index of half-edge `e` (`d.faces@.len()` is the
/// sentinel outer face).
pub open spec fn face_of(d: Diagram, e: int) -> int {
    d.halfedges@[e].incident_face@
}

/// The origin vertex index of half-edge `e`.
pub open spec fn origin_of(d: Diagram, e: int) -> int {
    d.halfedges@[e].origin@
}

/// The half-edge reached from `e` by following `next` exactly `n` times.
pub open spec fn next_pow(d: Diagram, e: int, n: nat) -> int
    decreases n,
{
    if n == 0 {
        e
    } else {
        next_of(d, next_pow(d, e, (n - 1) as nat))
    }
}

/// How many of the first `n` half-edges have incident face `f`.
pub open spec fn count_face(d: Diagram, f: int, n: nat) -> int
    decreases n,
{
    if n == 0 {
        0
    } else {
        count_face(d, f, (n - 1) as nat) + if face_of(d, n - 1) == f {
            1int
        } else {
            0int
        }
    }
}

/// The number of half-edges bounding face `f`.
pub open spec fn face_edge_count(d: Diagram, f: int) -> int {
    count_face(d, f, d.halfedges@.len())
}

/// Local well-formedness of one half-edge: all its handles are in range
/// (the incident face may be the sentinel outer face), the twin relation
/// is a face-separating involution, `prev` inverts `next`, `next` stays
/// in the same face, and consecutive edges of a face meet head-to-tail
/// (the next edge starts at this edge's destination, i.e. at its twin's
/// origin).
pub open spec fn edge_ok(d: Diagram, e: int) -> bool {
    &&& idx_ok(d, twin_of(d, e))
    &&& idx_ok(d, next_of(d, e))
    &&& idx_ok(d, prev_of(d, e))
    &&& 0 <= origin_of(d, e) < d.vertices@.len()
    &&& 0 <= face_of(d, e) <= d.faces@.len()
    &&& twin_of(d, twin_of(d, e)) == e
    &&& twin_of(d, e) != e
    &&& face_of(d, twin_of(d, e)) != face_of(d, e)
    &&& prev_of(d, next_of(d, e)) == e
    &&& next_of(d, prev_of(d, e)) == e
    &&& face_of(d, next_of(d, e)) == face_of(d, e)
    &&& origin_of(d, next_of(d, e)) == origin_of(d, twin_of(d, e))
}

/// Local well-formedness of one vertex: its incident edge exists and
/// starts at the vertex.
pub open spec fn vertex_ok(d: Diagram, v: int) -> bool {
    &&& 0 <= d.vertices@[v].incident_edge@ < d.halfedges@.len()
    &&& origin_of(d, d.vertices@[v].incident_edge@) == v
}

/// The cycle property of one face `f`: from any half-edge of `f`,
/// following `next` returns to the start after exactly as many steps as
/// the face has edges, and not sooner.
pub open spec fn face_ok(d: Diagram, f: int) -> bool {
    &&& 0 <= d.faces@[f].first_halfedge@ < d.halfedges@.len()
    &&& face_of(d, d.faces@[f].first_halfedge@) == f
    &&& forall|e: int|
        idx_ok(d, e) && face_of(d, e) == f ==> #[trigger] next_pow(
            d,
            e,
            face_edge_count(d, f) as nat,
        ) == e
    &&& forall|e: int, j: int|
        idx_ok(d, e) && face_of(d, e) == f && 0 < j < face_edge_count(d, f) ==> #[trigger] next_pow(
            d,
            e,
            j as nat,
        ) != e
}

/// Full well-formedness of a diagram: every half-edge, vertex and face
/// is locally well-formed, and every face's boundary is one exact cycle.
pub open spec fn dcel_wf(d: Diagram) -> bool {
    &&& forall|e: int| idx_ok(d, e) ==> #[trigger] edge_ok(d, e)
    &&& forall|v: int| 0 <= v < d.vertices@.len() ==> #[trigger] vertex_ok(d, v)
    &&& forall|f: int| 0 <= f < d.faces@.len() ==> #[trigger] face_ok(d, f)
}

/// Law: the twin relation of a well-formed diagram is an involution
/// without fixed points, and a half-edge and its twin always bound
/// different faces.
pub proof fn lemma_twin_involution(d: Diagram, e: int)
    requires
        dcel_wf(d),
        idx_ok(d, e),
    ensures
        twin_of(d, twin_of(d, e)) == e,
        twin_of(d, e) != e,
        face_of(d, twin_of(d, e)) != face_of(d, e),
{
    assert(edge_ok(d, e));
}

/// Law: in a well-formed diagram, following `next` from any half-edge of
/// a face returns to the start within exactly the number of edges
/// bounding that face — no shorter, no longer, no open chain.
pub proof fn lemma_face_cycle(d: Diagram, e: int)
    requires
        dcel_wf(d),
        idx_ok(d, e),
        face_of(d, e) < d.faces@.len(),
    ensures
        next_pow(d, e, face_edge_count(d, face_of(d, e)) as nat) == e,
        forall|j: int|
            0 < j < face_edge_count(d, face_of(d, e)) ==> #[trigger] next_pow(d, e, j as nat) != e,
{
    assert(edge_ok(d, e));
    assert(0 <= face_of(d, e));
    assert(face_ok(d, face_of(d, e)));
}


/// `count_face` is nonnegative.
pub proof fn lemma_count_face_nonneg(d: Diagram, f: int, n: nat)
    ensures
        count_face(d, f, n) >= 0,
    decreases n,
{
    if n > 0 {
        lemma_count_face_nonneg(d, f, (n - 1) as nat);
    }
}

/// A face with at least one half-edge has a positive edge count.
pub proof fn lemma_count_face_pos(d: Diagram, f: int, e: int, n: nat)
    requires
        0 <= e < n,
        face_of(d, e) == f,
    ensures
        count_face(d, f, n) >= 1,
    decreases n,
{
    if e == n - 1 {
        lemma_count_face_nonneg(d, f, (n - 1) as nat);
    } else {
        lemma_count_face_pos(d, f, e, (n - 1) as nat);
    }
}

fn check_edge(d: &Diagram, e: usize) -> (r: bool)
    requires
        e < d.halfedges@.len(),
    ensures
        r == edge_ok(*d, e as int),
{
    let ne = d.halfedges.len();
    let he = &d.halfedges[e];
    let t = he.twin.raw() as usize;
    let nx = he.next.raw() as usize;
    let pv = he.prev.raw() as usize;
    let og = he.origin.raw() as usize;
    let f = he.incident_face.raw() as usize;
    if t >= ne || nx >= ne || pv >= ne {
        return false;
    }
    if og >= d.vertices.len() || f > d.faces.len() {
        return false;
    }
    let tw = &d.halfedges[t];
    let nxe = &d.halfedges[nx];
    let pve = &d.halfedges[pv];
    (tw.twin.raw() as usize == e) && (t != e) && (tw.incident_face.raw()
        != he.incident_face.raw()) && (nxe.prev.raw() as usize == e) && (pve.next.raw() as usize
        == e) && (nxe.incident_face.raw() == he.incident_face.raw()) && (nxe.origin.raw()
        == tw.origin.raw())
}

fn check_vertex(d: &Diagram, v: usize) -> (r: bool)
    requires
        v < d.vertices@.len(),
    ensures
        r == vertex_ok(*d, v as int),
{
    let ie = d.vertices[v].incident_edge.raw() as usize;
    if ie >= d.halfedges.len() {
        return false;
    }
    d.halfedges[ie].origin.raw() as usize == v
}

fn count_face_edges(d: &Diagram, f: usize) -> (k: usize)
    ensures
        k == count_face(*d, f as int, d.halfedges@.len()),
        k <= d.halfedges@.len(),
{
    let mut k: usize = 0;
    let mut i: usize = 0;
    let ne = d.halfedges.len();
    while i < ne
        invariant
            i <= ne,
            ne == d.halfedges@.len(),
            k <= i,
            k == count_face(*d, f as int, i as nat),
        decreases ne - i,
    {
        if d.halfedges[i].incident_face.raw() as usize == f {
            k += 1;
        }
        i += 1;
    }
    k
}

/// Walks `next` from `e`, checking that the walk returns to `e` at step
/// `k` exactly and never earlier.
fn check_walk(d: &Diagram, e: usize, k: usize) -> (r: bool)
    requires
        forall|x: int| idx_ok(*d, x) ==> #[trigger] edge_ok(*d, x),
        e < d.halfedges@.len(),
        k >= 1,
    ensures
        r == (next_pow(*d, e as int, k as nat) == e && forall|j: int|
            0 < j < k ==> #[trigger] next_pow(*d, e as int, j as nat) != e),
{
    let mut cur: usize = e;
    let mut j: usize = 0;
    while j < k
        invariant
            forall|x: int| idx_ok(*d, x) ==> #[trigger] edge_ok(*d, x),
            e < d.halfedges@.len(),
            cur < d.halfedges@.len(),
            j <= k,
            k >= 1,
            cur == next_pow(*d, e as int, j as nat),
            forall|i: int|
                0 < i <= j && i < k ==> #[trigger] next_pow(*d, e as int, i as nat) != e,
        decreases k - j,
    {
        proof {
            assert(edge_ok(*d, cur as int));
        }
        cur = d.halfedges[cur].next.raw() as usize;
        j += 1;
        if j < k {
            if cur == e {
                proof {
                    let ghost ji: int = j as int;
                    assert(ji as nat == j as nat);
                    assert(next_pow(*d, e as int, ji as nat) == e as int);
                    assert(0 < ji && ji < k as int);
                    assert(!(forall|i: int|
                        0 < i < k ==> #[trigger] next_pow(*d, e as int, i as nat) != e));
                }
                return false;
            }
        }
    }
    cur == e
}

fn check_face(d: &Diagram, f: usize) -> (r: bool)
    requires
        forall|x: int| idx_ok(*d, x) ==> #[trigger] edge_ok(*d, x),
        f < d.faces@.len(),
    ensures
        r == face_ok(*d, f as int),
{
    let fh = d.faces[f].first_halfedge.raw() as usize;
    let ne = d.halfedges.len();
    if fh >= ne {
        return false;
    }
    if d.halfedges[fh].incident_face.raw() as usize != f {
        return false;
    }
    let k = count_face_edges(d, f);
    let mut e: usize = 0;
    while e < ne
        invariant
            forall|x: int| idx_ok(*d, x) ==> #[trigger] edge_ok(*d, x),
            ne == d.halfedges@.len(),
            e <= ne,
            f < d.faces@.len(),
            k == face_edge_count(*d, f as int),
            k <= ne,
            0 <= (d.faces@[f as int].first_halfedge@) < d.halfedges@.len(),
            face_of(*d, d.faces@[f as int].first_halfedge@) == f as int,
            forall|x: int|
                0 <= x < e && face_of(*d, x) == f as int ==> #[trigger] next_pow(
                    *d,
                    x,
                    face_edge_count(*d, f as int) as nat,
                ) == x,
            forall|x: int, j: int|
                0 <= x < e && face_of(*d, x) == f as int && 0 < j < face_edge_count(*d, f as int)
                    ==> #[trigger] next_pow(*d, x, j as nat) != x,
        decreases ne - e,
    {
        if d.halfedges[e].incident_face.raw() as usize == f {
            proof {
                lemma_count_face_pos(*d, f as int, e as int, d.halfedges@.len());
            }
            if !check_walk(d, e, k) {
                proof {
                    let fi = f as int;
                    let ei = e as int;
                    let kk = face_edge_count(*d, fi);
                    assert(k as nat == kk as nat);
                    if face_ok(*d, fi) {
                        assert(next_pow(*d, ei, kk as nat) == ei);
                        assert(next_pow(*d, ei, k as nat) == ei);
                        assert(!(forall|j: int|
                            0 < j < k ==> #[trigger] next_pow(*d, ei, j as nat) != ei));
                        let j = choose|j: int|
                            0 < j < k && #[trigger] next_pow(*d, ei, j as nat) == ei;
                        assert(0 < j < kk);
                        assert(next_pow(*d, ei, j as nat) == ei);
                        assert(false);
                    }
                }
                return false;
            }
        }
        e += 1;
    }
    true
}

/// Checks full well-formedness of a diagram at run time: returns `true`
/// exactly when [`dcel_wf`] holds. The builder runs this on its output
/// and fails loudly instead of returning an ill-formed mesh.
pub fn check_diagram(d: &Diagram) -> (r: bool)
    ensures
        r == dcel_wf(*d),
{
    let ne = d.halfedges.len();
    let mut e: usize = 0;
    while e < ne
        invariant
            ne == d.halfedges@.len(),
            e <= ne,
            forall|x: int| 0 <= x < e ==> #[trigger] edge_ok(*d, x),
        decreases ne - e,
    {
        if !check_edge(d, e) {
            return false;
        }
        e += 1;
    }
    let nv = d.vertices.len();
    let mut v: usize = 0;
    while v < nv
        invariant
            nv == d.vertices@.len(),
            v <= nv,
            ne == d.halfedges@.len(),
            forall|x: int| idx_ok(*d, x) ==> #[trigger] edge_ok(*d, x),
            forall|x: int| 0 <= x < v ==> #[trigger] vertex_ok(*d, x),
        decreases nv - v,
    {
        if !check_vertex(d, v) {
            return false;
        }
        v += 1;
    }
    let nf = d.faces.len();
    let mut f: usize = 0;
    while f < nf
        invariant
            nf == d.faces@.len(),
            f <= nf,
            forall|x: int| idx_ok(*d, x) ==> #[trigger] edge_ok(*d, x),
            forall|x: int| 0 <= x < nv ==> #[trigger] vertex_ok(*d, x),
            nv == d.vertices@.len(),
            forall|x: int| 0 <= x < f ==> #[trigger] face_ok(*d, x),
        decreases nf - f,
    {
        if !check_face(d, f) {
            return false;
        }
        f += 1;
    }
    true
}

} // verus!
