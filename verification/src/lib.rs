//! Planar Voronoi diagrams of point sites inside a bounding rectangle,
//! built with Fortune's sweep-line algorithm and materialized as a
//! doubly-connected edge list (DCEL).
//!
//! Coordinates are fixed-point: every position is an `i64` that the caller
//! scales as it likes (the tests use 1000 units per 1.0). All geometric
//! predicates are computed in exact integer arithmetic; square roots and
//! divisions round toward negative infinity.

pub mod beachline;
pub mod builder;
pub mod diagram;
pub mod events;
mod finalize;
pub mod geometry;

pub use builder::construct;
pub use builder::BuildError;
pub use builder::Rect;
pub use diagram::Diagram;
pub use diagram::Face;
pub use diagram::FaceId;
pub use diagram::HalfEdge;
pub use diagram::HalfEdgeId;
pub use diagram::Point;
pub use diagram::Vertex;
pub use diagram::VertexId;
