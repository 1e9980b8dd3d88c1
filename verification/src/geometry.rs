//! The figure's geometry: 17 vertex positions offset by the current
//! translation, 9 triangle index triples for the filled regions, and 19 line
//! index pairs for the outline overlay.
//!
//! Vertex coordinates are fixed-point integers in thousandths of a
//! normalized-device-coordinate unit.  Generating the vertices is a pure
//! translation: every generated vertex is the corresponding base vertex with
//! the offset added to its `x` and `y` and its `z` kept at zero.  The index
//! tables are constants independent of the translation.

use vstd::prelude::*;

use crate::settings::{COORD_LIMIT, Translation};

verus! {

/// Number of vertices in the figure.
pub const VERTEX_COUNT: usize = 17;

/// Number of filled triangles in the figure.
pub const TRIANGLE_COUNT: usize = 9;

/// Number of outline segments in the figure.
pub const LINE_COUNT: usize = 19;

/// A vertex position in thousandths of a normalized-device-coordinate unit.
#[derive(Clone, Copy, Debug, PartialEq, Eq, Structural)]
pub struct Vertex {
    pub x: i64,
    pub y: i64,
    pub z: i64,
}

/// The figure's vertex positions before any translation.
pub open spec fn base_vertex(i: int) -> Vertex {
    if i == 0 {
        Vertex { x: -810i64, y: 120i64, z: 0i64 }
    } else if i == 1 {
        Vertex { x: -810i64, y: 468i64, z: 0i64 }
    } else if i == 2 {
        Vertex { x: -632i64, y: 291i64, z: 0i64 }
    } else if i == 3 {
        Vertex { x: -557i64, y: 364i64, z: 0i64 }
    } else if i == 4 {
        Vertex { x: -557i64, y: 120i64, z: 0i64 }
    } else if i == 5 {
        Vertex { x: -557i64, y: -141i64, z: 0i64 }
    } else if i == 6 {
        Vertex { x: -810i64, y: -141i64, z: 0i64 }
    } else if i == 7 {
        Vertex { x: -557i64, y: -11i64, z: 0i64 }
    } else if i == 8 {
        Vertex { x: -40i64, y: -11i64, z: 0i64 }
    } else if i == 9 {
        Vertex { x: 477i64, y: -11i64, z: 0i64 }
    } else if i == 10 {
        Vertex { x: -300i64, y: -270i64, z: 0i64 }
    } else if i == 11 {
        Vertex { x: 220i64, y: -270i64, z: 0i64 }
    } else if i == 12 {
        Vertex { x: -557i64, y: -526i64, z: 0i64 }
    } else if i == 13 {
        Vertex { x: 477i64, y: -526i64, z: 0i64 }
    } else if i == 14 {
        Vertex { x: 544i64, y: 236i64, z: 0i64 }
    } else if i == 15 {
        Vertex { x: 850i64, y: 408i64, z: 0i64 }
    } else if i == 16 {
        Vertex { x: 792i64, y: 168i64, z: 0i64 }
    } else {
        Vertex { x: 0i64, y: 0i64, z: 0i64 }
    }
}

/// The base vertex at position `i` of the figure.
pub fn base_vertex_at(i: usize) -> (v: Vertex)
    requires
        i < VERTEX_COUNT,
    ensures
        v == base_vertex(i as int),
{
    if i == 0 {
        Vertex { x: -810, y: 120, z: 0 }
    } else if i == 1 {
        Vertex { x: -810, y: 468, z: 0 }
    } else if i == 2 {
        Vertex { x: -632, y: 291, z: 0 }
    } else if i == 3 {
        Vertex { x: -557, y: 364, z: 0 }
    } else if i == 4 {
        Vertex { x: -557, y: 120, z: 0 }
    } else if i == 5 {
        Vertex { x: -557, y: -141, z: 0 }
    } else if i == 6 {
        Vertex { x: -810, y: -141, z: 0 }
    } else if i == 7 {
        Vertex { x: -557, y: -11, z: 0 }
    } else if i == 8 {
        Vertex { x: -40, y: -11, z: 0 }
    } else if i == 9 {
        Vertex { x: 477, y: -11, z: 0 }
    } else if i == 10 {
        Vertex { x: -300, y: -270, z: 0 }
    } else if i == 11 {
        Vertex { x: 220, y: -270, z: 0 }
    } else if i == 12 {
        Vertex { x: -557, y: -526, z: 0 }
    } else if i == 13 {
        Vertex { x: 477, y: -526, z: 0 }
    } else if i == 14 {
        Vertex { x: 544, y: 236, z: 0 }
    } else if i == 15 {
        Vertex { x: 850, y: 408, z: 0 }
    } else {
        Vertex { x: 792, y: 168, z: 0 }
    }
}

/// Every base coordinate lies well inside one screen unit.
pub proof fn lemma_base_vertex_bounds(i: int)
    ensures
        -1000 <= base_vertex(i).x <= 1000,
        -1000 <= base_vertex(i).y <= 1000,
        base_vertex(i).z == 0,
{
}

/// Generate the figure's vertices under the given translation.  The result
/// is a pure translation of the base figure: vertex `i` is the base vertex
/// `i` with the offset added to `x` and `y` and `z` left at zero.
pub fn get_vertices(landslide: &Translation) -> (r: Vec<Vertex>)
    requires
        -(COORD_LIMIT as int) <= landslide.x <= COORD_LIMIT as int,
        -(COORD_LIMIT as int) <= landslide.y <= COORD_LIMIT as int,
    ensures
        r@.len() == VERTEX_COUNT,
        forall|i: int|
            0 <= i < VERTEX_COUNT ==> {
                &&& #[trigger] r@[i].x == base_vertex(i).x + landslide.x
                &&& r@[i].y == base_vertex(i).y + landslide.y
                &&& r@[i].z == 0
            },
{
    let mut out: Vec<Vertex> = Vec::new();
    let mut i: usize = 0;
    while i < VERTEX_COUNT
        invariant
            i <= VERTEX_COUNT,
            out@.len() == i,
            -(COORD_LIMIT as int) <= landslide.x <= COORD_LIMIT as int,
            -(COORD_LIMIT as int) <= landslide.y <= COORD_LIMIT as int,
            forall|j: int|
                0 <= j < i ==> {
                    &&& #[trigger] out@[j].x == base_vertex(j).x + landslide.x
                    &&& out@[j].y == base_vertex(j).y + landslide.y
                    &&& out@[j].z == 0
                },
        decreases VERTEX_COUNT - i,
    {
        let base = base_vertex_at(i);
        proof {
            lemma_base_vertex_bounds(i as int);
        }
        out.push(Vertex { x: base.x + landslide.x, y: base.y + landslide.y, z: 0 });
        i = i + 1;
    }
    out
}

/// The triangle index triples of the filled regions.
pub open spec fn triangle_index(i: int) -> (u32, u32, u32) {
    if i == 0 {
        (0u32, 1u32, 2u32)
    } else if i == 1 {
        (0u32, 3u32, 4u32)
    } else if i == 2 {
        (0u32, 4u32, 6u32)
    } else if i == 3 {
        (4u32, 5u32, 6u32)
    } else if i == 4 {
        (7u32, 8u32, 12u32)
    } else if i == 5 {
        (8u32, 10u32, 11u32)
    } else if i == 6 {
        (8u32, 9u32, 13u32)
    } else if i == 7 {
        (9u32, 14u32, 16u32)
    } else if i == 8 {
        (14u32, 15u32, 16u32)
    } else {
        (0u32, 0u32, 0u32)
    }
}

/// The index triples of the 9 filled triangles.  Every index refers to one
/// of the figure's vertices.
pub fn get_triangles_indices() -> (r: Vec<(u32, u32, u32)>)
    ensures
        r@.len() == TRIANGLE_COUNT,
        forall|i: int| 0 <= i < TRIANGLE_COUNT ==> #[trigger] r@[i] == triangle_index(i),
        forall|i: int|
            0 <= i < TRIANGLE_COUNT ==> {
                &&& (#[trigger] r@[i]).0 < VERTEX_COUNT
                &&& r@[i].1 < VERTEX_COUNT
                &&& r@[i].2 < VERTEX_COUNT
            },
{
    let mut out: Vec<(u32, u32, u32)> = Vec::new();
    out.push((0, 1, 2));
    out.push((0, 3, 4));
    out.push((0, 4, 6));
    out.push((4, 5, 6));
    out.push((7, 8, 12));
    out.push((8, 10, 11));
    out.push((8, 9, 13));
    out.push((9, 14, 16));
    out.push((14, 15, 16));
    out
}

/// The line index pairs of the outline overlay.
pub open spec fn line_index(i: int) -> (u32, u32) {
    if i == 0 {
        (0u32, 1u32)
    } else if i == 1 {
        (1u32, 2u32)
    } else if i == 2 {
        (0u32, 3u32)
    } else if i == 3 {
        (3u32, 4u32)
    } else if i == 4 {
        (0u32, 4u32)
    } else if i == 5 {
        (0u32, 6u32)
    } else if i == 6 {
        (4u32, 7u32)
    } else if i == 7 {
        (5u32, 6u32)
    } else if i == 8 {
        (7u32, 12u32)
    } else if i == 9 {
        (7u32, 8u32)
    } else if i == 10 {
        (8u32, 9u32)
    } else if i == 11 {
        (8u32, 12u32)
    } else if i == 12 {
        (8u32, 13u32)
    } else if i == 13 {
        (10u32, 11u32)
    } else if i == 14 {
        (9u32, 13u32)
    } else if i == 15 {
        (9u32, 14u32)
    } else if i == 16 {
        (9u32, 16u32)
    } else if i == 17 {
        (14u32, 15u32)
    } else if i == 18 {
        (15u32, 16u32)
    } else {
        (0u32, 0u32)
    }
}

/// The index pairs of the 19 outline segments.  Every index refers to one of
/// the figure's vertices.
pub fn get_lines_indices() -> (r: Vec<(u32, u32)>)
    ensures
        r@.len() == LINE_COUNT,
        forall|i: int| 0 <= i < LINE_COUNT ==> #[trigger] r@[i] == line_index(i),
        forall|i: int|
            0 <= i < LINE_COUNT ==> {
                &&& (#[trigger] r@[i]).0 < VERTEX_COUNT
                &&& r@[i].1 < VERTEX_COUNT
            },
{
    let mut out: Vec<(u32, u32)> = Vec::new();
    out.push((0, 1));
    out.push((1, 2));
    out.push((0, 3));
    out.push((3, 4));
    out.push((0, 4));
    out.push((0, 6));
    out.push((4, 7));
    out.push((5, 6));
    out.push((7, 12));
    out.push((7, 8));
    out.push((8, 9));
    out.push((8, 12));
    out.push((8, 13));
    out.push((10, 11));
    out.push((9, 13));
    out.push((9, 14));
    out.push((9, 16));
    out.push((14, 15));
    out.push((15, 16));
    out
}

} // verus!
