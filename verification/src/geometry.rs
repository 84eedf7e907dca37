//! The fixed geometry of the textured quad: four clip-space corner
//! vertices with texture coordinates, and the triangle-strip index order
//! that covers the whole viewport.
//!
//! Clip-space coordinates here are exact integers: every coordinate the
//! quad uses is -1, 0 or 1, so the geometry and its coverage proof need
//! no floating point. The GPU-facing byte encoding of these values is in
//! the `packing` module.

use vstd::prelude::*;

verus! {

/// One vertex of the quad: a clip-space position and a texture (UV)
/// coordinate, each component an exact small integer.
#[derive(Clone, Copy, Debug, PartialEq, Eq, Structural)]
pub struct QuadVertex {
    /// Clip-space x, in [-1, 1].
    pub x: i32,
    /// Clip-space y, in [-1, 1].
    pub y: i32,
    /// Texture coordinate u, in [0, 1]; 0 is the left edge.
    pub u: i32,
    /// Texture coordinate v, in [0, 1]; 0 is the top edge.
    pub v: i32,
}

/// The four corners of the full-screen quad, in the order they sit in
/// the vertex buffer: bottom-left, top-left, top-right, bottom-right.
pub open spec fn quad_vertices_spec() -> Seq<QuadVertex> {
    seq![
        QuadVertex { x: -1i32, y: -1i32, u: 0i32, v: 1i32 },
        QuadVertex { x: -1i32, y: 1i32, u: 0i32, v: 0i32 },
        QuadVertex { x: 1i32, y: 1i32, u: 1i32, v: 0i32 },
        QuadVertex { x: 1i32, y: -1i32, u: 1i32, v: 1i32 },
    ]
}

/// The triangle-strip index order: vertices 0, 1, 3, 2 give the two
/// triangles (0, 1, 3) and (1, 3, 2), which share the main diagonal.
pub open spec fn quad_indices_spec() -> Seq<u16> {
    seq![0u16, 1u16, 3u16, 2u16]
}

/// Twice the signed area of the triangle (a, b, p): positive when p lies
/// to the left of the directed edge a -> b, zero when p is on its line.
#[verifier::inline]
pub open spec fn edge_side(ax: int, ay: int, bx: int, by: int, px: int, py: int) -> int {
    (bx - ax) * (py - ay) - (by - ay) * (px - ax)
}

/// Whether point (px, py) lies inside the triangle (a, b, c), edges
/// included, whatever the winding of the triangle.
pub open spec fn in_triangle(
    ax: int,
    ay: int,
    bx: int,
    by: int,
    cx: int,
    cy: int,
    px: int,
    py: int,
) -> bool {
    (edge_side(ax, ay, bx, by, px, py) >= 0 && edge_side(bx, by, cx, cy, px, py) >= 0
        && edge_side(cx, cy, ax, ay, px, py) >= 0) || (edge_side(ax, ay, bx, by, px, py) <= 0
        && edge_side(bx, by, cx, cy, px, py) <= 0 && edge_side(cx, cy, ax, ay, px, py) <= 0)
}

/// Whether (px, py) lies in triangle k of the strip that `indices` draws
/// over `vertices`, with every clip-space coordinate scaled by s. Scaling
/// by the viewport's half-extent states coverage at any pixel size.
pub open spec fn point_in_strip_triangle(
    vertices: Seq<QuadVertex>,
    indices: Seq<u16>,
    k: int,
    s: int,
    px: int,
    py: int,
) -> bool {
    in_triangle(
        vertices[indices[k] as int].x * s,
        vertices[indices[k] as int].y * s,
        vertices[indices[k + 1] as int].x * s,
        vertices[indices[k + 1] as int].y * s,
        vertices[indices[k + 2] as int].x * s,
        vertices[indices[k + 2] as int].y * s,
        px,
        py,
    )
}

/// Whether some triangle of the strip contains the point.
pub open spec fn point_covered(
    vertices: Seq<QuadVertex>,
    indices: Seq<u16>,
    s: int,
    px: int,
    py: int,
) -> bool {
    exists|k: int|
        0 <= k <= indices.len() - 3 && #[trigger] point_in_strip_triangle(
            vertices,
            indices,
            k,
            s,
            px,
            py,
        )
}

/// Whether the strip covers the whole clip-space viewport: at any scale,
/// every point of the scaled viewport square lies in some triangle.
pub open spec fn covers_clip_space(vertices: Seq<QuadVertex>, indices: Seq<u16>) -> bool {
    forall|s: int, px: int, py: int|
        s > 0 && -s <= px <= s && -s <= py <= s ==> #[trigger] point_covered(
            vertices,
            indices,
            s,
            px,
            py,
        )
}

/// The quad's vertices and index order cover the full clip-space
/// viewport, at every viewport scale: each point of the square is in the
/// lower-left triangle (0, 1, 3), the upper-right triangle (1, 3, 2), or
/// both (on the shared diagonal).
pub proof fn lemma_quad_covers_clip_space()
    ensures
        covers_clip_space(quad_vertices_spec(), quad_indices_spec()),
{
    let vs = quad_vertices_spec();
    let ids = quad_indices_spec();
    assert forall|s: int, px: int, py: int|
        s > 0 && -s <= px <= s && -s <= py <= s implies #[trigger] point_covered(
        vs,
        ids,
        s,
        px,
        py,
    ) by {
        if px + py <= 0 {
            // Triangle (0, 1, 3): corners (-s, -s), (-s, s), (s, -s).
            let ax = vs[ids[0] as int].x * s;
            let ay = vs[ids[0] as int].y * s;
            let bx = vs[ids[1] as int].x * s;
            let by = vs[ids[1] as int].y * s;
            let cx = vs[ids[2] as int].x * s;
            let cy = vs[ids[2] as int].y * s;
            assert(edge_side(ax, ay, bx, by, px, py) <= 0) by (nonlinear_arith)
                requires
                    ax == (-1) * s && ay == (-1) * s && bx == (-1) * s && by == 1 * s,
                    s > 0 && px >= -s,
            ;
            assert(edge_side(bx, by, cx, cy, px, py) <= 0) by (nonlinear_arith)
                requires
                    bx == (-1) * s && by == 1 * s && cx == 1 * s && cy == (-1) * s,
                    s > 0 && px + py <= 0,
            ;
            assert(edge_side(cx, cy, ax, ay, px, py) <= 0) by (nonlinear_arith)
                requires
                    cx == 1 * s && cy == (-1) * s && ax == (-1) * s && ay == (-1) * s,
                    s > 0 && py >= -s,
            ;
            assert(point_in_strip_triangle(vs, ids, 0, s, px, py));
        } else {
            // Triangle (1, 3, 2): corners (-s, s), (s, -s), (s, s).
            let ax = vs[ids[1] as int].x * s;
            let ay = vs[ids[1] as int].y * s;
            let bx = vs[ids[2] as int].x * s;
            let by = vs[ids[2] as int].y * s;
            let cx = vs[ids[3] as int].x * s;
            let cy = vs[ids[3] as int].y * s;
            assert(edge_side(ax, ay, bx, by, px, py) >= 0) by (nonlinear_arith)
                requires
                    ax == (-1) * s && ay == 1 * s && bx == 1 * s && by == (-1) * s,
                    s > 0 && px + py >= 0,
            ;
            assert(edge_side(bx, by, cx, cy, px, py) >= 0) by (nonlinear_arith)
                requires
                    bx == 1 * s && by == (-1) * s && cx == 1 * s && cy == 1 * s,
                    s > 0 && px <= s,
            ;
            assert(edge_side(cx, cy, ax, ay, px, py) >= 0) by (nonlinear_arith)
                requires
                    cx == 1 * s && cy == 1 * s && ax == (-1) * s && ay == 1 * s,
                    s > 0 && py <= s,
            ;
            assert(point_in_strip_triangle(vs, ids, 1, s, px, py));
        }
    }
}

/// The vertex list holds exactly the four corners of the clip-space
/// square, and each vertex's texture coordinate is the corner's: u runs
/// left to right with x, v runs top to bottom against y.
pub proof fn lemma_quad_vertices_are_corners()
    ensures
        quad_vertices_spec().len() == 4,
        forall|i: int|
            0 <= i < 4 ==> (#[trigger] quad_vertices_spec()[i].x == -1 || quad_vertices_spec()[i].x
                == 1),
        forall|i: int|
            0 <= i < 4 ==> (#[trigger] quad_vertices_spec()[i].y == -1 || quad_vertices_spec()[i].y
                == 1),
        forall|i: int, j: int|
            0 <= i < 4 && 0 <= j < 4 && i != j ==> #[trigger] quad_vertices_spec()[i]
                != #[trigger] quad_vertices_spec()[j],
        forall|i: int|
            0 <= i < 4 ==> #[trigger] quad_vertices_spec()[i].u == (quad_vertices_spec()[i].x + 1)
                / 2,
        forall|i: int|
            0 <= i < 4 ==> #[trigger] quad_vertices_spec()[i].v == (1 - quad_vertices_spec()[i].y)
                / 2,
{
}

/// Builds the quad's vertex list.
pub fn quad_vertices() -> (v: Vec<QuadVertex>)
    ensures
        v@ == quad_vertices_spec(),
{
    let mut v: Vec<QuadVertex> = Vec::new();
    v.push(QuadVertex { x: -1, y: -1, u: 0, v: 1 });
    v.push(QuadVertex { x: -1, y: 1, u: 0, v: 0 });
    v.push(QuadVertex { x: 1, y: 1, u: 1, v: 0 });
    v.push(QuadVertex { x: 1, y: -1, u: 1, v: 1 });
    proof {
        assert(v@ =~= quad_vertices_spec());
    }
    v
}

/// Builds the quad's triangle-strip index list.
pub fn quad_indices() -> (v: Vec<u16>)
    ensures
        v@ == quad_indices_spec(),
{
    let mut v: Vec<u16> = Vec::new();
    v.push(0);
    v.push(1);
    v.push(3);
    v.push(2);
    proof {
        assert(v@ =~= quad_indices_spec());
    }
    v
}

} // verus!
