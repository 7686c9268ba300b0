//! What the GPU is told once at start-up: the vertices of the quad that the
//! shader is drawn on, and the fixed numbers of the render pipeline.

use crate::error::OverlayError;
use crate::window::OverlayWindow;
use vstd::prelude::*;

verus! {

/// Vertices drawn per frame: two triangles.
pub const VERTEX_COUNT: u32 = 6;

/// Instances drawn per frame.
pub const INSTANCE_COUNT: u32 = 1;

/// Bytes from one vertex to the next: two 32-bit coordinates.
pub const VERTEX_STRIDE: u64 = 8;

/// Where the push-constant range starts, in bytes.
pub const PUSH_CONSTANT_OFFSET: u32 = 0;

/// The size of the push-constant range, in bytes: one 32-bit time value.
pub const PUSH_CONSTANT_SIZE: u32 = 4;

/// The numbers that the pipeline, the vertex buffer and the surface are made
/// with. The surface has the size of the window, which never changes.
#[derive(Clone, Copy, Debug, PartialEq, Eq, Structural)]
pub struct PipelineSettings {
    pub push_constant_offset: u32,
    pub push_constant_size: u32,
    pub vertex_stride: u64,
    pub vertex_count: u32,
    pub instance_count: u32,
    pub vertex_buffer_size: u64,
    pub surface_width: u32,
    pub surface_height: u32,
}

/// The corners of the quad, in the order in which they are drawn: two
/// triangles, each counter-clockwise, that meet along the diagonal from
/// (-1, -1) to (1, 1).
pub open spec fn quad() -> Seq<(i8, i8)> {
    seq![(-1i8, -1i8), (1i8, -1i8), (1i8, 1i8), (1i8, 1i8), (-1i8, 1i8), (-1i8, -1i8)]
}

/// Whether the point (px / q, py / q) lies on the left of the line from `a`
/// to `b`, or on it.
pub open spec fn left_of(a: (i8, i8), b: (i8, i8), px: int, py: int, q: int) -> bool {
    (b.0 - a.0) * (py - a.1 * q) - (b.1 - a.1) * (px - a.0 * q) >= 0
}

/// Whether the point (px / q, py / q) lies in the counter-clockwise triangle
/// with corners `a`, `b` and `c`, its edges included.
pub open spec fn in_triangle(
    a: (i8, i8),
    b: (i8, i8),
    c: (i8, i8),
    px: int,
    py: int,
    q: int,
) -> bool {
    left_of(a, b, px, py, q) && left_of(b, c, px, py, q) && left_of(c, a, px, py, q)
}

/// Whether the point (px / q, py / q) lies in one of the two triangles that
/// the six vertices of `v` make up.
pub open spec fn covered_by(v: Seq<(i8, i8)>, px: int, py: int, q: int) -> bool {
    in_triangle(v[0], v[1], v[2], px, py, q) || in_triangle(v[3], v[4], v[5], px, py, q)
}

/// The vertices to fill the vertex buffer with, as whole-numbered coordinate
/// pairs.
pub fn quad_vertices() -> (v: Vec<(i8, i8)>)
    ensures
        v@ == quad(),
        v@.len() == VERTEX_COUNT,
{
    let mut v: Vec<(i8, i8)> = Vec::new();
    v.push((-1i8, -1i8));
    v.push((1i8, -1i8));
    v.push((1i8, 1i8));
    v.push((1i8, 1i8));
    v.push((-1i8, 1i8));
    v.push((-1i8, -1i8));
    assert(v@ =~= quad());
    v
}

/// The side test written over the coordinates of `a` and `b` as plain
/// integers, so that known corners make it a linear condition on the point.
proof fn lemma_left_of_known(
    a: (i8, i8),
    b: (i8, i8),
    ax: int,
    ay: int,
    bx: int,
    by: int,
    px: int,
    py: int,
    q: int,
)
    requires
        a.0 == ax,
        a.1 == ay,
        b.0 == bx,
        b.1 == by,
    ensures
        left_of(a, b, px, py, q) <==> (bx - ax) * (py - ay * q) - (by - ay) * (px - ax * q) >= 0,
{
}

/// The two triangles of the quad cover the square from -1 to 1 on both axes
/// and nothing else: a point with rational coordinates lies in one of them
/// exactly when it lies in that square.
pub proof fn lemma_quad_covers_square(px: int, py: int, q: int)
    requires
        q > 0,
    ensures
        covered_by(quad(), px, py, q) <==> (-q <= px <= q && -q <= py <= q),
{
    let sw = (-1i8, -1i8);
    let se = (1i8, -1i8);
    let ne = (1i8, 1i8);
    let nw = (-1i8, 1i8);
    let v = quad();
    assert(v[0] == sw && v[1] == se && v[2] == ne);
    assert(v[3] == ne && v[4] == nw && v[5] == sw);
    lemma_left_of_known(sw, se, -1, -1, 1, -1, px, py, q);
    lemma_left_of_known(se, ne, 1, -1, 1, 1, px, py, q);
    lemma_left_of_known(ne, sw, 1, 1, -1, -1, px, py, q);
    lemma_left_of_known(ne, nw, 1, 1, -1, 1, px, py, q);
    lemma_left_of_known(nw, sw, -1, 1, -1, -1, px, py, q);
    lemma_left_of_known(sw, ne, -1, -1, 1, 1, px, py, q);
}

/// Fails unless the adapter can pass push constants to shader stages, which
/// is how the time value reaches the fragment shader.
pub fn require_push_constants(supported: bool) -> (r: Result<(), OverlayError>)
    ensures
        r is Ok <==> supported,
        r is Err ==> r == Err::<(), OverlayError>(OverlayError::PushConstantsUnsupported),
{
    if supported {
        Ok(())
    } else {
        Err(OverlayError::PushConstantsUnsupported)
    }
}

/// The settings for a pipeline that draws into `window`.
pub fn pipeline_settings(window: &OverlayWindow) -> (s: PipelineSettings)
    ensures
        s == (PipelineSettings {
            push_constant_offset: 0,
            push_constant_size: 4,
            vertex_stride: 8,
            vertex_count: 6,
            instance_count: 1,
            vertex_buffer_size: 48,
            surface_width: window.width as u32,
            surface_height: window.height as u32,
        }),
        s.vertex_buffer_size == s.vertex_stride * s.vertex_count,
        s.vertex_count == quad().len(),
{
    PipelineSettings {
        push_constant_offset: PUSH_CONSTANT_OFFSET,
        push_constant_size: PUSH_CONSTANT_SIZE,
        vertex_stride: VERTEX_STRIDE,
        vertex_count: VERTEX_COUNT,
        instance_count: INSTANCE_COUNT,
        vertex_buffer_size: VERTEX_STRIDE * 6,
        surface_width: window.width as u32,
        surface_height: window.height as u32,
    }
}

} // verus!
