//! The quad: four vertices and the two triangles that cover it.

use crate::ratio::Ratio;
use vstd::prelude::*;

verus! {

/// The number of components that one vertex holds.
pub const VERTEX_COMPONENTS: usize = 8;

/// The number of vertices of the quad.
pub const QUAD_VERTICES: usize = 4;

/// The number of indices that draw the quad: two triangles of three corners.
pub const QUAD_INDICES: usize = 6;

/// One vertex: a position, a colour and a texture coordinate.
#[derive(Clone, Copy, Debug, PartialEq, Eq, Structural)]
pub struct Vertex {
    pub x: Ratio,
    pub y: Ratio,
    pub z: Ratio,
    pub red: Ratio,
    pub green: Ratio,
    pub blue: Ratio,
    pub u: Ratio,
    pub v: Ratio,
}

impl Vertex {
    /// The eight components in the order in which they are packed.
    pub open spec fn components(self) -> Seq<Ratio> {
        seq![self.x, self.y, self.z, self.red, self.green, self.blue, self.u, self.v]
    }

    /// The position, as three components.
    pub open spec fn position(self) -> Seq<Ratio> {
        seq![self.x, self.y, self.z]
    }

    /// The colour, as three components.
    pub open spec fn color(self) -> Seq<Ratio> {
        seq![self.red, self.green, self.blue]
    }

    /// The texture coordinate, as two components.
    pub open spec fn tex_coord(self) -> Seq<Ratio> {
        seq![self.u, self.v]
    }

    /// Every component is a well-formed fraction.
    pub open spec fn wf(self) -> bool {
        forall|k: int| 0 <= k < 8 ==> (#[trigger] self.components()[k]).wf()
    }

    /// The component at place `k` of the packed order, if there is one.
    pub fn component(&self, k: usize) -> (c: Option<Ratio>)
        ensures
            c.is_some() == (k < VERTEX_COMPONENTS),
            c.is_some() ==> c.unwrap() == self.components()[k as int],
    {
        if k == 0 {
            Some(self.x)
        } else if k == 1 {
            Some(self.y)
        } else if k == 2 {
            Some(self.z)
        } else if k == 3 {
            Some(self.red)
        } else if k == 4 {
            Some(self.green)
        } else if k == 5 {
            Some(self.blue)
        } else if k == 6 {
            Some(self.u)
        } else if k == 7 {
            Some(self.v)
        } else {
            None
        }
    }
}

/// Half a unit to the right or upwards where `positive` holds, else to the left or downwards.
pub open spec fn half(positive: bool) -> Ratio {
    Ratio { num: if positive { 1i32 } else { (-1) as i32 }, den: 2 }
}

/// The whole number one where `on` holds, else zero.
pub open spec fn unit(on: bool) -> Ratio {
    Ratio { num: if on { 1i32 } else { 0i32 }, den: 1 }
}

/// The vertex in one corner of the quad.
///
/// The quad is a unit square about the origin, in the plane `z = 0`. The
/// lower edge is white and the upper edge red. The texture coordinate is
/// `(0, 0)` in the lower left corner and `(1, 1)` in the upper right.
pub open spec fn corner(right: bool, top: bool) -> Vertex {
    Vertex {
        x: half(right),
        y: half(top),
        z: unit(false),
        red: unit(true),
        green: unit(!top),
        blue: unit(!top),
        u: unit(right),
        v: unit(top),
    }
}

/// The four vertices of the quad, counter-clockwise from the lower left.
pub open spec fn quad() -> Seq<Vertex> {
    seq![corner(false, false), corner(true, false), corner(true, true), corner(false, true)]
}

/// The indices of the two triangles: lower right, then upper left.
pub open spec fn quad_triangles() -> Seq<u32> {
    seq![0u32, 1u32, 2u32, 2u32, 3u32, 0u32]
}

fn half_unit(positive: bool) -> (r: Ratio)
    ensures
        r == half(positive),
{
    if positive {
        Ratio::new(1, 2)
    } else {
        Ratio::new(-1, 2)
    }
}

fn zero_or_one(on: bool) -> (r: Ratio)
    ensures
        r == unit(on),
{
    if on {
        Ratio::whole(1)
    } else {
        Ratio::whole(0)
    }
}

fn make_corner(right: bool, top: bool) -> (r: Vertex)
    ensures
        r == corner(right, top),
{
    Vertex {
        x: half_unit(right),
        y: half_unit(top),
        z: zero_or_one(false),
        red: zero_or_one(true),
        green: zero_or_one(!top),
        blue: zero_or_one(!top),
        u: zero_or_one(right),
        v: zero_or_one(top),
    }
}

/// The four vertices of the quad, each component a well-formed fraction.
pub fn quad_vertices() -> (vs: Vec<Vertex>)
    ensures
        vs@ == quad(),
        forall|i: int| 0 <= i < vs@.len() ==> (#[trigger] vs@[i]).wf(),
{
    let mut vs: Vec<Vertex> = Vec::new();
    vs.push(make_corner(false, false));
    vs.push(make_corner(true, false));
    vs.push(make_corner(true, true));
    vs.push(make_corner(false, true));
    assert(vs@ =~= quad());
    assert forall|i: int| 0 <= i < vs@.len() implies (#[trigger] vs@[i]).wf() by {
        assert(vs@[i] == corner(i == 1 || i == 2, i >= 2));
    }
    vs
}

/// The six indices that draw the quad as two triangles.
pub fn quad_indices() -> (ix: Vec<u32>)
    ensures
        ix@ == quad_triangles(),
{
    let mut ix: Vec<u32> = Vec::new();
    ix.push(0);
    ix.push(1);
    ix.push(2);
    ix.push(2);
    ix.push(3);
    ix.push(0);
    assert(ix@ =~= quad_triangles());
    ix
}

/// A point of the plane on an integer grid.
pub struct Point {
    pub x: int,
    pub y: int,
}

/// Where a vertex lies on a grid that has `scale` steps to half a unit.
pub open spec fn on_grid(vertex: Vertex, scale: int) -> Point {
    Point { x: vertex.x.times(2 * scale), y: vertex.y.times(2 * scale) }
}

/// Twice the signed area of the triangle `a`, `b`, `p`: positive where `p`
/// lies to the left of the line from `a` to `b`, zero where it lies on it.
pub open spec fn side(a: Point, b: Point, p: Point) -> int {
    (b.x - a.x) * (p.y - a.y) - (b.y - a.y) * (p.x - a.x)
}

/// The three corners of the triangle numbered `k` that `indices` cuts from `vertices`.
pub open spec fn triangle(vertices: Seq<Vertex>, indices: Seq<u32>, k: int, scale: int) -> (
    Point,
    Point,
    Point,
) {
    (
        on_grid(vertices[indices[3 * k] as int], scale),
        on_grid(vertices[indices[3 * k + 1] as int], scale),
        on_grid(vertices[indices[3 * k + 2] as int], scale),
    )
}

/// `p` lies in the counter-clockwise triangle `t`, its edges included.
pub open spec fn in_triangle(t: (Point, Point, Point), p: Point) -> bool {
    side(t.0, t.1, p) >= 0 && side(t.1, t.2, p) >= 0 && side(t.2, t.0, p) >= 0
}

/// `p` lies in the counter-clockwise triangle `t` and on none of its edges.
pub open spec fn inside_triangle(t: (Point, Point, Point), p: Point) -> bool {
    side(t.0, t.1, p) > 0 && side(t.1, t.2, p) > 0 && side(t.2, t.0, p) > 0
}

/// On which side `p` lies of the quad's edge from vertex `i` to the next vertex.
pub open spec fn edge_side(scale: int, i: int, p: Point) -> int {
    side(on_grid(quad()[i], scale), on_grid(quad()[(i + 1) % 4], scale), p)
}

/// `p` lies in the quad, its edges included: to the left of each of the four
/// edges that run counter-clockwise from vertex to vertex.
pub open spec fn in_quad(scale: int, p: Point) -> bool {
    forall|i: int| 0 <= i < 4 ==> #[trigger] edge_side(scale, i, p) >= 0
}

/// Zero times `k` is zero, and one times `k` is `k`.
pub proof fn lemma_unit_times(on: bool, k: int)
    ensures
        unit(on).times(k) == if on { k } else { 0 },
{
    let num: int = unit(on).num as int;
    assert(num * k == if on { k } else { 0 }) by (nonlinear_arith)
        requires
            num == if on { 1int } else { 0int },
    ;
    vstd::arithmetic::div_mod::lemma_div_basics(num * k);
}

/// Half a unit, taken `2 * k` times, is `k` steps to the one or the other side.
pub proof fn lemma_half_times(positive: bool, k: int)
    ensures
        half(positive).times(2 * k) == if positive { k } else { -k },
{
    let num: int = half(positive).num as int;
    assert(num * (2 * k) == if positive { 2 * k } else { -2 * k }) by (nonlinear_arith)
        requires
            num == if positive { 1int } else { -1int },
    ;
}

/// Every index names one of the four vertices, and the six indices make two triangles.
pub proof fn lemma_indices_in_range()
    ensures
        quad().len() == QUAD_VERTICES,
        quad_triangles().len() == QUAD_INDICES,
        quad_triangles().len() == 2 * 3,
        forall|i: int|
            0 <= i < quad_triangles().len() ==> #[trigger] quad_triangles()[i] < quad().len(),
{
}

/// For a positive factor `s`, the sign of `s * v` is the sign of `v`.
proof fn lemma_sign(s: int, v: int)
    requires
        s > 0,
    ensures
        (s * v >= 0) == (v >= 0),
        (s * v > 0) == (v > 0),
{
    assert((s * v >= 0) == (v >= 0) && (s * v > 0) == (v > 0)) by (nonlinear_arith)
        requires
            s > 0,
    ;
}

/// The two triangles cover the quad without a gap and without overlap.
///
/// On a grid of any fineness, a point lies in the quad exactly when it lies
/// in one of the two triangles, and no point lies inside both. As `scale`
/// ranges over the positive integers the grid points range over every point
/// of the plane with rational coordinates.
pub proof fn lemma_triangles_tile_quad(scale: int, p: Point)
    requires
        scale > 0,
    ensures
        in_quad(scale, p) == (in_triangle(triangle(quad(), quad_triangles(), 0, scale), p)
            || in_triangle(triangle(quad(), quad_triangles(), 1, scale), p)),
        !(inside_triangle(triangle(quad(), quad_triangles(), 0, scale), p) && inside_triangle(
            triangle(quad(), quad_triangles(), 1, scale),
            p,
        )),
{
    let s = scale;
    let v0 = on_grid(quad()[0], s);
    let v1 = on_grid(quad()[1], s);
    let v2 = on_grid(quad()[2], s);
    let v3 = on_grid(quad()[3], s);
    lemma_half_times(true, s);
    lemma_half_times(false, s);
    assert(v0 == Point { x: -s, y: -s });
    assert(v1 == Point { x: s, y: -s });
    assert(v2 == Point { x: s, y: s });
    assert(v3 == Point { x: -s, y: s });
    // The four edges of the quad and the diagonal, each in both directions of use.
    assert(side(v0, v1, p) == (2 * s) * (p.y + s)) by (nonlinear_arith)
        requires
            v0 == (Point { x: -s, y: -s }),
            v1 == (Point { x: s, y: -s }),
    ;
    assert(side(v1, v2, p) == (2 * s) * (s - p.x)) by (nonlinear_arith)
        requires
            v1 == (Point { x: s, y: -s }),
            v2 == (Point { x: s, y: s }),
    ;
    assert(side(v2, v3, p) == (2 * s) * (s - p.y)) by (nonlinear_arith)
        requires
            v2 == (Point { x: s, y: s }),
            v3 == (Point { x: -s, y: s }),
    ;
    assert(side(v3, v0, p) == (2 * s) * (p.x + s)) by (nonlinear_arith)
        requires
            v3 == (Point { x: -s, y: s }),
            v0 == (Point { x: -s, y: -s }),
    ;
    assert(side(v2, v0, p) == (2 * s) * (p.x - p.y)) by (nonlinear_arith)
        requires
            v2 == (Point { x: s, y: s }),
            v0 == (Point { x: -s, y: -s }),
    ;
    assert(side(v0, v2, p) == (2 * s) * (p.y - p.x)) by (nonlinear_arith)
        requires
            v2 == (Point { x: s, y: s }),
            v0 == (Point { x: -s, y: -s }),
    ;
    lemma_sign(2 * s, p.y + s);
    lemma_sign(2 * s, s - p.x);
    lemma_sign(2 * s, s - p.y);
    lemma_sign(2 * s, p.x + s);
    lemma_sign(2 * s, p.x - p.y);
    lemma_sign(2 * s, p.y - p.x);
    let lower = triangle(quad(), quad_triangles(), 0, scale);
    let upper = triangle(quad(), quad_triangles(), 1, scale);
    assert(lower == (v0, v1, v2));
    assert(upper == (v2, v3, v0));
    assert(in_triangle(lower, p) == (p.y >= -s && p.x <= s && p.x >= p.y));
    assert(in_triangle(upper, p) == (p.y <= s && p.x >= -s && p.y >= p.x));
    assert(edge_side(s, 0, p) == side(v0, v1, p));
    assert(edge_side(s, 1, p) == side(v1, v2, p));
    assert(edge_side(s, 2, p) == side(v2, v3, p));
    assert(edge_side(s, 3, p) == side(v3, v0, p));
    assert(in_quad(scale, p) == (-s <= p.x <= s && -s <= p.y <= s));
}

} // verus!
