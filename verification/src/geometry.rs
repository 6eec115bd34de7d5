//! World-space geometry for hex cells, in fixed-point arithmetic.
//!
//! Scalars come in two scales: configuration values (cell size, radius,
//! bevel factor, heights) are in thousandths of a world unit ("millis"), and
//! world-space coordinates are in millionths of a world unit ("micros"), so
//! that the product of two milli values lands directly on the micro scale
//! and no computation ever divides or rounds. The square root of three,
//! which the axial-to-Cartesian projection needs, is carried as the milli
//! constant `866`, i.e. `0.866` — the one place where the fixed-point model
//! rounds a value, once, in a named constant.
//!
//! The layout is pointy-top: a cell's world center is
//! `x = size * sqrt(3) * (q + r/2)`, `z = size * 3/2 * r`, so the
//! north-ish neighbor `(q, r-1)` sits at smaller `z`.

use vstd::prelude::*;

use crate::arith::lemma_abs_mul_le;
use crate::hex::HexCoord;

verus! {

/// `sqrt(3)/2` in millis.
pub const SQRT3_HALF_MILLI: i64 = 866;

/// `3/2` in millis.
pub const THREE_HALVES_MILLI: i64 = 1500;

/// Bound on sizes, radii and heights (in millis) and on coordinate
/// components accepted by the geometry functions, chosen so that every
/// intermediate product fits comfortably in `i64`.
pub const GEOM_LIMIT: i64 = 1_000_000;

/// Bound on offset components (in micros) accepted by `center`.
pub const OFFSET_LIMIT: i64 = 1_000_000_000_000_000;

/// A point or vector in world space, components in micros (for vertex
/// positions) or millis (for unit-scale normals).
#[derive(Clone, Copy, Debug, PartialEq, Eq, Structural, Hash)]
pub struct Point3 {
    pub x: i64,
    pub y: i64,
    pub z: i64,
}

/// The `x` component (micros) of the world center of cell `(q, r)` at cell
/// size `size` (millis): `size * sqrt(3) * (q + r/2)`, in fixed point.
pub open spec fn center_x(size: int, q: int, r: int) -> int {
    size * SQRT3_HALF_MILLI * (2 * q + r)
}

/// The `z` component (micros) of the world center of cell `(q, r)` at cell
/// size `size` (millis): `size * 3/2 * r`, in fixed point.
pub open spec fn center_z(size: int, r: int) -> int {
    size * THREE_HALVES_MILLI * r
}

/// The world-space center of a hex cell: the axial-to-Cartesian projection
/// of `coord` scaled by `size` (millis), plus `offset` (micros) added
/// componentwise; the offset's `y` usually carries a per-cell height.
pub fn center(size: i64, coord: &HexCoord, offset: &Point3) -> (c: Point3)
    requires
        -GEOM_LIMIT <= size <= GEOM_LIMIT,
        -GEOM_LIMIT <= coord.q <= GEOM_LIMIT,
        -GEOM_LIMIT <= coord.r <= GEOM_LIMIT,
        -OFFSET_LIMIT <= offset.x <= OFFSET_LIMIT,
        -OFFSET_LIMIT <= offset.y <= OFFSET_LIMIT,
        -OFFSET_LIMIT <= offset.z <= OFFSET_LIMIT,
    ensures
        c.x == center_x(size as int, coord.q as int, coord.r as int) + offset.x,
        c.y == offset.y,
        c.z == center_z(size as int, coord.r as int) + offset.z,
{
    let sx: i64 = size * SQRT3_HALF_MILLI;
    let qr: i64 = 2 * coord.q + coord.r;
    proof {
        lemma_abs_mul_le(sx as int, qr as int, 866_000_000, 3_000_000);
    }
    let x: i64 = sx * qr + offset.x;
    let sz: i64 = size * THREE_HALVES_MILLI;
    proof {
        lemma_abs_mul_le(sz as int, coord.r as int, 1_500_000_000, 1_000_000);
    }
    let z: i64 = sz * coord.r + offset.z;
    Point3 { x, y: offset.y, z }
}

/// The `x` (cosine) component, in millis, of corner `k` of a pointy-top unit
/// hexagon; corners sit at angles `30 + 60*k` degrees, counterclockwise.
pub open spec fn corner_x_milli(k: int) -> int {
    if k == 0 {
        866
    } else if k == 1 {
        0
    } else if k == 2 {
        -866
    } else if k == 3 {
        -866
    } else if k == 4 {
        0
    } else {
        866
    }
}

/// The `z` (sine) component, in millis, of corner `k` of a pointy-top unit
/// hexagon.
pub open spec fn corner_z_milli(k: int) -> int {
    if k == 0 {
        500
    } else if k == 1 {
        1000
    } else if k == 2 {
        500
    } else if k == 3 {
        -500
    } else if k == 4 {
        -1000
    } else {
        -500
    }
}

/// Corner `k` of the pointy-top unit hexagon, as `(x, z)` in millis.
fn hex_corner(k: usize) -> (c: (i64, i64))
    requires
        k < 6,
    ensures
        c.0 == corner_x_milli(k as int),
        c.1 == corner_z_milli(k as int),
        -1000 <= c.0 <= 1000,
        -1000 <= c.1 <= 1000,
{
    if k == 0 {
        (866, 500)
    } else if k == 1 {
        (0, 1000)
    } else if k == 2 {
        (-866, 500)
    } else if k == 3 {
        (-866, -500)
    } else if k == 4 {
        (0, -1000)
    } else {
        (866, -500)
    }
}

/// The radius of the beveled (top) ring, in millis: the full radius scaled
/// by the bevel factor.
pub open spec fn ring_radius(radius: int, bevel: int) -> int {
    radius * bevel / 1000
}

/// Number of vertices of the beveled hexagonal prism: a top center, three
/// rings of six, and a bottom center.
pub open spec fn hex_vertex_count() -> int {
    20
}

/// Number of `u32` indices of the prism's triangle list: 36 triangles.
pub open spec fn hex_index_count() -> int {
    108
}

/// Vertex `k` of the beveled hexagonal prism for a cell at `(q, r)`, radius
/// and bevel factor in millis, top face at height `h` millis. Layout:
/// vertex 0 is the top center; 1..=6 the top ring, pulled in to the beveled
/// radius; 7..=12 the bevel ring at full radius, at height `h * bevel`;
/// 13..=18 the bottom ring at full radius; 19 the bottom center.
pub open spec fn hex_point(radius: int, bevel: int, q: int, r: int, h: int, k: int) -> Point3 {
    let cx = center_x(radius, q, r);
    let cz = center_z(radius, r);
    let rb = ring_radius(radius, bevel);
    if k == 0 {
        Point3 { x: cx as i64, y: (h * 1000) as i64, z: cz as i64 }
    } else if k < 7 {
        Point3 {
            x: (cx + corner_x_milli(k - 1) * rb) as i64,
            y: (h * 1000) as i64,
            z: (cz + corner_z_milli(k - 1) * rb) as i64,
        }
    } else if k < 13 {
        Point3 {
            x: (cx + corner_x_milli(k - 7) * radius) as i64,
            y: (h * bevel) as i64,
            z: (cz + corner_z_milli(k - 7) * radius) as i64,
        }
    } else if k < 19 {
        Point3 {
            x: (cx + corner_x_milli(k - 13) * radius) as i64,
            y: 0,
            z: (cz + corner_z_milli(k - 13) * radius) as i64,
        }
    } else {
        Point3 { x: cx as i64, y: 0, z: cz as i64 }
    }
}

/// The prism's full vertex list.
pub open spec fn hex_points_seq(radius: int, bevel: int, q: int, r: int, h: int) -> Seq<Point3> {
    Seq::new(hex_vertex_count() as nat, |k: int| hex_point(radius, bevel, q, r, h, k))
}

/// The normal of vertex `k`, in millis: `+y` for the top center and top
/// ring, outward radial for the bevel and bottom rings, `-y` for the bottom
/// center.
pub open spec fn hex_normal(k: int) -> Point3 {
    if k < 7 {
        Point3 { x: 0, y: 1000, z: 0 }
    } else if k < 13 {
        Point3 { x: corner_x_milli(k - 7) as i64, y: 0, z: corner_z_milli(k - 7) as i64 }
    } else if k < 19 {
        Point3 { x: corner_x_milli(k - 13) as i64, y: 0, z: corner_z_milli(k - 13) as i64 }
    } else {
        Point3 { x: 0, y: -1000i64, z: 0 }
    }
}

/// The prism's full normal list, one normal per vertex.
pub open spec fn hex_normals_seq() -> Seq<Point3> {
    Seq::new(hex_vertex_count() as nat, |k: int| hex_normal(k))
}

/// The corner following `k` on the hexagon, wrapping after the sixth.
pub open spec fn next6(k: int) -> int {
    if k == 5 {
        0
    } else {
        k + 1
    }
}

/// Triangle `t` of the prism's triangle list, as vertex numbers. Triangles
/// 0..6 fan the top face around vertex 0; 6..18 are the bevel band between
/// the top ring and the bevel ring, two per quad; 18..30 the side band
/// between the bevel ring and the bottom ring; 30..36 fan the bottom face
/// around vertex 19, wound the other way so it faces down.
pub open spec fn hex_triangle(t: int) -> (int, int, int) {
    if t < 6 {
        (0, 1 + t, 1 + next6(t))
    } else if t < 12 {
        let i = t - 6;
        (1 + i, 7 + i, 7 + next6(i))
    } else if t < 18 {
        let i = t - 12;
        (1 + i, 7 + next6(i), 1 + next6(i))
    } else if t < 24 {
        let i = t - 18;
        (7 + i, 13 + i, 13 + next6(i))
    } else if t < 30 {
        let i = t - 24;
        (7 + i, 13 + next6(i), 7 + next6(i))
    } else {
        let i = t - 30;
        (19, 13 + next6(i), 13 + i)
    }
}

/// Index value at flat position `j` of the triangle list.
pub open spec fn hex_index_at(j: int) -> int {
    let t = hex_triangle(j / 3);
    if j % 3 == 0 {
        t.0
    } else if j % 3 == 1 {
        t.1
    } else {
        t.2
    }
}

/// The prism's full index list.
pub open spec fn hex_indices_seq() -> Seq<u32> {
    Seq::new(hex_index_count() as nat, |j: int| hex_index_at(j) as u32)
}

/// Every index of the triangle list names one of the twenty vertices.
pub proof fn lemma_hex_indices_in_bounds()
    ensures
        forall|j: int|
            0 <= j < hex_index_count() ==> 0 <= #[trigger] hex_indices_seq()[j]
                < hex_vertex_count(),
{
    assert forall|j: int| 0 <= j < hex_index_count() implies 0 <= #[trigger] hex_indices_seq()[j]
        < hex_vertex_count() by {
        assert(0 <= j / 3 < 36) by (nonlinear_arith)
            requires 0 <= j < 108;
        assert(0 <= hex_index_at(j) < 20);
    }
}

/// For every radius, bevel factor, cell and height, the prism's buffers
/// are well formed: the vertex list is non-empty, there is exactly one
/// normal per vertex, the index list holds whole triangles only, and every
/// index names an existing vertex.
pub proof fn lemma_mesh_buffers_well_formed(radius: int, bevel: int, q: int, r: int, h: int)
    ensures
        hex_points_seq(radius, bevel, q, r, h).len() > 0,
        hex_points_seq(radius, bevel, q, r, h).len() == hex_normals_seq().len(),
        hex_indices_seq().len() % 3 == 0,
        forall|j: int|
            0 <= j < hex_indices_seq().len() ==> (#[trigger] hex_indices_seq()[j]) < hex_points_seq(
                radius,
                bevel,
                q,
                r,
                h,
            ).len(),
{
    lemma_hex_indices_in_bounds();
}

/// `center` is a function of its arguments: any two results obtained for
/// the same size, coordinate and offset are the same point. Moreover the
/// projection vanishes at the origin, so the center of the origin cell is
/// the offset itself, whatever the size.
pub proof fn lemma_center_deterministic(
    size: int,
    q: int,
    r: int,
    ox: int,
    oy: int,
    oz: int,
    a: Point3,
    b: Point3,
)
    requires
        a.x == center_x(size, q, r) + ox,
        a.y == oy,
        a.z == center_z(size, r) + oz,
        b.x == center_x(size, q, r) + ox,
        b.y == oy,
        b.z == center_z(size, r) + oz,
    ensures
        a == b,
        q == 0 && r == 0 ==> a.x == ox && a.y == oy && a.z == oz,
{
    assert(size * SQRT3_HALF_MILLI * 0 == 0) by (nonlinear_arith);
    assert(size * THREE_HALVES_MILLI * 0 == 0) by (nonlinear_arith);
}

/// Appends the vertex positions (micros) of a beveled hexagonal prism for
/// the cell at `coord`: top ring pulled in by the bevel factor, bevel ring
/// and bottom ring at full radius, plus the two face centers, in the fixed
/// order that `bevel_hexagon_indices` references.
#[verifier::loop_isolation(false)]
pub fn bevel_hexagon_points(
    out: &mut Vec<Point3>,
    radius: u64,
    bevel: u64,
    coord: &HexCoord,
    height: i64,
) -> (n: usize)
    requires
        0 < radius <= GEOM_LIMIT,
        0 < bevel < 1000,
        0 <= height <= GEOM_LIMIT,
        -GEOM_LIMIT <= coord.q <= GEOM_LIMIT,
        -GEOM_LIMIT <= coord.r <= GEOM_LIMIT,
        old(out)@.len() + hex_vertex_count() <= usize::MAX,
    ensures
        n == hex_vertex_count(),
        final(out)@ == old(out)@ + hex_points_seq(
            radius as int,
            bevel as int,
            coord.q as int,
            coord.r as int,
            height as int,
        ),
{
    let ghost pts = hex_points_seq(
        radius as int,
        bevel as int,
        coord.q as int,
        coord.r as int,
        height as int,
    );
    proof {
        lemma_abs_mul_le(height as int, bevel as int, GEOM_LIMIT as int, 1000);
        lemma_abs_mul_le(radius as int, bevel as int, GEOM_LIMIT as int, 1000);
        lemma_abs_mul_le(
            radius as int * SQRT3_HALF_MILLI,
            2 * coord.q + coord.r,
            866_000_000,
            3_000_000,
        );
        lemma_abs_mul_le(radius as int * THREE_HALVES_MILLI, coord.r as int, 1_500_000_000, 1_000_000);
    }
    let base = Point3 { x: 0, y: 0, z: 0 };
    let c = center(radius as i64, coord, &base);
    let ytop: i64 = height * 1000;
    let ybevel: i64 = height * (bevel as i64);
    let rbu: u64 = radius * bevel / 1000;
    let rb: i64 = rbu as i64;
    assert(rb == ring_radius(radius as int, bevel as int));
    assert(0 <= rb <= GEOM_LIMIT) by (nonlinear_arith)
        requires
            rb == radius * bevel / 1000,
            0 < radius <= GEOM_LIMIT,
            0 < bevel < 1000;

    out.push(Point3 { x: c.x, y: ytop, z: c.z });
    assert(out@.last() == pts[0]);

    let mut k: usize = 0;
    while k < 6
        invariant
            k <= 6,
            out@.len() == old(out)@.len() + 1 + k,
            forall|i: int| 0 <= i < old(out)@.len() ==> out@[i] == old(out)@[i],
            forall|i: int|
                old(out)@.len() <= i < out@.len() ==> out@[i] == pts[i - old(out)@.len()],
        decreases 6 - k,
    {
        let (ux, uz) = hex_corner(k);
        proof {
            lemma_abs_mul_le(ux as int, rb as int, 1000, GEOM_LIMIT as int);
            lemma_abs_mul_le(uz as int, rb as int, 1000, GEOM_LIMIT as int);
        }
        out.push(Point3 { x: c.x + ux * rb, y: ytop, z: c.z + uz * rb });
        assert(out@.last() == pts[1 + k]);
        k = k + 1;
    }

    let mut k: usize = 0;
    while k < 6
        invariant
            k <= 6,
            out@.len() == old(out)@.len() + 7 + k,
            forall|i: int| 0 <= i < old(out)@.len() ==> out@[i] == old(out)@[i],
            forall|i: int|
                old(out)@.len() <= i < out@.len() ==> out@[i] == pts[i - old(out)@.len()],
        decreases 6 - k,
    {
        let (ux, uz) = hex_corner(k);
        proof {
            lemma_abs_mul_le(ux as int, radius as int, 1000, GEOM_LIMIT as int);
            lemma_abs_mul_le(uz as int, radius as int, 1000, GEOM_LIMIT as int);
        }
        out.push(
            Point3 { x: c.x + ux * (radius as i64), y: ybevel, z: c.z + uz * (radius as i64) },
        );
        assert(out@.last() == pts[7 + k]);
        k = k + 1;
    }

    let mut k: usize = 0;
    while k < 6
        invariant
            k <= 6,
            out@.len() == old(out)@.len() + 13 + k,
            forall|i: int| 0 <= i < old(out)@.len() ==> out@[i] == old(out)@[i],
            forall|i: int|
                old(out)@.len() <= i < out@.len() ==> out@[i] == pts[i - old(out)@.len()],
        decreases 6 - k,
    {
        let (ux, uz) = hex_corner(k);
        proof {
            lemma_abs_mul_le(ux as int, radius as int, 1000, GEOM_LIMIT as int);
            lemma_abs_mul_le(uz as int, radius as int, 1000, GEOM_LIMIT as int);
        }
        out.push(Point3 { x: c.x + ux * (radius as i64), y: 0, z: c.z + uz * (radius as i64) });
        assert(out@.last() == pts[13 + k]);
        k = k + 1;
    }

    out.push(Point3 { x: c.x, y: 0, z: c.z });
    assert(out@.last() == pts[19]);
    assert(final(out)@ =~= old(out)@ + pts);
    20
}

/// Appends one normal (millis) per prism vertex, in the vertex order of
/// `bevel_hexagon_points`: `+y` over the top face, outward radial on the
/// side rings, `-y` under the bottom face.
#[verifier::loop_isolation(false)]
pub fn bevel_hexagon_normals(out: &mut Vec<Point3>) -> (n: usize)
    requires
        old(out)@.len() + hex_vertex_count() <= usize::MAX,
    ensures
        n == hex_vertex_count(),
        final(out)@ == old(out)@ + hex_normals_seq(),
{
    let mut k: usize = 0;
    while k < 20
        invariant
            k <= 20,
            out@.len() == old(out)@.len() + k,
            forall|i: int| 0 <= i < old(out)@.len() ==> out@[i] == old(out)@[i],
            forall|i: int|
                old(out)@.len() <= i < out@.len() ==> out@[i] == hex_normals_seq()[i - old(
                    out,
                )@.len()],
        decreases 20 - k,
    {
        let p = if k < 7 {
            Point3 { x: 0, y: 1000, z: 0 }
        } else if k < 13 {
            let (ux, uz) = hex_corner(k - 7);
            Point3 { x: ux, y: 0, z: uz }
        } else if k < 19 {
            let (ux, uz) = hex_corner(k - 13);
            Point3 { x: ux, y: 0, z: uz }
        } else {
            Point3 { x: 0, y: -1000, z: 0 }
        };
        out.push(p);
        assert(out@.last() == hex_normals_seq()[k as int]);
        k = k + 1;
    }
    assert(final(out)@ =~= old(out)@ + hex_normals_seq());
    20
}

/// The corner following `i`, computed as `next6` states it.
fn next_corner(i: usize) -> (n: usize)
    requires
        i < 6,
    ensures
        n == next6(i as int),
{
    if i == 5 {
        0
    } else {
        i + 1
    }
}

/// Triangle `t` of the prism, computed as `hex_triangle` states it.
fn triangle_at(t: usize) -> (tri: (u32, u32, u32))
    requires
        t < 36,
    ensures
        tri.0 == hex_triangle(t as int).0,
        tri.1 == hex_triangle(t as int).1,
        tri.2 == hex_triangle(t as int).2,
{
    if t < 6 {
        let i = t;
        ((0u32, (1 + i) as u32, (1 + next_corner(i)) as u32))
    } else if t < 12 {
        let i = t - 6;
        (((1 + i) as u32, (7 + i) as u32, (7 + next_corner(i)) as u32))
    } else if t < 18 {
        let i = t - 12;
        (((1 + i) as u32, (7 + next_corner(i)) as u32, (1 + next_corner(i)) as u32))
    } else if t < 24 {
        let i = t - 18;
        (((7 + i) as u32, (13 + i) as u32, (13 + next_corner(i)) as u32))
    } else if t < 30 {
        let i = t - 24;
        (((7 + i) as u32, (13 + next_corner(i)) as u32, (7 + next_corner(i)) as u32))
    } else {
        let i = t - 30;
        ((19u32, (13 + next_corner(i)) as u32, (13 + i) as u32))
    }
}

/// Appends the prism's triangle list: a fan over the top face, two bands of
/// quads for the bevel and the side, and a fan over the bottom face, each
/// quad split in two, all referencing the vertex order of
/// `bevel_hexagon_points` with a consistent winding.
#[verifier::loop_isolation(false)]
pub fn bevel_hexagon_indices(out: &mut Vec<u32>) -> (n: usize)
    requires
        old(out)@.len() + hex_index_count() <= usize::MAX,
    ensures
        n == hex_index_count(),
        final(out)@ == old(out)@ + hex_indices_seq(),
{
    let mut t: usize = 0;
    while t < 36
        invariant
            t <= 36,
            out@.len() == old(out)@.len() + 3 * t,
            forall|i: int| 0 <= i < old(out)@.len() ==> out@[i] == old(out)@[i],
            forall|i: int|
                old(out)@.len() <= i < out@.len() ==> out@[i] == hex_indices_seq()[i - old(
                    out,
                )@.len()],
        decreases 36 - t,
    {
        let (a, b, c) = triangle_at(t);
        proof {
            vstd::arithmetic::div_mod::lemma_fundamental_div_mod_converse(
                3 * t as int,
                3,
                t as int,
                0,
            );
            vstd::arithmetic::div_mod::lemma_fundamental_div_mod_converse(
                3 * t as int + 1,
                3,
                t as int,
                1,
            );
            vstd::arithmetic::div_mod::lemma_fundamental_div_mod_converse(
                3 * t as int + 2,
                3,
                t as int,
                2,
            );
        }
        out.push(a);
        assert(out@.last() == hex_indices_seq()[3 * t as int]);
        out.push(b);
        assert(out@.last() == hex_indices_seq()[3 * t as int + 1]);
        out.push(c);
        assert(out@.last() == hex_indices_seq()[3 * t as int + 2]);
        t = t + 1;
    }
    assert(final(out)@ =~= old(out)@ + hex_indices_seq());
    108
}

} // verus!
