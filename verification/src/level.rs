//! The grid builder: assembles a rectangular board of hex cells.
//!
//! For every `(row, column)` pair in row-major order the builder draws a
//! tile classification, computes the cell's world center, records the
//! cell's height into the board, and emits one placement request. One
//! beveled hex mesh is generated per level — not per cell — and every
//! placement refers to it, so a level is one mesh instanced many times.
//!
//! `build_level` drives the draws from the library's own deterministic
//! generator, which makes the whole build a pure function of its seed;
//! `build_level_random` drives them from the thread-local generator of the
//! `rand` crate instead, and its contract states what holds of every
//! possible outcome.

use vstd::prelude::*;

use crate::arith::lemma_abs_mul_le;
use crate::entropy::{draw_below, new_thread_rng};
use crate::geometry::{
    bevel_hexagon_indices, bevel_hexagon_normals, bevel_hexagon_points, center, center_x, center_z,
    hex_indices_seq, hex_normals_seq, hex_points_seq, hex_vertex_count,
    lemma_hex_indices_in_bounds, Point3,
};
use crate::hex::HexCoord;
use crate::prng::{lcg_draw, lcg_next, Lcg};
use crate::tile::{
    classify, classify_spec, height_in_band, height_spec, is_water, tile_height, TileCategory,
};

verus! {

/// Height, in millis, of the shared level mesh's prism.
pub const LEVEL_MESH_HEIGHT_MILLI: i64 = 300;

/// Radius, in millis, of the shared level mesh.
pub const LEVEL_MESH_RADIUS_MILLI: u64 = 1000;

/// Bevel factor, in millis, of the shared level mesh.
pub const LEVEL_MESH_BEVEL_MILLI: u64 = 925;

/// Cell spacing, in millis, used to place cells in world space.
pub const LEVEL_CELL_SIZE_MILLI: i64 = 1000;

/// The bevel height, in millis, recorded on every placement request.
pub const PLACEMENT_BEVEL_HEIGHT_MILLI: i64 = 200;

/// Largest board dimension the builder accepts.
pub const BOARD_DIM_LIMIT: usize = 1000;

/// One grid position's record: the cell's terrain height in millis.
#[derive(Clone, Copy, Debug, PartialEq, Eq, Structural, Hash)]
pub struct Cell {
    pub height: i64,
}

/// Configured board dimensions: `size_x` columns by `size_y` rows.
#[derive(Clone, Copy, Debug, PartialEq, Eq, Structural, Default)]
pub struct BoardParams {
    pub size_x: usize,
    pub size_y: usize,
}

/// An instruction to the scene layer: instantiate the shared mesh at a
/// world position with a material for the tile's band, and tag water tiles
/// for ripple animation.
#[derive(Clone, Copy, Debug, PartialEq, Eq, Structural, Hash)]
pub struct PlacementRequest {
    pub position: Point3,
    pub category: TileCategory,
    pub water: bool,
    pub bevel_height: i64,
    pub mesh_id: usize,
}

/// The generated buffers of one beveled hex prism: vertex positions,
/// one normal and one texture coordinate per vertex, and a triangle list.
#[derive(Clone, Debug, PartialEq, Eq)]
pub struct HexMesh {
    pub points: Vec<Point3>,
    pub normals: Vec<Point3>,
    pub uvs: Vec<(i64, i64)>,
    pub indices: Vec<u32>,
}

/// The mathematical content of a mesh: its four buffers as sequences.
#[verifier::ext_equal]
pub ghost struct MeshModel {
    pub points: Seq<Point3>,
    pub normals: Seq<Point3>,
    pub uvs: Seq<(i64, i64)>,
    pub indices: Seq<u32>,
}

impl View for HexMesh {
    type V = MeshModel;

    open spec fn view(&self) -> MeshModel {
        MeshModel {
            points: self.points@,
            normals: self.normals@,
            uvs: self.uvs@,
            indices: self.indices@,
        }
    }
}

/// A well-formed mesh: one normal and one texture coordinate per vertex,
/// whole triangles only, and every index naming an existing vertex.
pub open spec fn mesh_wf(m: MeshModel) -> bool {
    &&& m.points.len() > 0
    &&& m.normals.len() == m.points.len()
    &&& m.uvs.len() == m.points.len()
    &&& m.indices.len() % 3 == 0
    &&& forall|j: int| 0 <= j < m.indices.len() ==> (#[trigger] m.indices[j]) < m.points.len()
}

/// The mesh `generate_hex_mesh` produces: the beveled prism buffers of the
/// origin cell, with a zero texture coordinate per vertex.
pub open spec fn mesh_spec(radius: int, bevel: int, h: int) -> MeshModel {
    MeshModel {
        points: hex_points_seq(radius, bevel, 0, 0, h),
        normals: hex_normals_seq(),
        uvs: Seq::new(hex_vertex_count() as nat, |k: int| (0i64, 0i64)),
        indices: hex_indices_seq(),
    }
}

/// Generate the buffers of a single beveled hex prism of the given height
/// and radius (millis) at the origin cell, with the fixed bevel factor.
#[verifier::loop_isolation(false)]
pub fn generate_hex_mesh(height: i64, radius: u64) -> (m: HexMesh)
    requires
        0 <= height <= crate::geometry::GEOM_LIMIT,
        0 < radius <= crate::geometry::GEOM_LIMIT,
    ensures
        m@ == mesh_spec(radius as int, LEVEL_MESH_BEVEL_MILLI as int, height as int),
        mesh_wf(m@),
{
    let coord = HexCoord::new(0, 0);

    let mut points: Vec<Point3> = Vec::new();
    bevel_hexagon_points(&mut points, radius, LEVEL_MESH_BEVEL_MILLI, &coord, height);
    assert(points@ =~= hex_points_seq(
        radius as int,
        LEVEL_MESH_BEVEL_MILLI as int,
        0,
        0,
        height as int,
    ));

    let mut normals: Vec<Point3> = Vec::new();
    bevel_hexagon_normals(&mut normals);
    assert(normals@ =~= hex_normals_seq());

    let mut uvs: Vec<(i64, i64)> = Vec::new();
    let n = points.len();
    let mut i: usize = 0;
    while i < n
        invariant
            i <= n,
            uvs@.len() == i,
            forall|j: int| 0 <= j < i ==> uvs@[j] == (0i64, 0i64),
        decreases n - i,
    {
        uvs.push((0, 0));
        i = i + 1;
    }
    assert(uvs@ =~= Seq::new(hex_vertex_count() as nat, |k: int| (0i64, 0i64)));

    let mut indices: Vec<u32> = Vec::new();
    bevel_hexagon_indices(&mut indices);
    assert(indices@ =~= hex_indices_seq());

    let m = HexMesh { points, normals, uvs, indices };
    proof {
        lemma_hex_indices_in_bounds();
        assert(m@ =~= mesh_spec(radius as int, LEVEL_MESH_BEVEL_MILLI as int, height as int));
    }
    m
}

/// The band of the cell drawn from generator state `s`.
pub open spec fn cell_category_of(s: u64) -> TileCategory {
    classify_spec(lcg_draw(s, 10))
}

/// The jitter draw of the cell drawn from state `s`: plain tiles take no
/// draw at all, the other bands take one from their own span.
pub open spec fn cell_jitter_of(s: u64) -> u64 {
    match cell_category_of(s) {
        TileCategory::Plain => 0,
        TileCategory::Rough => lcg_draw(lcg_next(s), 100),
        TileCategory::Hill => lcg_draw(lcg_next(s), 200),
    }
}

/// The height, in millis, of the cell drawn from state `s`.
pub open spec fn cell_height_of(s: u64) -> int {
    height_spec(cell_category_of(s), cell_jitter_of(s))
}

/// The generator state after the cell drawn from state `s`: one step for
/// the classification draw, and one more if the band takes a jitter draw.
pub open spec fn cell_next_state(s: u64) -> u64 {
    match cell_category_of(s) {
        TileCategory::Plain => lcg_next(s),
        TileCategory::Rough => lcg_next(lcg_next(s)),
        TileCategory::Hill => lcg_next(lcg_next(s)),
    }
}

/// The generator state when cell `k` (row-major) of a build seeded with
/// `seed` is about to be drawn.
pub open spec fn state_at(seed: u64, k: nat) -> u64
    decreases k,
{
    if k == 0 {
        seed
    } else {
        cell_next_state(state_at(seed, (k - 1) as nat))
    }
}

/// Row `qi` of the board of a build seeded with `seed`, on a board `size_x`
/// cells wide.
pub open spec fn board_row_spec(seed: u64, size_x: int, qi: int) -> Seq<Cell> {
    Seq::new(
        size_x as nat,
        |ri: int| Cell { height: cell_height_of(state_at(seed, (qi * size_x + ri) as nat)) as i64 },
    )
}

/// The whole board of a build: `size_y` rows of `size_x` cells.
pub open spec fn board_spec(seed: u64, size_x: int, size_y: int) -> Seq<Seq<Cell>> {
    Seq::new(size_y as nat, |qi: int| board_row_spec(seed, size_x, qi))
}

/// The placement request of cell `(qi, ri)`, the `k`-th cell drawn: the
/// shared mesh (always id 0), positioned at the cell's world center with
/// the cell's height as the vertical offset, the material band, and the
/// water tag on plain cells.
pub open spec fn placement_at(seed: u64, qi: int, ri: int, k: nat) -> PlacementRequest {
    let s = state_at(seed, k);
    let cat = cell_category_of(s);
    let h = cell_height_of(s);
    PlacementRequest {
        position: Point3 {
            x: center_x(LEVEL_CELL_SIZE_MILLI as int, qi, ri) as i64,
            y: (h * 1000) as i64,
            z: center_z(LEVEL_CELL_SIZE_MILLI as int, ri) as i64,
        },
        category: cat,
        water: is_water(cat),
        bevel_height: PLACEMENT_BEVEL_HEIGHT_MILLI,
        mesh_id: 0,
    }
}

/// The placement requests of a build, in row-major cell order.
pub open spec fn placements_spec(seed: u64, size_x: int, size_y: int) -> Seq<PlacementRequest> {
    Seq::new(
        (size_y * size_x) as nat,
        |k: int| placement_at(seed, k / size_x, k % size_x, k as nat),
    )
}

/// Everything one level build produces: the shared mesh, the board of
/// heights, and one placement request per cell.
#[derive(Clone, Debug, PartialEq, Eq)]
pub struct LevelBuild {
    pub mesh: HexMesh,
    pub board: Vec<Vec<Cell>>,
    pub placements: Vec<PlacementRequest>,
}

/// The mathematical content of a level build.
#[verifier::ext_equal]
pub ghost struct LevelModel {
    pub mesh: MeshModel,
    pub board: Seq<Seq<Cell>>,
    pub placements: Seq<PlacementRequest>,
}

impl View for LevelBuild {
    type V = LevelModel;

    open spec fn view(&self) -> LevelModel {
        LevelModel {
            mesh: self.mesh@,
            board: self.board@.map_values(|row: Vec<Cell>| row@),
            placements: self.placements@,
        }
    }
}

/// The level a build seeded with `seed` produces on a `size_x` by `size_y`
/// board.
pub open spec fn level_spec(seed: u64, size_x: int, size_y: int) -> LevelModel {
    LevelModel {
        mesh: mesh_spec(
            LEVEL_MESH_RADIUS_MILLI as int,
            LEVEL_MESH_BEVEL_MILLI as int,
            LEVEL_MESH_HEIGHT_MILLI as int,
        ),
        board: board_spec(seed, size_x, size_y),
        placements: placements_spec(seed, size_x, size_y),
    }
}

/// The placement request of the cell at `(qi, ri)` with band `cat` and
/// height `h` millis, referring to the shared mesh.
fn place_cell(qi: usize, ri: usize, cat: TileCategory, h: i64) -> (p: PlacementRequest)
    requires
        qi <= BOARD_DIM_LIMIT,
        ri <= BOARD_DIM_LIMIT,
        height_in_band(cat, h as int),
    ensures
        p.position.x == center_x(LEVEL_CELL_SIZE_MILLI as int, qi as int, ri as int),
        p.position.y == h * 1000,
        p.position.z == center_z(LEVEL_CELL_SIZE_MILLI as int, ri as int),
        p.category == cat,
        p.water == is_water(cat),
        p.bevel_height == PLACEMENT_BEVEL_HEIGHT_MILLI,
        p.mesh_id == 0,
{
    let coord = HexCoord::new(qi as i64, ri as i64);
    let offset = Point3 { x: 0, y: h * 1000, z: 0 };
    let position = center(LEVEL_CELL_SIZE_MILLI, &coord, &offset);
    let water = match cat {
        TileCategory::Plain => true,
        TileCategory::Rough => false,
        TileCategory::Hill => false,
    };
    PlacementRequest {
        position,
        category: cat,
        water,
        bevel_height: PLACEMENT_BEVEL_HEIGHT_MILLI,
        mesh_id: 0,
    }
}

/// Build a level of `height` rows by `width` columns from a fixed seed.
///
/// The result is a pure function of the arguments: the returned mesh, board
/// and placements are exactly `level_spec(seed, width, height)`. One mesh
/// is generated for the whole level and every placement refers to it.
#[verifier::loop_isolation(false)]
pub fn build_level(width: usize, height: usize, seed: u64) -> (lb: LevelBuild)
    requires
        1 <= width <= BOARD_DIM_LIMIT,
        1 <= height <= BOARD_DIM_LIMIT,
    ensures
        lb@ == level_spec(seed, width as int, height as int),
        mesh_wf(lb.mesh@),
        lb.board@.len() == height,
        forall|qi: int| 0 <= qi < height ==> (#[trigger] lb.board@[qi])@.len() == width,
        lb.placements@.len() == width * height,
        forall|k: int|
            0 <= k < lb.placements@.len() ==> (#[trigger] lb.placements@[k]).mesh_id == 0,
        forall|k: int|
            0 <= k < lb.placements@.len() ==> ((#[trigger] lb.placements@[k]).water
                <==> lb.placements@[k].category is Plain),
{
    proof {
        lemma_abs_mul_le(width as int, height as int, BOARD_DIM_LIMIT as int, BOARD_DIM_LIMIT as int);
    }
    let mesh = generate_hex_mesh(LEVEL_MESH_HEIGHT_MILLI, LEVEL_MESH_RADIUS_MILLI);
    let mut rng = Lcg::new(seed);
    let mut board: Vec<Vec<Cell>> = Vec::new();
    let mut placements: Vec<PlacementRequest> = Vec::new();
    let mut k: usize = 0;

    let mut qi: usize = 0;
    while qi < height
        invariant
            qi <= height,
            k == qi * width,
            k <= width * height,
            rng.state == state_at(seed, k as nat),
            board@.len() == qi,
            forall|q: int|
                0 <= q < qi ==> (#[trigger] board@[q])@ == board_row_spec(
                    seed,
                    width as int,
                    q,
                ),
            placements@.len() == k,
            forall|j: int|
                0 <= j < k ==> placements@[j] == placements_spec(
                    seed,
                    width as int,
                    height as int,
                )[j],
        decreases height - qi,
    {
        let mut row: Vec<Cell> = Vec::new();
        let mut ri: usize = 0;
        proof {
            lemma_abs_mul_le(qi as int, width as int, BOARD_DIM_LIMIT as int, BOARD_DIM_LIMIT as int);
            lemma_abs_mul_le(qi as int + 1, width as int, BOARD_DIM_LIMIT as int + 1, BOARD_DIM_LIMIT as int);
            assert((qi + 1) * width == qi * width + width) by (nonlinear_arith);
            assert(qi * width + width <= height * width) by (nonlinear_arith)
                requires
                    qi + 1 <= height,
                    0 <= width;
            assert(width * height == height * width) by (nonlinear_arith);
        }
        while ri < width
            invariant
                ri <= width,
                k == qi * width + ri,
                k <= width * height,
                qi < height,
                rng.state == state_at(seed, k as nat),
                row@.len() == ri,
                forall|j: int|
                    0 <= j < ri ==> row@[j] == board_row_spec(seed, width as int, qi as int)[j],
                placements@.len() == k,
                forall|j: int|
                    0 <= j < k ==> placements@[j] == placements_spec(
                        seed,
                        width as int,
                        height as int,
                    )[j],
            decreases width - ri,
        {
            let ghost s = rng.state;
            let draw = rng.draw(10);
            let cat = classify(draw);
            let jitter: u64 = match cat {
                TileCategory::Plain => 0,
                TileCategory::Rough => rng.draw(100),
                TileCategory::Hill => rng.draw(200),
            };
            let h = tile_height(cat, jitter);
            proof {
                assert(cat == cell_category_of(s));
                assert(jitter == cell_jitter_of(s));
                assert(h as int == cell_height_of(s));
                assert(rng.state == cell_next_state(s));
                assert(state_at(seed, (k + 1) as nat) == cell_next_state(state_at(seed, k as nat)));
            }
            row.push(Cell { height: h });
            let p = place_cell(qi, ri, cat, h);
            proof {
                vstd::arithmetic::div_mod::lemma_fundamental_div_mod_converse(
                    k as int,
                    width as int,
                    qi as int,
                    ri as int,
                );
                assert(p == placement_at(seed, qi as int, ri as int, k as nat));
                assert(placements_spec(seed, width as int, height as int)[k as int]
                    == placement_at(seed, qi as int, ri as int, k as nat));
            }
            placements.push(p);
            k = k + 1;
            ri = ri + 1;
        }
        assert(row@ =~= board_row_spec(seed, width as int, qi as int));
        board.push(row);
        qi = qi + 1;
    }

    let lb = LevelBuild { mesh, board, placements };
    proof {
        assert(width * height == height * width) by (nonlinear_arith);
        assert(lb@.board =~= board_spec(seed, width as int, height as int));
        assert(lb@.placements =~= placements_spec(seed, width as int, height as int));
        assert(lb@ =~= level_spec(seed, width as int, height as int));
    }
    lb
}

/// Two level builds from the same seed and the same dimensions are
/// identical: the same board of heights and the same placement requests.
pub proof fn lemma_build_level_deterministic(
    a: LevelModel,
    b: LevelModel,
    width: int,
    height: int,
    seed: u64,
)
    requires
        a == level_spec(seed, width, height),
        b == level_spec(seed, width, height),
    ensures
        a == b,
        a.board == b.board,
        a.placements == b.placements,
{
}

/// What every placement request promises about the cell at `(q, r)` whose
/// height is `h`: it refers to the shared mesh, carries the fixed bevel
/// height, is tagged water exactly on plain cells, its height lies in its
/// band, and it sits at the cell's world center raised by the height.
pub open spec fn placement_ok(p: PlacementRequest, q: int, r: int, h: i64) -> bool {
    &&& p.mesh_id == 0
    &&& p.bevel_height == PLACEMENT_BEVEL_HEIGHT_MILLI
    &&& (p.water <==> p.category is Plain)
    &&& height_in_band(p.category, h as int)
    &&& p.position.x == center_x(LEVEL_CELL_SIZE_MILLI as int, q, r)
    &&& p.position.y == h * 1000
    &&& p.position.z == center_z(LEVEL_CELL_SIZE_MILLI as int, r)
}

/// Build a level of `height` rows by `width` columns from the thread-local
/// random generator of the `rand` crate.
///
/// The draws are chance, so the contract states what holds of every
/// outcome: the board has the requested dimensions; there is one placement
/// per cell, in row-major order, every one referring to the single shared
/// mesh; each placement sits at its cell's world center, raised by the
/// cell's height; each cell's height lies in its band; and exactly the
/// plain placements are tagged water.
#[verifier::loop_isolation(false)]
pub fn build_level_random(width: usize, height: usize) -> (lb: LevelBuild)
    requires
        1 <= width <= BOARD_DIM_LIMIT,
        1 <= height <= BOARD_DIM_LIMIT,
    ensures
        mesh_wf(lb.mesh@),
        lb.mesh@ == mesh_spec(
            LEVEL_MESH_RADIUS_MILLI as int,
            LEVEL_MESH_BEVEL_MILLI as int,
            LEVEL_MESH_HEIGHT_MILLI as int,
        ),
        lb.board@.len() == height,
        forall|qi: int| 0 <= qi < height ==> (#[trigger] lb.board@[qi])@.len() == width,
        lb.placements@.len() == width * height,
        forall|j: int|
            0 <= j < lb.placements@.len() ==> placement_ok(
                #[trigger] lb.placements@[j],
                j / width as int,
                j % width as int,
                lb.board@[j / width as int]@[j % width as int].height,
            ),
{
    proof {
        lemma_abs_mul_le(width as int, height as int, BOARD_DIM_LIMIT as int, BOARD_DIM_LIMIT as int);
    }
    let mesh = generate_hex_mesh(LEVEL_MESH_HEIGHT_MILLI, LEVEL_MESH_RADIUS_MILLI);
    let mut rng = new_thread_rng();
    let mut board: Vec<Vec<Cell>> = Vec::new();
    let mut placements: Vec<PlacementRequest> = Vec::new();

    let mut qi: usize = 0;
    while qi < height
        invariant
            qi <= height,
            board@.len() == qi,
            forall|q: int| 0 <= q < qi ==> (#[trigger] board@[q])@.len() == width,
            placements@.len() == qi * width,
            forall|j: int|
                0 <= j < placements@.len() ==> placement_ok(
                    #[trigger] placements@[j],
                    j / width as int,
                    j % width as int,
                    board@[j / width as int]@[j % width as int].height,
                ),
        decreases height - qi,
    {
        let mut row: Vec<Cell> = Vec::new();
        let mut ri: usize = 0;
        let ghost base = qi as int * width as int;
        proof {
            lemma_abs_mul_le(qi as int, width as int, BOARD_DIM_LIMIT as int, BOARD_DIM_LIMIT as int);
            assert((qi + 1) * width == qi * width + width) by (nonlinear_arith);
            assert(qi * width + width <= height * width) by (nonlinear_arith)
                requires
                    qi + 1 <= height,
                    0 <= width;
            assert(width * height == height * width) by (nonlinear_arith);
        }
        while ri < width
            invariant
                ri <= width,
                qi < height,
                base == qi * width,
                board@.len() == qi,
                forall|q: int| 0 <= q < qi ==> (#[trigger] board@[q])@.len() == width,
                row@.len() == ri,
                placements@.len() == base + ri,
                forall|j: int|
                    0 <= j < base ==> placement_ok(
                        #[trigger] placements@[j],
                        j / width as int,
                        j % width as int,
                        board@[j / width as int]@[j % width as int].height,
                    ),
                forall|j: int|
                    base <= j < base + ri ==> placement_ok(
                        #[trigger] placements@[j],
                        qi as int,
                        j - base,
                        row@[j - base].height,
                    ),
            decreases width - ri,
        {
            let draw = draw_below(&mut rng, 10);
            let cat = classify(draw);
            let jitter: u64 = match cat {
                TileCategory::Plain => 0,
                TileCategory::Rough => draw_below(&mut rng, 100),
                TileCategory::Hill => draw_below(&mut rng, 200),
            };
            let h = tile_height(cat, jitter);
            row.push(Cell { height: h });
            let p = place_cell(qi, ri, cat, h);
            placements.push(p);
            ri = ri + 1;
        }
        board.push(row);
        proof {
            assert forall|j: int| #![trigger j / width as int]
                base <= j < base + width implies j / width as int == qi as int && j % width as int
                == j - base by {
                vstd::arithmetic::div_mod::lemma_fundamental_div_mod_converse(
                    j,
                    width as int,
                    qi as int,
                    j - base,
                );
            }
            assert forall|j: int| #![trigger j / width as int]
                0 <= j < base implies 0 <= (j / (width as int)) < (qi as int) && 0 <= (j % (
                width as int)) < width by {
                vstd::arithmetic::div_mod::lemma_fundamental_div_mod(j, width as int);
                vstd::arithmetic::div_mod::lemma_mod_bound(j, width as int);
                assert((j / (width as int)) < (qi as int)) by (nonlinear_arith)
                    requires
                        j == width * (j / (width as int)) + (j % (width as int)),
                        0 <= (j % (width as int)) < width,
                        j < (qi as int) * width,
                        0 < width;
            }
        }
        qi = qi + 1;
    }
    proof {
        assert(height * width == width * height) by (nonlinear_arith);
    }
    LevelBuild { mesh, board, placements }
}

} // verus!

