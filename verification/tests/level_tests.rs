use hexboard::level::{build_level, build_level_random, generate_hex_mesh, BoardParams};
use hexboard::prng::Lcg;
use hexboard::tile::{classify, tile_height, TileCategory};

#[test]
fn classify_boundaries() {
    assert_eq!(classify(0), TileCategory::Hill);
    for d in 1..5 {
        assert_eq!(classify(d), TileCategory::Plain);
    }
    for d in 5..7 {
        assert_eq!(classify(d), TileCategory::Rough);
    }
    for d in 7..10 {
        assert_eq!(classify(d), TileCategory::Hill);
    }
}

#[test]
fn tile_height_bands() {
    assert_eq!(tile_height(TileCategory::Plain, 0), 50);
    assert_eq!(tile_height(TileCategory::Rough, 0), 50);
    assert_eq!(tile_height(TileCategory::Rough, 50), 100);
    assert_eq!(tile_height(TileCategory::Rough, 99), 149);
    assert_eq!(tile_height(TileCategory::Hill, 0), 100);
    assert_eq!(tile_height(TileCategory::Hill, 100), 200);
    assert_eq!(tile_height(TileCategory::Hill, 199), 299);
}

#[test]
fn lcg_draws_stay_below_bound() {
    let mut g = Lcg::new(0xDEADBEEF);
    for _ in 0..1000 {
        let d = g.draw(10);
        assert!(d < 10);
    }
}

#[test]
fn lcg_draw_uses_upper_state_bits() {
    let mut g = Lcg::new(0x1234_5678_9ABC_DEF0);
    // The draw reduces the upper 32 bits of the state: 0x12345678 % 10.
    assert_eq!(g.draw(10), 0x12345678 % 10);
}

#[test]
fn lcg_is_deterministic() {
    let mut a = Lcg::new(7);
    let mut b = Lcg::new(7);
    for _ in 0..100 {
        assert_eq!(a.draw(1000), b.draw(1000));
    }
}

#[test]
fn mesh_buffers_sizes() {
    let m = generate_hex_mesh(300, 1000);
    assert_eq!(m.points.len(), 20);
    assert_eq!(m.normals.len(), 20);
    assert_eq!(m.uvs.len(), 20);
    assert_eq!(m.indices.len(), 108);
    for uv in &m.uvs {
        assert_eq!(*uv, (0, 0));
    }
    for &i in &m.indices {
        assert!((i as usize) < m.points.len());
    }
}

#[test]
fn three_by_three_board() {
    let lb = build_level(3, 3, 0xFEED);
    assert_eq!(lb.board.len(), 3);
    let mut cells = 0;
    for row in &lb.board {
        assert_eq!(row.len(), 3);
        cells += row.len();
    }
    assert_eq!(cells, 9);
    assert_eq!(lb.placements.len(), 9);
    // One shared mesh, referenced by every placement.
    for p in &lb.placements {
        assert_eq!(p.mesh_id, 0);
    }
    assert_eq!(lb.mesh.points.len(), 20);
}

#[test]
fn seeded_build_first_cell_value() {
    // From seed 0 the first classification draw is 0 (hill), and the jitter
    // draw comes from the advanced state: upper bits of the increment
    // constant, reduced modulo 200, which is 14 — so the height is 214 - 100.
    let lb = build_level(1, 1, 0);
    assert_eq!(lb.board[0][0].height, 114);
    assert_eq!(lb.placements[0].category, TileCategory::Hill);
    assert!(!lb.placements[0].water);
    assert_eq!(lb.placements[0].position.y, 114_000);
}

#[test]
fn build_is_idempotent_for_a_seed() {
    let a = build_level(5, 4, 42);
    let b = build_level(5, 4, 42);
    assert_eq!(a.board, b.board);
    assert_eq!(a.placements, b.placements);
    assert_eq!(a.mesh, b.mesh);
}

#[test]
fn placements_follow_the_projection() {
    let width = 4usize;
    let lb = build_level(width, 3, 99);
    for (k, p) in lb.placements.iter().enumerate() {
        let q = (k / width) as i64;
        let r = (k % width) as i64;
        let h = lb.board[k / width][k % width].height;
        assert_eq!(p.position.x, 1000 * 866 * (2 * q + r));
        assert_eq!(p.position.y, h * 1000);
        assert_eq!(p.position.z, 1000 * 1500 * r);
        assert_eq!(p.bevel_height, 200);
    }
}

#[test]
fn heights_match_categories() {
    let lb = build_level(10, 10, 2024);
    for (k, p) in lb.placements.iter().enumerate() {
        let h = lb.board[k / 10][k % 10].height;
        match p.category {
            TileCategory::Plain => assert_eq!(h, 50),
            TileCategory::Rough => assert!(50 <= h && h < 150),
            TileCategory::Hill => assert!(100 <= h && h < 300),
        }
        assert_eq!(p.water, p.category == TileCategory::Plain);
    }
}

#[test]
fn random_build_keeps_its_promises() {
    let params = BoardParams { size_x: 4, size_y: 5 };
    let lb = build_level_random(params.size_x, params.size_y);
    assert_eq!(lb.board.len(), 5);
    for row in &lb.board {
        assert_eq!(row.len(), 4);
    }
    assert_eq!(lb.placements.len(), 20);
    for (k, p) in lb.placements.iter().enumerate() {
        assert_eq!(p.mesh_id, 0);
        assert_eq!(p.bevel_height, 200);
        let h = lb.board[k / 4][k % 4].height;
        match p.category {
            TileCategory::Plain => assert_eq!(h, 50),
            TileCategory::Rough => assert!(50 <= h && h < 150),
            TileCategory::Hill => assert!(100 <= h && h < 300),
        }
        assert_eq!(p.water, p.category == TileCategory::Plain);
        assert_eq!(p.position.y, h * 1000);
    }
}

#[test]
fn random_builds_draw_within_ranges() {
    // Many small builds: every height must stay within its band whatever
    // the thread generator returned.
    for _ in 0..30 {
        let lb = build_level_random(2, 2);
        for row in &lb.board {
            for cell in row {
                assert!(50 <= cell.height && cell.height < 300);
            }
        }
    }
}
