use hexboard::hex::{Direction, HexCoord};

#[test]
fn new_derives_zero_sum() {
    let c = HexCoord::new(3, -5);
    assert_eq!(c.q, 3);
    assert_eq!(c.r, -5);
    assert_eq!(c.s, 2);
    assert_eq!(c.q + c.r + c.s, 0);
}

#[test]
fn new_zero_sum_on_many_inputs() {
    for q in -20..20 {
        for r in -20..20 {
            let c = HexCoord::new(q, r);
            assert_eq!(c.q + c.r + c.s, 0);
        }
    }
}

#[test]
fn origin_is_all_zero() {
    let o = HexCoord::origin();
    assert_eq!(o, HexCoord { q: 0, r: 0, s: 0 });
}

#[test]
fn neighbor_offsets() {
    let c = HexCoord::new(2, 3);
    assert_eq!(c.three(), HexCoord::new(2, 2));
    assert_eq!(c.six(), HexCoord::new(2, 4));
    assert_eq!(c.nine(), HexCoord::new(3, 2));
    assert_eq!(c.neighbor(Direction::Stay), c);
    assert_eq!(c.neighbor(Direction::Three), c.three());
    assert_eq!(c.neighbor(Direction::Six), c.six());
    assert_eq!(c.neighbor(Direction::Nine), c.nine());
}

#[test]
fn neighbor_preserves_zero_sum() {
    let mut c = HexCoord::origin();
    let dirs = [Direction::Three, Direction::Six, Direction::Nine];
    for i in 0..1000 {
        c = c.neighbor(dirs[i % 3]);
        assert_eq!(c.q + c.r + c.s, 0);
    }
}

#[test]
fn opposite_mapping() {
    assert_eq!(Direction::Stay.opposite(), Direction::Stay);
    assert_eq!(Direction::Three.opposite(), Direction::Six);
    assert_eq!(Direction::Six.opposite(), Direction::Three);
    assert_eq!(Direction::Nine.opposite(), Direction::Nine);
}

#[test]
fn opposite_is_involutive() {
    for d in [Direction::Stay, Direction::Three, Direction::Six, Direction::Nine] {
        assert_eq!(d.opposite().opposite(), d);
    }
}

#[test]
fn neighbor_round_trip() {
    let c = HexCoord::new(-7, 11);
    for d in [Direction::Stay, Direction::Three, Direction::Six] {
        assert_eq!(c.neighbor(d).neighbor(d.opposite()), c);
    }
}

#[test]
fn neighbors_fixed_order() {
    let c = HexCoord::new(4, -2);
    let n = c.neighbors();
    assert_eq!(n.len(), 3);
    assert_eq!(n[0], c.three());
    assert_eq!(n[1], c.six());
    assert_eq!(n[2], c.nine());
}

#[test]
fn neighbors_of_origin() {
    let n = HexCoord::origin().neighbors();
    assert_eq!(n.len(), 3);
    assert_eq!(n[0], HexCoord { q: 0, r: -1, s: 1 });
    assert_eq!(n[1], HexCoord { q: 0, r: 1, s: -1 });
    assert_eq!(n[2], HexCoord { q: 1, r: -1, s: 0 });
}
