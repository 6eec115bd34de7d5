use hexboard::geometry::{
    bevel_hexagon_indices, bevel_hexagon_normals, bevel_hexagon_points, center, Point3,
};
use hexboard::hex::HexCoord;

#[test]
fn center_of_origin_is_the_offset() {
    let offset = Point3 { x: 0, y: 12345, z: 0 };
    let c = center(1000, &HexCoord::origin(), &offset);
    assert_eq!(c, offset);
}

#[test]
fn center_is_deterministic() {
    let coord = HexCoord::new(5, -3);
    let offset = Point3 { x: 7, y: -9, z: 11 };
    let a = center(750, &coord, &offset);
    let b = center(750, &coord, &offset);
    assert_eq!(a, b);
}

#[test]
fn center_projection_values() {
    let zero = Point3 { x: 0, y: 0, z: 0 };
    // One step south: x picks up half a sqrt(3) step, z a 3/2 step.
    let south = center(1000, &HexCoord::new(0, 1), &zero);
    assert_eq!(south, Point3 { x: 866_000, y: 0, z: 1_500_000 });
    // One step east in q: a full sqrt(3) step in x only.
    let east = center(1000, &HexCoord::new(1, 0), &zero);
    assert_eq!(east, Point3 { x: 1_732_000, y: 0, z: 0 });
}

#[test]
fn center_scales_and_translates() {
    let offset = Point3 { x: 10, y: 20, z: 30 };
    let c = center(500, &HexCoord::new(2, 3), &offset);
    // x = 500 * 866 * (2*2 + 3) + 10, z = 500 * 1500 * 3 + 30.
    assert_eq!(c, Point3 { x: 3_031_010, y: 20, z: 2_250_030 });
}

#[test]
fn bevel_points_layout() {
    let mut pts: Vec<Point3> = Vec::new();
    let n = bevel_hexagon_points(&mut pts, 1000, 925, &HexCoord::origin(), 300);
    assert_eq!(n, 20);
    assert_eq!(pts.len(), 20);
    // Top center sits at the cell center, raised to the top height.
    assert_eq!(pts[0], Point3 { x: 0, y: 300_000, z: 0 });
    // Top ring at the beveled radius 925: corner 0 is (866, 500) in millis.
    assert_eq!(pts[1], Point3 { x: 866 * 925, y: 300_000, z: 500 * 925 });
    // Bevel ring at full radius, lowered to height * bevel.
    assert_eq!(pts[7], Point3 { x: 866_000, y: 277_500, z: 500_000 });
    // Bottom ring at full radius on the base plane.
    assert_eq!(pts[13], Point3 { x: 866_000, y: 0, z: 500_000 });
    // Bottom center.
    assert_eq!(pts[19], Point3 { x: 0, y: 0, z: 0 });
}

#[test]
fn bevel_points_appends_after_existing() {
    let sentinel = Point3 { x: 1, y: 2, z: 3 };
    let mut pts = vec![sentinel];
    bevel_hexagon_points(&mut pts, 800, 900, &HexCoord::new(1, 1), 100);
    assert_eq!(pts.len(), 21);
    assert_eq!(pts[0], sentinel);
}

#[test]
fn normals_match_points_count_and_orientation() {
    let mut pts: Vec<Point3> = Vec::new();
    bevel_hexagon_points(&mut pts, 1000, 925, &HexCoord::origin(), 300);
    let mut normals: Vec<Point3> = Vec::new();
    let n = bevel_hexagon_normals(&mut normals);
    assert_eq!(n, 20);
    assert_eq!(normals.len(), pts.len());
    // Top face points up.
    for k in 0..7 {
        assert_eq!(normals[k], Point3 { x: 0, y: 1000, z: 0 });
    }
    // Side rings point outward: corner 0 direction.
    assert_eq!(normals[7], Point3 { x: 866, y: 0, z: 500 });
    assert_eq!(normals[13], Point3 { x: 866, y: 0, z: 500 });
    // Bottom face points down.
    assert_eq!(normals[19], Point3 { x: 0, y: -1000, z: 0 });
}

#[test]
fn indices_reference_existing_vertices() {
    let mut pts: Vec<Point3> = Vec::new();
    bevel_hexagon_points(&mut pts, 500, 500, &HexCoord::origin(), 100);
    assert!(!pts.is_empty());
    let mut indices: Vec<u32> = Vec::new();
    let n = bevel_hexagon_indices(&mut indices);
    assert_eq!(n, 108);
    assert_eq!(indices.len(), 108);
    assert_eq!(indices.len() % 3, 0);
    for &i in &indices {
        assert!((i as usize) < pts.len());
    }
}

#[test]
fn indices_triangle_values() {
    let mut indices: Vec<u32> = Vec::new();
    bevel_hexagon_indices(&mut indices);
    // First top-fan triangle.
    assert_eq!(&indices[0..3], &[0, 1, 2]);
    // Last top-fan triangle wraps the ring.
    assert_eq!(&indices[15..18], &[0, 6, 1]);
    // First bevel-band triangle connects the top ring to the bevel ring.
    assert_eq!(&indices[18..21], &[1, 7, 8]);
    // Last bottom-fan triangle.
    assert_eq!(&indices[105..108], &[19, 13, 18]);
}
