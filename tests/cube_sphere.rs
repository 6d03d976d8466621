use precision_terrain::side::{dominant_axis, project_st, select_side, side_for_normal, side_frame};
use precision_terrain::{tile_count, ApproximationError, Axis, Coordinate, SideInfo, SignedAxis, Tile};

fn component(p: [i64; 3], axis: Axis) -> i64 {
    match axis {
        Axis::X => p[0],
        Axis::Y => p[1],
        Axis::Z => p[2],
    }
}

fn oriented(a: SignedAxis, value: i64) -> i64 {
    if a.positive {
        value
    } else {
        -value
    }
}

/// Places face coordinates (u / w, v / w) on the cube, scaled by w.
fn cube_point(side: u32, u: i64, v: i64, w: i64) -> [i64; 3] {
    let frame = side_frame(side);
    let mut p = [0i64; 3];
    for (axis, value) in [(frame.normal, w), (frame.u, u), (frame.v, v)] {
        let index = match axis.axis {
            Axis::X => 0,
            Axis::Y => 1,
            Axis::Z => 2,
        };
        p[index] = oriented(axis, value);
    }
    p
}

/// Selects the face of a local position and returns it with the numerators of u and v and
/// their common denominator.
fn face_of_point(p: [i64; 3]) -> (u32, i64, i64, i64) {
    let (x, y, z) = (p[0], p[1], p[2]);
    let side = select_side(x.abs() > y.abs(), x.abs() > z.abs(), z.abs() > y.abs(), x < 0, y > 0, z > 0);
    let frame = side_frame(side);
    (
        side,
        oriented(frame.u, component(p, frame.u.axis)),
        oriented(frame.v, component(p, frame.v.axis)),
        oriented(frame.normal, component(p, frame.normal.axis)),
    )
}

#[test]
fn tile_count_is_a_power_of_two() {
    assert_eq!(tile_count(0), 1);
    assert_eq!(tile_count(1), 2);
    assert_eq!(tile_count(10), 1024);
    assert_eq!(tile_count(30), 1 << 30);
    assert_eq!(Tile::tile_count(8), 256);
}

#[test]
fn tile_new_keeps_fields() {
    let tile = Tile::new(4, 3, 5, 7);
    assert_eq!(tile.side, 4);
    assert_eq!(tile.lod, 3);
    assert_eq!(tile.x, 5);
    assert_eq!(tile.y, 7);
}

#[test]
fn tile_validity() {
    assert!(Tile::new(5, 2, 3, 0).is_valid());
    assert!(Tile::new(0, 0, 0, 0).is_valid());
    assert!(!Tile::new(6, 2, 0, 0).is_valid());
    assert!(!Tile::new(0, 2, 4, 0).is_valid());
    assert!(!Tile::new(0, 2, 0, -1).is_valid());
    assert!(!Tile::new(0, 31, 0, 0).is_valid());
    assert!(!Tile::new(0, -1, 0, 0).is_valid());
}

#[test]
fn zero_components_pick_a_face_by_sign_rule() {
    // x counts zero as positive, y and z count it as negative.
    assert_eq!(select_side(true, true, false, false, false, false), 3);
    assert_eq!(select_side(false, false, false, false, false, false), 5);
    assert_eq!(select_side(false, false, true, false, false, false), 4);
    assert_eq!(select_side(true, true, false, true, true, true), 0);
}

#[test]
fn offset_at_origin_lod_is_the_index_difference() {
    let tile = Tile::new(0, 10, 300, 700);
    assert_eq!(tile.offset_from_origin(254, 704, 10), Ok((46, -4)));
}

#[test]
fn offset_at_finer_lod_is_shifted() {
    let tile = Tile::new(2, 13, 2049, 4000);
    assert_eq!(tile.offset_from_origin(256, 500, 10), Ok((1, 0)));
}

#[test]
fn offset_at_largest_lods_does_not_overflow() {
    let last = (1 << 30) - 1;
    let tile = Tile::new(1, 30, last, 0);
    assert_eq!(tile.offset_from_origin(0, 1, 0), Ok((last as i64, -(1i64 << 30))));
}

#[test]
fn offset_inside_the_origin_footprint_matches_the_exact_offset() {
    // Origin tile (3, 5) at lod 2 covers tiles 24..32 and 40..48 at lod 5.
    for x in 24..32 {
        for y in 40..48 {
            let tile = Tile::new(1, 5, x, y);
            let (dx, dy) = tile.offset_from_origin(3, 5, 2).unwrap();
            assert!((0..8).contains(&dx) && (0..8).contains(&dy));
            // (x + 0.5) / 32 - 3 / 4 == (dx + 0.5) / 32
            assert_eq!((x as f64 + 0.5) / 32.0 - 3.0 / 4.0, (dx as f64 + 0.5) / 32.0);
            assert_eq!((y as f64 + 0.5) / 32.0 - 5.0 / 4.0, (dy as f64 + 0.5) / 32.0);
        }
    }
}

#[test]
fn offset_below_origin_lod_is_rejected() {
    let tile = Tile::new(3, 9, 10, 10);
    assert_eq!(tile.offset_from_origin(20, 20, 10), Err(ApproximationError::LodBelowOrigin));
}

#[test]
fn every_face_normal_selects_its_face() {
    for side in 0..6u32 {
        let normal = side_frame(side).normal;
        assert_eq!(side_for_normal(normal.axis, normal.positive), side);
    }
}

#[test]
fn face_frames_match_the_cube_layout() {
    assert_eq!(cube_point(0, 2, 3, 10), [-10, -3, 2]);
    assert_eq!(cube_point(1, 2, 3, 10), [2, -3, 10]);
    assert_eq!(cube_point(2, 2, 3, 10), [2, 10, 3]);
    assert_eq!(cube_point(3, 2, 3, 10), [10, -2, 3]);
    assert_eq!(cube_point(4, 2, 3, 10), [3, -2, -10]);
    assert_eq!(cube_point(5, 2, 3, 10), [3, -10, 2]);
}

#[test]
fn face_coordinates_round_trip_inside_each_face() {
    for side in 0..6u32 {
        for (u, v) in [(0, 0), (-9, 9), (9, -9), (5, -3), (-1, 7)] {
            assert_eq!(face_of_point(cube_point(side, u, v, 10)), (side, u, v, 10));
        }
    }
}

#[test]
fn edge_ties_follow_the_fixed_precedence() {
    // |x| == |z| > |y|: z wins.
    assert_eq!(face_of_point([5, 1, 5]).0, 1);
    assert_eq!(face_of_point([-5, 1, -5]).0, 4);
    // |x| == |y| > |z|: y wins.
    assert_eq!(face_of_point([5, 5, 0]).0, 2);
    // |y| == |z| > |x|: y wins.
    assert_eq!(face_of_point([0, -5, 5]).0, 5);
    // A corner goes to y as well.
    assert_eq!(face_of_point([5, 5, 5]).0, 2);
    // Repeated calls agree.
    for _ in 0..3 {
        assert_eq!(face_of_point([-4, 2, 4]).0, 1);
    }
    assert_eq!(dominant_axis(false, false, true), Axis::Z);
    assert_eq!(dominant_axis(true, false, false), Axis::Y);
    assert_eq!(dominant_axis(true, true, false), Axis::X);
}

#[test]
fn own_side_roles_are_identity() {
    for side in 0..6 {
        assert_eq!(SideInfo::project_to_side(side, side), [SideInfo::PositiveS, SideInfo::PositiveT]);
    }
}

#[test]
fn roles_of_neighbouring_faces() {
    assert_eq!(SideInfo::project_to_side(0, 1), [SideInfo::Fixed0, SideInfo::PositiveT]);
    assert_eq!(SideInfo::project_to_side(1, 2), [SideInfo::PositiveS, SideInfo::Fixed1]);
    assert_eq!(SideInfo::project_to_side(5, 0), [SideInfo::PositiveS, SideInfo::Fixed1]);
    assert_eq!(SideInfo::project_to_side(2, 5), [SideInfo::PositiveT, SideInfo::PositiveS]);
    assert_eq!(SideInfo::project_to_side(4, 2), [SideInfo::PositiveT, SideInfo::Fixed0]);
}

#[test]
fn pick_returns_the_role_value() {
    assert_eq!(SideInfo::Fixed0.pick(0.25, 0.75, 0.0, 1.0), 0.0);
    assert_eq!(SideInfo::Fixed1.pick(0.25, 0.75, 0.0, 1.0), 1.0);
    assert_eq!(SideInfo::PositiveS.pick(0.25, 0.75, 0.0, 1.0), 0.25);
    assert_eq!(SideInfo::PositiveT.pick(0.25, 0.75, 0.0, 1.0), 0.75);
}

#[test]
fn projecting_onto_own_side_is_identity() {
    for side in 0..6 {
        let c = Coordinate::new(side, 0.3125, 0.8125);
        let p = c.project_to_side(side, 0.0, 1.0);
        assert_eq!((p.side, p.s, p.t), (side, 0.3125, 0.8125));
    }
}

#[test]
fn projecting_onto_a_neighbour_pins_the_shared_edge() {
    let c = Coordinate::new(0, 0.3125, 0.8125);
    let p = c.project_to_side(1, 0.0, 1.0);
    assert_eq!((p.side, p.s, p.t), (1, 0.0, 0.8125));
    let q = Coordinate::new(1, 0.3125, 0.8125).project_to_side(2, 0.0, 1.0);
    assert_eq!((q.side, q.s, q.t), (2, 0.3125, 1.0));
    assert_eq!(project_st(3, 0, 0.5, 0.25, 0.0, 1.0), (0.25, 0.5));
}

#[test]
fn reprojection_is_not_composable() {
    // Through a neighbour the coordinate loses the pinned component.
    let c = Coordinate::new(0, 0.3125, 0.8125);
    let via = c.project_to_side(1, 0.0, 1.0).project_to_side(3, 0.0, 1.0);
    let direct = c.project_to_side(3, 0.0, 1.0);
    assert_eq!((direct.s, direct.t), (0.8125, 0.3125));
    assert_ne!((via.s, via.t), (direct.s, direct.t));
}
