use fallout_equestria_tactics::axial_coordinates::AxialCoordinates;
use fallout_equestria_tactics::common::{Race, Special, TileType};
use fallout_equestria_tactics::cube_coordinates::CubeCoordinates;
use fallout_equestria_tactics::PROTOCOL_ID;

#[test]
fn distance() {
    let a = CubeCoordinates::from((0, 0));
    let b = CubeCoordinates::from((0, 1));
    assert_eq!(a.distance(&b), 1);
}

#[test]
fn cube_new_keeps_the_axes() {
    let c = CubeCoordinates::new(1, 2, -3);
    assert_eq!(c.q, 1);
    assert_eq!(c.r, 2);
    assert_eq!(c.s, -3);
}

#[test]
fn cube_from_pair_completes_the_third_axis() {
    let c = CubeCoordinates::from((3, -5));
    assert_eq!((c.q, c.r, c.s), (3, -5, 2));
}

#[test]
fn cube_from_axial_completes_the_third_axis() {
    let a = AxialCoordinates::new(-4, 1);
    let by_ref = CubeCoordinates::from(&a);
    assert_eq!((by_ref.q, by_ref.r, by_ref.s), (-4, 1, 3));
    let by_value = CubeCoordinates::from(a);
    assert_eq!(by_value, by_ref);
}

#[test]
fn cube_third_axis_wraps_at_the_edge() {
    let c = CubeCoordinates::from((i32::MIN, 0));
    assert_eq!(c.s, i32::MIN);
}

#[test]
fn cube_distance_is_the_largest_difference() {
    let a = CubeCoordinates::from((3, -1));
    let b = CubeCoordinates::from((0, 0));
    // differences: q 3, r 1, s 2
    assert_eq!(a.distance(&b), 3);
    assert_eq!(b.distance(&a), 3);
    assert_eq!(a.distance(&a), 0);
}

#[test]
fn cube_distance_counts_the_steps() {
    let origin = CubeCoordinates::from((0, 0));
    // differences: q 1, r 1, s 2
    let c = CubeCoordinates::from((-1, -1));
    assert_eq!(origin.distance(&c), 2);
    assert_eq!(c.distance(&origin), 2);
    // differences: q 7, r 7, s 14
    let d = CubeCoordinates::from((-7, -7));
    assert_eq!(origin.distance(&d), 14);
    assert_eq!(d.distance(&origin), 14);
    for (q, r) in [(0, -1), (1, -1), (1, 0), (0, 1), (-1, 1), (-1, 0)] {
        assert_eq!(origin.distance(&CubeCoordinates::from((q, r))), 1);
    }
}

#[test]
fn cube_distance_reaches_to_the_edge() {
    let low = CubeCoordinates::new(-i32::MAX, 0, 0);
    let high = CubeCoordinates::new(0, 0, 0);
    assert_eq!(low.distance(&high), i32::MAX);
    assert_eq!(high.distance(&low), i32::MAX);
}

#[test]
fn axial_from_cube_drops_the_third_axis() {
    let a = AxialCoordinates::from(CubeCoordinates::new(7, -2, -5));
    assert_eq!(a, AxialCoordinates::new(7, -2));
}

#[test]
fn axial_distance_goes_through_cube_coordinates() {
    let a = AxialCoordinates::new(0, 0);
    let b = AxialCoordinates::new(0, 1);
    assert_eq!(a.distance(&b), 1);
    let c = AxialCoordinates::new(5, -3);
    // differences: q 5, r 3, s 2
    assert_eq!(c.distance(&a), 5);
    assert_eq!(a.distance(&c), 5);
    // differences: q 1, r 1, s 2
    assert_eq!(a.distance(&AxialCoordinates::new(-1, -1)), 2);
    for neighbor in a.neighbors() {
        assert_eq!(a.distance(&neighbor), 1);
        assert_eq!(neighbor.distance(&a), 1);
    }
}

#[test]
fn directions_go_clockwise_from_the_upper_left() {
    let d = AxialCoordinates::directions();
    assert_eq!(d[0], AxialCoordinates::new(0, -1));
    assert_eq!(d[1], AxialCoordinates::new(1, -1));
    assert_eq!(d[2], AxialCoordinates::new(1, 0));
    assert_eq!(d[3], AxialCoordinates::new(0, 1));
    assert_eq!(d[4], AxialCoordinates::new(-1, 1));
    assert_eq!(d[5], AxialCoordinates::new(-1, 0));
    assert_eq!(d[0], AxialCoordinates::upper_left());
    assert_eq!(d[1], AxialCoordinates::upper_right());
    assert_eq!(d[2], AxialCoordinates::right());
    assert_eq!(d[3], AxialCoordinates::lower_right());
    assert_eq!(d[4], AxialCoordinates::lower_left());
    assert_eq!(d[5], AxialCoordinates::left());
}

#[test]
fn neighbors_are_one_step_away() {
    let n = AxialCoordinates::new(2, 3).neighbors();
    assert_eq!(n[0], AxialCoordinates::new(2, 2));
    assert_eq!(n[1], AxialCoordinates::new(3, 2));
    assert_eq!(n[2], AxialCoordinates::new(3, 3));
    assert_eq!(n[3], AxialCoordinates::new(2, 4));
    assert_eq!(n[4], AxialCoordinates::new(1, 4));
    assert_eq!(n[5], AxialCoordinates::new(1, 3));
}

#[test]
fn add_adds_axis_by_axis() {
    let sum = AxialCoordinates::new(4, -9) + AxialCoordinates::new(-1, 2);
    assert_eq!(sum, AxialCoordinates::new(3, -7));
}

#[test]
fn is_within_compares_the_distance_with_the_range() {
    let spawn = AxialCoordinates::new(0, 0);
    // differences: q 7, r 7, s 0
    assert!(spawn.is_within(&AxialCoordinates::new(7, -7), 8));
    assert!(AxialCoordinates::new(7, -7).is_within(&spawn, 8));
    // differences: q 8, r 8, s 0
    assert!(!spawn.is_within(&AxialCoordinates::new(8, -8), 8));
    // differences: q 7, r 7, s 14
    assert!(!spawn.is_within(&AxialCoordinates::new(-7, -7), 8));
    assert!(!spawn.is_within(&AxialCoordinates::new(7, 7), 8));
    assert!(spawn.is_within(&AxialCoordinates::new(-7, -7), 15));
    // differences: q 4, r 3, s 7
    assert!(spawn.is_within(&AxialCoordinates::new(-4, -3), 8));
    // differences: q 20, r 0, s 20
    assert!(!spawn.is_within(&AxialCoordinates::new(-20, 0), 8));
    assert!(spawn.is_within(&spawn, 1));
    assert!(!spawn.is_within(&spawn, 0));
}

#[test]
fn is_within_is_at_home_on_the_whole_grid() {
    let low = AxialCoordinates::new(i32::MIN, i32::MIN);
    let high = AxialCoordinates::new(i32::MAX, i32::MAX);
    // differences: q and r about 2^32, s about 2^33
    assert!(!low.is_within(&high, i32::MAX));
    assert!(!high.is_within(&low, i32::MAX));
    assert!(low.is_within(&low, 1));
}

#[test]
fn special_starts_at_five() {
    let s = Special::new();
    assert_eq!(
        (s.strength, s.perception, s.endurance, s.charisma, s.intelligence, s.agility, s.luck),
        (5, 5, 5, 5, 5, 5, 5)
    );
}

#[test]
fn plain_values_compare_by_content() {
    assert_eq!(TileType::Passable(1), TileType::Passable(1));
    assert_ne!(TileType::Passable(1), TileType::Impassable);
    assert_ne!(Race::EarthPony, Race::Unicorn);
    assert_ne!(Race::Unicorn, Race::Pegasus);
    assert_eq!(PROTOCOL_ID, 7);
}
