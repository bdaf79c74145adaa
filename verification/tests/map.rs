use fallout_equestria_tactics::axial_coordinates::AxialCoordinates;
use fallout_equestria_tactics::common::TileType;
use fallout_equestria_tactics::map::{Tile, TileMap, PLAIN_COST};

fn count_tiles(map: &TileMap, reach: i32) -> usize {
    let mut count = 0;
    for q in -reach..=reach {
        for r in -reach..=reach {
            if map.tile(AxialCoordinates::new(q, r)).is_some() {
                count += 1;
            }
        }
    }
    count
}

#[test]
fn generate_puts_a_plain_tile_on_every_cell() {
    let map = TileMap::generate(2, 1);
    assert_eq!(map.width(), 2);
    assert_eq!(map.depth(), 1);
    for q in -2..2 {
        for r in -1..1 {
            let cell = AxialCoordinates::new(q, r);
            assert_eq!(
                map.tile(cell),
                Some(&Tile { coordinates: cell, tile_type: TileType::Passable(1) })
            );
        }
    }
    assert_eq!(PLAIN_COST, 1);
}

#[test]
fn generate_stops_at_the_far_edges() {
    let map = TileMap::generate(2, 1);
    assert_eq!(map.tile(AxialCoordinates::new(2, 0)), None);
    assert_eq!(map.tile(AxialCoordinates::new(0, 1)), None);
    assert_eq!(map.tile(AxialCoordinates::new(-3, 0)), None);
    assert_eq!(map.tile(AxialCoordinates::new(0, -2)), None);
    assert_eq!(map.tile(AxialCoordinates::new(i32::MIN, i32::MIN)), None);
    assert_eq!(map.tile(AxialCoordinates::new(i32::MAX, i32::MAX)), None);
    // twice the width times twice the depth
    assert_eq!(count_tiles(&map, 5), 8);
    assert_eq!(count_tiles(&TileMap::generate(3, 2), 6), 24);
}

#[test]
fn generate_without_extent_gives_no_tiles() {
    for (width, depth) in [(0, 0), (0, 5), (5, 0), (-3, 5), (5, -3), (i32::MIN, i32::MIN)] {
        let map = TileMap::generate(width, depth);
        assert_eq!(map.width(), width);
        assert_eq!(map.depth(), depth);
        assert_eq!(count_tiles(&map, 6), 0);
    }
}
