//! The playing field: a block of hex cells, one tile on each.

use std::collections::HashMap;

use vstd::prelude::*;

use crate::axial_coordinates::AxialCoordinates;
use crate::common::TileType;

verus! {

/// One cell of the playing field.
#[derive(Clone, Copy, Debug, PartialEq, Eq, Structural)]
pub struct Tile {
    pub coordinates: AxialCoordinates,
    pub tile_type: TileType,
}

/// What it costs to cross a tile of a fresh field.
pub const PLAIN_COST: u8 = 1;

/// The tile that a fresh field has on `cell`.
pub open spec fn plain_tile(cell: AxialCoordinates) -> Tile {
    Tile { coordinates: cell, tile_type: TileType::Passable(PLAIN_COST) }
}

/// Whether `cell` lies on a field of the given half-width and half-depth:
/// its `q` from `-width` up to, not including, `width`, and its `r` likewise
/// within the depth.
pub open spec fn on_field(cell: AxialCoordinates, width: int, depth: int) -> bool {
    &&& -width <= cell.q < width
    &&& -depth <= cell.r < depth
}

/// The number under which the tile of `cell` is filed: a different one for
/// every cell.
pub open spec fn cell_key(cell: AxialCoordinates) -> u64 {
    ((cell.q - i32::MIN) * 0x1_0000_0000 + (cell.r - i32::MIN)) as u64
}

/// A playing field as mathematics.
pub struct TileMapView {
    /// The tile on each cell that has one.
    pub tiles: Map<AxialCoordinates, Tile>,
    pub width: i32,
    pub depth: i32,
}

/// A playing field.
pub struct TileMap {
    tiles: HashMap<u64, Tile>,
    width: i32,
    depth: i32,
}

impl View for TileMap {
    type V = TileMapView;

    closed spec fn view(&self) -> TileMapView {
        TileMapView {
            tiles: Map::new(
                |cell: AxialCoordinates| self.tiles@.contains_key(cell_key(cell)),
                |cell: AxialCoordinates| self.tiles@[cell_key(cell)],
            ),
            width: self.width,
            depth: self.depth,
        }
    }
}

/// Files a cell.
fn key_of(cell: AxialCoordinates) -> (key: u64)
    ensures
        key == cell_key(cell),
{
    let q: u64 = (cell.q as i64 - i32::MIN as i64) as u64;
    let r: u64 = (cell.r as i64 - i32::MIN as i64) as u64;
    q * 0x1_0000_0000 + r
}

/// No two cells are filed under one number.
proof fn lemma_cell_key_injective(a: AxialCoordinates, b: AxialCoordinates)
    ensures
        cell_key(a) == cell_key(b) ==> a == b,
{
}

impl TileMap {
    /// A fresh field of the given half-width and half-depth: a plain tile on
    /// every cell of it, and none elsewhere. A width or depth of zero or
    /// less gives a field without cells.
    pub fn generate(width: i32, depth: i32) -> (map: Self)
        ensures
            map@.width == width,
            map@.depth == depth,
            forall|cell: AxialCoordinates|
                map@.tiles.contains_key(cell) <==> on_field(cell, width as int, depth as int),
            forall|cell: AxialCoordinates|
                on_field(cell, width as int, depth as int) ==> map@.tiles[cell] == plain_tile(cell),
    {
        broadcast use vstd::std_specs::hash::group_hash_axioms;

        let mut tiles: HashMap<u64, Tile> = HashMap::new();
        if width <= 0 || depth <= 0 {
            return Self { tiles, width, depth };
        }
        let mut w: i32 = -width;
        while w < width
            invariant
                0 < width,
                0 < depth,
                -width <= w <= width,
                forall|cell: AxialCoordinates|
                    tiles@.contains_key(#[trigger] cell_key(cell)) <==> on_field(
                        cell,
                        width as int,
                        depth as int,
                    ) && cell.q < w,
                forall|cell: AxialCoordinates|
                    tiles@.contains_key(#[trigger] cell_key(cell)) ==> tiles@[cell_key(cell)]
                        == plain_tile(cell),
            decreases width - w,
        {
            let mut d: i32 = -depth;
            while d < depth
                invariant
                    0 < width,
                    0 < depth,
                    -width <= w < width,
                    -depth <= d <= depth,
                    forall|cell: AxialCoordinates|
                        tiles@.contains_key(#[trigger] cell_key(cell)) <==> on_field(
                            cell,
                            width as int,
                            depth as int,
                        ) && (cell.q < w || (cell.q == w && cell.r < d)),
                    forall|cell: AxialCoordinates|
                        tiles@.contains_key(#[trigger] cell_key(cell)) ==> tiles@[cell_key(cell)]
                            == plain_tile(cell),
                decreases depth - d,
            {
                let tile = Tile {
                    coordinates: AxialCoordinates::new(w, d),
                    tile_type: TileType::Passable(PLAIN_COST),
                };
                tiles.insert(key_of(tile.coordinates), tile);
                proof {
                    assert forall|cell: AxialCoordinates|
                        tiles@.contains_key(#[trigger] cell_key(cell)) <==> on_field(
                            cell,
                            width as int,
                            depth as int,
                        ) && (cell.q < w || (cell.q == w && cell.r < d + 1)) by {
                        lemma_cell_key_injective(cell, tile.coordinates);
                    }
                    assert forall|cell: AxialCoordinates|
                        tiles@.contains_key(#[trigger] cell_key(cell)) implies tiles@[cell_key(
                            cell,
                        )] == plain_tile(cell) by {
                        lemma_cell_key_injective(cell, tile.coordinates);
                    }
                }
                d = d + 1;
            }
            w = w + 1;
        }
        Self { tiles, width, depth }
    }

    /// The half-width that the field was made with.
    pub fn width(&self) -> (width: i32)
        ensures
            width == self@.width,
    {
        self.width
    }

    /// The half-depth that the field was made with.
    pub fn depth(&self) -> (depth: i32)
        ensures
            depth == self@.depth,
    {
        self.depth
    }

    /// The tile on `cell`, if the field has one there.
    pub fn tile(&self, cell: AxialCoordinates) -> (tile: Option<&Tile>)
        ensures
            tile == (if self@.tiles.contains_key(cell) {
                Some(&self@.tiles[cell])
            } else {
                None
            }),
    {
        broadcast use vstd::std_specs::hash::group_hash_axioms;

        let key = key_of(cell);
        self.tiles.get(&key)
    }
}

} // verus!
