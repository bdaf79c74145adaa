//! Axial coordinates on the hex grid.

use std::ops::Add;

use vstd::prelude::*;
use vstd::std_specs::convert::FromSpecImpl;
use vstd::std_specs::ops::AddSpecImpl;

use crate::cube_coordinates::{
    abs_int, cube_distance, cube_of, differences_fit, max_int, CubeCoordinates,
};

verus! {

#[derive(Clone, Copy, Debug, Eq, Hash, PartialEq, Structural)]
pub struct AxialCoordinates {
    pub q: i32,
    pub r: i32,
}

/// The cell with the given coordinates.
pub open spec fn cell(q: int, r: int) -> AxialCoordinates
    recommends
        i32::MIN <= q <= i32::MAX,
        i32::MIN <= r <= i32::MAX,
{
    AxialCoordinates { q: q as i32, r: r as i32 }
}

/// The six unit steps of the hex grid, clockwise from the upper left.
pub open spec fn direction_steps() -> Seq<AxialCoordinates> {
    seq![cell(0, -1), cell(1, -1), cell(1, 0), cell(0, 1), cell(-1, 1), cell(-1, 0)]
}

/// The number of steps between `a` and `b` on the unbounded grid: the
/// largest of the three per-axis differences of the two cells' cube
/// coordinates, each taken without its sign.
pub open spec fn hex_distance(a: AxialCoordinates, b: AxialCoordinates) -> int {
    max_int(
        max_int(abs_int(a.q - b.q), abs_int(a.r - b.r)),
        abs_int((-a.q - a.r) - (-b.q - b.r)),
    )
}

impl AxialCoordinates {
    pub fn upper_left() -> (a: Self)
        ensures
            a == direction_steps()[0],
    {
        Self::new(0, -1)
    }

    pub fn upper_right() -> (a: Self)
        ensures
            a == direction_steps()[1],
    {
        Self::new(1, -1)
    }

    pub fn right() -> (a: Self)
        ensures
            a == direction_steps()[2],
    {
        Self::new(1, 0)
    }

    pub fn lower_right() -> (a: Self)
        ensures
            a == direction_steps()[3],
    {
        Self::new(0, 1)
    }

    pub fn lower_left() -> (a: Self)
        ensures
            a == direction_steps()[4],
    {
        Self::new(-1, 1)
    }

    pub fn left() -> (a: Self)
        ensures
            a == direction_steps()[5],
    {
        Self::new(-1, 0)
    }

    pub fn new(q: i32, r: i32) -> (a: Self)
        ensures
            a == cell(q as int, r as int),
    {
        Self { q, r }
    }

    pub fn directions() -> (steps: [AxialCoordinates; 6])
        ensures
            steps@ == direction_steps(),
    {
        [
            Self::upper_left(),
            Self::upper_right(),
            Self::right(),
            Self::lower_right(),
            Self::lower_left(),
            Self::left(),
        ]
    }

    /// Whether every neighbour of `self` has coordinates that fit an `i32`.
    pub open spec fn has_neighbors(self) -> bool {
        &&& i32::MIN < self.q < i32::MAX
        &&& i32::MIN < self.r < i32::MAX
    }

    /// The six cells around `self`, in the order of [`direction_steps`].
    pub fn neighbors(self) -> (cells: [AxialCoordinates; 6])
        requires
            self.has_neighbors(),
        ensures
            forall|i: int|
                0 <= i < 6 ==> #[trigger] cells@[i] == cell(
                    self.q + direction_steps()[i].q,
                    self.r + direction_steps()[i].r,
                ),
    {
        [
            self + Self::upper_left(),
            self + Self::upper_right(),
            self + Self::right(),
            self + Self::lower_right(),
            self + Self::lower_left(),
            self + Self::left(),
        ]
    }

    /// The distance between `self` and `rhs` as [`CubeCoordinates::distance`]
    /// measures it on the two cells' cube coordinates.
    pub fn distance(&self, rhs: &AxialCoordinates) -> (d: i32)
        requires
            differences_fit(cube_of(self.q, self.r), cube_of(rhs.q, rhs.r)),
        ensures
            d == cube_distance(cube_of(self.q, self.r), cube_of(rhs.q, rhs.r)),
    {
        let this = CubeCoordinates::from(self);
        let other = CubeCoordinates::from(rhs);
        this.distance(&other)
    }

    /// Whether `rhs` is fewer than `range` steps from `self`. Unlike
    /// [`AxialCoordinates::distance`] this is at home on the whole grid.
    pub fn is_within(&self, rhs: &AxialCoordinates, range: i32) -> (near: bool)
        ensures
            near == (hex_distance(*self, *rhs) < range),
    {
        let dq: i64 = self.q as i64 - rhs.q as i64;
        let dr: i64 = self.r as i64 - rhs.r as i64;
        let ds: i64 = (0 - self.q as i64 - self.r as i64) - (0 - rhs.q as i64 - rhs.r as i64);
        let dq: i64 = if dq >= 0 { dq } else { -dq };
        let dr: i64 = if dr >= 0 { dr } else { -dr };
        let ds: i64 = if ds >= 0 { ds } else { -ds };
        let m: i64 = if dq >= dr { dq } else { dr };
        let d: i64 = if m >= ds { m } else { ds };
        d < range as i64
    }
}

/// Cells within a thousand million steps of the origin are near enough to
/// one another for [`AxialCoordinates::distance`].
pub proof fn lemma_near_cells_fit(a: AxialCoordinates, b: AxialCoordinates)
    requires
        -1_000_000_000 <= a.q + a.r <= 1_000_000_000,
        -1_000_000_000 <= b.q + b.r <= 1_000_000_000,
        -1_000_000_000 <= a.q <= 1_000_000_000,
        -1_000_000_000 <= a.r <= 1_000_000_000,
        -1_000_000_000 <= b.q <= 1_000_000_000,
        -1_000_000_000 <= b.r <= 1_000_000_000,
    ensures
        differences_fit(cube_of(a.q, a.r), cube_of(b.q, b.r)),
{
}

/// The number of steps is the same from either end.
pub proof fn lemma_hex_distance_symmetric(a: AxialCoordinates, b: AxialCoordinates)
    ensures
        hex_distance(a, b) == hex_distance(b, a),
{
}

/// The number of steps is never negative, and it is zero for one and the
/// same cell only.
pub proof fn lemma_hex_distance_zero(a: AxialCoordinates, b: AxialCoordinates)
    ensures
        hex_distance(a, b) >= 0,
        hex_distance(a, b) == 0 <==> a == b,
{
}

/// Going by way of a third cell is never shorter.
pub proof fn lemma_hex_distance_triangle(
    a: AxialCoordinates,
    b: AxialCoordinates,
    c: AxialCoordinates,
)
    ensures
        hex_distance(a, c) <= hex_distance(a, b) + hex_distance(b, c),
{
}

/// Every neighbour of a cell is one step from it.
pub proof fn lemma_neighbors_are_one_step_away(a: AxialCoordinates, i: int)
    requires
        a.has_neighbors(),
        0 <= i < 6,
    ensures
        hex_distance(a, cell(a.q + direction_steps()[i].q, a.r + direction_steps()[i].r)) == 1,
{
}

/// Where no third axis leaves the range of `i32`, the distance that
/// [`AxialCoordinates::distance`] returns is the distance on the unbounded
/// grid.
pub proof fn lemma_distance_is_hex_distance(a: AxialCoordinates, b: AxialCoordinates)
    requires
        i32::MIN <= -a.q - a.r <= i32::MAX,
        i32::MIN <= -b.q - b.r <= i32::MAX,
    ensures
        cube_distance(cube_of(a.q, a.r), cube_of(b.q, b.r)) == hex_distance(a, b),
{
}

impl Add<AxialCoordinates> for AxialCoordinates {
    type Output = Self;

    fn add(self, rhs: AxialCoordinates) -> (sum: Self) {
        Self { q: self.q + rhs.q, r: self.r + rhs.r }
    }
}

impl AddSpecImpl<AxialCoordinates> for AxialCoordinates {
    open spec fn obeys_add_spec() -> bool {
        true
    }

    open spec fn add_req(self, rhs: AxialCoordinates) -> bool {
        &&& i32::MIN <= self.q + rhs.q <= i32::MAX
        &&& i32::MIN <= self.r + rhs.r <= i32::MAX
    }

    open spec fn add_spec(self, rhs: AxialCoordinates) -> Self {
        cell(self.q + rhs.q, self.r + rhs.r)
    }
}

impl From<CubeCoordinates<i32>> for AxialCoordinates {
    fn from(value: CubeCoordinates<i32>) -> (a: Self) {
        Self::new(value.q, value.r)
    }
}

impl FromSpecImpl<CubeCoordinates<i32>> for AxialCoordinates {
    open spec fn obeys_from_spec() -> bool {
        true
    }

    open spec fn from_spec(value: CubeCoordinates<i32>) -> Self {
        cell(value@.0 as int, value@.1 as int)
    }
}

} // verus!
