//! Cube coordinates on the hex grid: three axes `(q, r, s)`.

use vstd::prelude::*;
use vstd::std_specs::convert::FromSpecImpl;

use crate::axial_coordinates::AxialCoordinates;

verus! {

#[derive(Debug, PartialEq, Eq)]
pub struct CubeCoordinates<T> {
    pub q: T,
    pub r: T,
    pub s: T,
}

impl<T> View for CubeCoordinates<T> {
    type V = (T, T, T);

    /// The three axes `(q, r, s)`.
    open spec fn view(&self) -> (T, T, T) {
        (self.q, self.r, self.s)
    }
}

impl<T> CubeCoordinates<T> {
    pub fn new(q: T, r: T, s: T) -> (cube: Self)
        ensures
            cube@ == (q, r, s),
    {
        Self { q, r, s }
    }
}

/// The larger of two integers.
pub open spec fn max_int(a: int, b: int) -> int {
    if a >= b {
        a
    } else {
        b
    }
}

/// How far an integer is from zero.
pub open spec fn abs_int(a: int) -> int {
    if a >= 0 {
        a
    } else {
        -a
    }
}

/// The third axis that goes with `q` and `r`, in 32-bit two's-complement
/// arithmetic. It is `-q - r` whenever that fits an `i32`.
pub open spec fn third_axis(q: i32, r: i32) -> i32 {
    0i32.wrapping_sub(q).wrapping_sub(r)
}

/// The cube coordinates of the axial pair `(q, r)`.
pub open spec fn cube_of(q: i32, r: i32) -> (i32, i32, i32) {
    (q, r, third_axis(q, r))
}

/// The distance between two cells: the largest of the three per-axis
/// differences, each taken without its sign. For cells whose axes sum to
/// zero this is the number of steps from the one to the other.
pub open spec fn cube_distance(a: (i32, i32, i32), b: (i32, i32, i32)) -> int {
    max_int(max_int(abs_int(a.0 - b.0), abs_int(a.1 - b.1)), abs_int(a.2 - b.2))
}

/// Whether each per-axis difference fits an `i32`, whichever of the two
/// cells it is taken from.
pub open spec fn differences_fit(a: (i32, i32, i32), b: (i32, i32, i32)) -> bool {
    &&& abs_int(a.0 - b.0) <= i32::MAX
    &&& abs_int(a.1 - b.1) <= i32::MAX
    &&& abs_int(a.2 - b.2) <= i32::MAX
}

/// The distance is the same from either end.
pub proof fn lemma_cube_distance_symmetric(a: (i32, i32, i32), b: (i32, i32, i32))
    ensures
        cube_distance(a, b) == cube_distance(b, a),
        differences_fit(a, b) == differences_fit(b, a),
{
}

/// The distance is never negative, and it is zero for one and the same cell
/// only.
pub proof fn lemma_cube_distance_zero(a: (i32, i32, i32), b: (i32, i32, i32))
    ensures
        cube_distance(a, b) >= 0,
        cube_distance(a, b) == 0 <==> a == b,
{
}

/// Going by way of a third cell is never shorter.
pub proof fn lemma_cube_distance_triangle(
    a: (i32, i32, i32),
    b: (i32, i32, i32),
    c: (i32, i32, i32),
)
    ensures
        cube_distance(a, c) <= cube_distance(a, b) + cube_distance(b, c),
{
}

/// Cells whose axes all lie within `0x2000_0000` of zero are near enough to
/// one another for [`CubeCoordinates::distance`].
pub proof fn lemma_small_cubes_fit(a: (i32, i32, i32), b: (i32, i32, i32))
    requires
        -0x2000_0000 <= a.0 <= 0x2000_0000,
        -0x2000_0000 <= a.1 <= 0x2000_0000,
        -0x2000_0000 <= a.2 <= 0x2000_0000,
        -0x2000_0000 <= b.0 <= 0x2000_0000,
        -0x2000_0000 <= b.1 <= 0x2000_0000,
        -0x2000_0000 <= b.2 <= 0x2000_0000,
    ensures
        differences_fit(a, b),
{
}

impl CubeCoordinates<i32> {
    /// The distance between `self` and `rhs`: the largest of the three
    /// per-axis differences, each taken without its sign.
    pub fn distance(&self, rhs: &Self) -> (d: i32)
        requires
            differences_fit(self@, rhs@),
        ensures
            d == cube_distance(self@, rhs@),
    {
        let dq: i32 = if self.q >= rhs.q { self.q - rhs.q } else { rhs.q - self.q };
        let dr: i32 = if self.r >= rhs.r { self.r - rhs.r } else { rhs.r - self.r };
        let ds: i32 = if self.s >= rhs.s { self.s - rhs.s } else { rhs.s - self.s };
        let m: i32 = if dq >= dr { dq } else { dr };
        if m >= ds { m } else { ds }
    }
}

impl From<AxialCoordinates> for CubeCoordinates<i32> {
    fn from(value: AxialCoordinates) -> (cube: Self)
        ensures
            cube@ == cube_of(value.q, value.r),
    {
        Self::new(value.q, value.r, 0i32.wrapping_sub(value.q).wrapping_sub(value.r))
    }
}

impl FromSpecImpl<AxialCoordinates> for CubeCoordinates<i32> {
    open spec fn obeys_from_spec() -> bool {
        true
    }

    open spec fn from_spec(value: AxialCoordinates) -> Self {
        CubeCoordinates { q: value.q, r: value.r, s: third_axis(value.q, value.r) }
    }
}

impl<'a> From<&'a AxialCoordinates> for CubeCoordinates<i32> {
    fn from(value: &'a AxialCoordinates) -> (cube: Self)
        ensures
            cube@ == cube_of(value.q, value.r),
    {
        Self::new(value.q, value.r, 0i32.wrapping_sub(value.q).wrapping_sub(value.r))
    }
}

impl<'a> FromSpecImpl<&'a AxialCoordinates> for CubeCoordinates<i32> {
    open spec fn obeys_from_spec() -> bool {
        true
    }

    open spec fn from_spec(value: &'a AxialCoordinates) -> Self {
        CubeCoordinates { q: value.q, r: value.r, s: third_axis(value.q, value.r) }
    }
}

impl From<(i32, i32)> for CubeCoordinates<i32> {
    fn from(value: (i32, i32)) -> (cube: Self)
        ensures
            cube@ == cube_of(value.0, value.1),
    {
        Self::new(value.0, value.1, 0i32.wrapping_sub(value.0).wrapping_sub(value.1))
    }
}

impl FromSpecImpl<(i32, i32)> for CubeCoordinates<i32> {
    open spec fn obeys_from_spec() -> bool {
        true
    }

    open spec fn from_spec(value: (i32, i32)) -> Self {
        CubeCoordinates { q: value.0, r: value.1, s: third_axis(value.0, value.1) }
    }
}

} // verus!
