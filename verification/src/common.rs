//! Directions and the offsets they induce on the map grid.

use vstd::prelude::*;
use vstd::std_specs::convert::FromSpec;

verus! {

/// One of the four cardinal directions an entity can face or walk in.
#[derive(Clone, Copy, Debug, PartialEq, Eq, Structural, Hash)]
pub enum Direction {
    Up,
    Down,
    Left,
    Right,
}

/// The unit step induced by a direction, as an `(x, y)` pair: `Up` increases
/// `y`, `Right` increases `x`.
pub open spec fn spec_direction_offset(direction: Direction) -> (i8, i8) {
    match direction {
        Direction::Up => (0i8, 1i8),
        Direction::Down => (0i8, -1i8),
        Direction::Left => (-1i8, 0i8),
        Direction::Right => (1i8, 0i8),
    }
}

/// Returns the unit offset of one step in `direction`, converted into any
/// integer type that can hold an `i8`.
pub fn get_direction_offset<T: From<i8>>(direction: &Direction) -> (r: (T, T))
    ensures
        T::obeys_from_spec() ==> r == (
            T::from_spec(spec_direction_offset(*direction).0),
            T::from_spec(spec_direction_offset(*direction).1),
        ),
{
    let (x, y): (i8, i8) = match direction {
        Direction::Up => (0, 1),
        Direction::Down => (0, -1),
        Direction::Left => (-1, 0),
        Direction::Right => (1, 0),
    };

    (T::from(x), T::from(y))
}

} // verus!
