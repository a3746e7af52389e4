//! Points of the display plane and the directions in which screens are sought.

use vstd::prelude::*;

verus! {

/// A point of the display plane.
///
/// Each coordinate is held as a whole number that stands for the display
/// coordinate and is ordered as it is: of two coordinates the larger one has
/// the larger number, and equal ones have the same number.
#[derive(Clone, Copy, Debug, PartialEq, Eq, Structural)]
pub struct Point {
    pub x: i64,
    pub y: i64,
}

/// A direction on the display plane.
#[derive(Clone, Copy, Debug, PartialEq, Eq, Structural)]
pub enum Direction {
    Left,
    Right,
    Up,
    Down,
}

/// The monitor that a move command names, seen from the current one.
#[derive(Clone, Copy, Debug, PartialEq, Eq, Structural)]
pub enum MonitorDirection {
    Left,
    Right,
    Next,
}

/// The direction that points the other way.
pub open spec fn opposite_of(direction: Direction) -> Direction {
    match direction {
        Direction::Left => Direction::Right,
        Direction::Right => Direction::Left,
        Direction::Up => Direction::Down,
        Direction::Down => Direction::Up,
    }
}

/// Whether `point` lies strictly on the `direction` side of `origin`. Upwards
/// is where `y` grows.
pub open spec fn lies_towards(direction: Direction, origin: Point, point: Point) -> bool {
    match direction {
        Direction::Left => point.x < origin.x,
        Direction::Right => point.x > origin.x,
        Direction::Up => point.y > origin.y,
        Direction::Down => point.y < origin.y,
    }
}

impl Direction {
    /// The direction that points the other way.
    pub fn opposite(self) -> (res: Direction)
        ensures
            res == opposite_of(self),
    {
        match self {
            Direction::Left => Direction::Right,
            Direction::Right => Direction::Left,
            Direction::Up => Direction::Down,
            Direction::Down => Direction::Up,
        }
    }

    /// Whether `point` lies strictly on this side of `origin`.
    pub fn is_towards(self, origin: Point, point: Point) -> (res: bool)
        ensures
            res == lies_towards(self, origin, point),
    {
        match self {
            Direction::Left => point.x < origin.x,
            Direction::Right => point.x > origin.x,
            Direction::Up => point.y > origin.y,
            Direction::Down => point.y < origin.y,
        }
    }
}

} // verus!
