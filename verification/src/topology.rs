//! Directions and screen geometry shared by every adapter.
use vstd::prelude::*;

verus! {

/// A compass direction on the desktop.
#[derive(Clone, Copy, Debug, PartialEq, Eq, Structural)]
pub enum Direction {
    West,
    East,
    North,
    South,
}

impl Direction {
    /// The direction that undoes a step in `self`.
    pub open spec fn spec_opposite(self) -> Direction {
        match self {
            Direction::West => Direction::East,
            Direction::East => Direction::West,
            Direction::North => Direction::South,
            Direction::South => Direction::North,
        }
    }

    /// Returns the direction that undoes a step in `self`.
    pub fn opposite(self) -> (result: Direction)
        ensures
            result == self.spec_opposite(),
    {
        match self {
            Direction::West => Direction::East,
            Direction::East => Direction::West,
            Direction::North => Direction::South,
            Direction::South => Direction::North,
        }
    }
}

/// The name of a direction.
pub open spec fn direction_text(direction: Direction) -> Seq<char> {
    match direction {
        Direction::West => "west"@,
        Direction::East => "east"@,
        Direction::North => "north"@,
        Direction::South => "south"@,
    }
}

impl Direction {
    /// Names the direction.
    pub fn name(self) -> (result: &'static str)
        ensures
            result@ == direction_text(self),
    {
        match self {
            Direction::West => "west",
            Direction::East => "east",
            Direction::North => "north",
            Direction::South => "south",
        }
    }
}

/// Turning around twice faces the original direction again.
pub proof fn opposite_is_an_involution(direction: Direction)
    ensures
        direction.spec_opposite().spec_opposite() == direction,
        direction.spec_opposite() != direction,
{
}

/// A rectangle on the desktop.
#[derive(Clone, Copy, Debug, PartialEq, Eq, Structural)]
pub struct Rect {
    pub x: i32,
    pub y: i32,
    pub w: i32,
    pub h: i32,
}

/// A rectangle together with the identity of what occupies it.
#[derive(Clone, Copy, Debug, PartialEq, Eq, Structural)]
pub struct DirectedRect {
    pub id: u64,
    pub rect: Rect,
}

/// How far `rect` reaches towards `direction`, measured so that a larger value always means
/// further out.
pub open spec fn reach(direction: Direction, rect: Rect) -> int {
    match direction {
        Direction::West => -(rect.x as int),
        Direction::East => rect.x + rect.w,
        Direction::North => -(rect.y as int),
        Direction::South => rect.y + rect.h,
    }
}

/// Computes how far `rect` reaches towards `direction`. The sum is taken in 64 bits, so it cannot
/// wrap.
pub fn reach_towards(direction: Direction, rect: Rect) -> (result: i64)
    ensures
        result == reach(direction, rect),
{
    match direction {
        Direction::West => -(rect.x as i64),
        Direction::East => rect.x as i64 + rect.w as i64,
        Direction::North => -(rect.y as i64),
        Direction::South => rect.y as i64 + rect.h as i64,
    }
}

/// One rectangle reaches further than another exactly if the edge that faces the direction lies
/// further out: west and north that is the smaller coordinate, east and south the larger end.
pub proof fn reach_compares_the_facing_edges(
    direction: Direction,
    near: Rect,
    far: Rect,
    near_reach: i64,
    far_reach: i64,
)
    requires
        call_ensures(reach_towards, (direction, near), near_reach),
        call_ensures(reach_towards, (direction, far), far_reach),
    ensures
        direction == Direction::West ==> (near_reach < far_reach <==> far.x < near.x),
        direction == Direction::East ==> (near_reach < far_reach <==> near.x + near.w < far.x
            + far.w),
        direction == Direction::North ==> (near_reach < far_reach <==> far.y < near.y),
        direction == Direction::South ==> (near_reach < far_reach <==> near.y + near.h < far.y
            + far.h),
        near_reach == reach(direction, near),
        far_reach == reach(direction, far),
{
}

/// A direction and its opposite measure one rectangle from its two sides: what they reach adds up
/// to its width or its height.
pub proof fn opposite_sides_span_the_rectangle(direction: Direction, back: Direction, rect: Rect)
    requires
        call_ensures(Direction::opposite, (direction,), back),
    ensures
        direction == Direction::West || direction == Direction::East ==> reach(direction, rect)
            + reach(back, rect) == rect.w,
        direction == Direction::North || direction == Direction::South ==> reach(direction, rect)
            + reach(back, rect) == rect.h,
        direction == Direction::West <==> back == Direction::East,
        direction == Direction::East <==> back == Direction::West,
        direction == Direction::North <==> back == Direction::South,
        direction == Direction::South <==> back == Direction::North,
        back == direction.spec_opposite(),
{
}

/// Directions go by the names of the compass.
pub proof fn directions_go_by_the_compass(direction: Direction, name: &'static str)
    requires
        call_ensures(Direction::name, (direction,), name),
    ensures
        direction == Direction::West ==> name@ == "west"@,
        direction == Direction::East ==> name@ == "east"@,
        direction == Direction::North ==> name@ == "north"@,
        direction == Direction::South ==> name@ == "south"@,
        name@ == direction_text(direction),
{
}

} // verus!
