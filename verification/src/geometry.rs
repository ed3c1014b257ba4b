//! Grid coordinates and directional movement deltas.

use vstd::prelude::*;
use crate::rng::sample_direction_number;

verus! {

/// The eight compass directions a ship may move in.
#[derive(Clone, Copy, Debug, PartialEq, Eq, Structural)]
pub enum Direction {
    Up,
    Down,
    Left,
    Right,
    UpLeft,
    UpRight,
    DownLeft,
    DownRight,
}

/// The two directions a rocket may travel in. Kept apart from [`Direction`]
/// so that a sideways rocket is not even representable.
#[derive(Clone, Copy, Debug, PartialEq, Eq, Structural)]
pub enum RocketDirection {
    Up,
    Down,
}

/// A grid coordinate; `x` grows to the right, `y` grows downward.
#[derive(Clone, Copy, Debug, PartialEq, Eq, Structural)]
pub struct Position {
    pub x: i32,
    pub y: i32,
}

impl Direction {
    /// Horizontal displacement of one move in this direction.
    pub open spec fn dx(self) -> int {
        match self {
            Direction::Left | Direction::UpLeft | Direction::DownLeft => -1,
            Direction::Right | Direction::UpRight | Direction::DownRight => 1,
            Direction::Up | Direction::Down => 0,
        }
    }

    /// Vertical displacement of one move in this direction.
    pub open spec fn dy(self) -> int {
        match self {
            Direction::Up | Direction::UpLeft | Direction::UpRight => -1,
            Direction::Down | Direction::DownLeft | Direction::DownRight => 1,
            Direction::Left | Direction::Right => 0,
        }
    }

    /// The direction a sampled number in `1..=8` stands for; each of the
    /// eight values names one variant.
    pub open spec fn direction_from_number(n: u8) -> Direction {
        match n {
            1u8 => Direction::Up,
            2u8 => Direction::Down,
            3u8 => Direction::Right,
            4u8 => Direction::Left,
            5u8 => Direction::UpLeft,
            6u8 => Direction::UpRight,
            7u8 => Direction::DownLeft,
            _ => Direction::DownRight,
        }
    }

    /// The eight-way mapping from a sampled number to its direction.
    pub fn from_number(n: u8) -> (d: Direction)
        requires
            1 <= n <= 8,
        ensures
            d == Direction::direction_from_number(n),
    {
        match n {
            1 => Direction::Up,
            2 => Direction::Down,
            3 => Direction::Right,
            4 => Direction::Left,
            5 => Direction::UpLeft,
            6 => Direction::UpRight,
            7 => Direction::DownLeft,
            _ => Direction::DownRight,
        }
    }

    /// A direction drawn uniformly at random; used for the autonomous motion
    /// of enemy ships. Which number comes out of the sample is chance; the
    /// result is that number's image under the eight-way mapping.
    pub fn random() -> (d: Direction)
        ensures
            exists|n: u8| 1 <= n <= 8 && d == Direction::direction_from_number(n),
    {
        let n: u8 = sample_direction_number();
        let d: Direction = Direction::from_number(n);
        proof {
            assert(1 <= n <= 8 && d == Direction::direction_from_number(n));
        }
        d
    }
}

impl Position {
    /// The position one step away in direction `d`. A diagonal is the vector
    /// sum of its two cardinal components.
    pub open spec fn moved(self, d: Direction) -> Position {
        Position { x: (self.x + d.dx()) as i32, y: (self.y + d.dy()) as i32 }
    }

    /// Both axes of a step in direction `d` stay within `i32`.
    pub open spec fn move_fits(self, d: Direction) -> bool {
        &&& i32::MIN <= self.x + d.dx() <= i32::MAX
        &&& i32::MIN <= self.y + d.dy() <= i32::MAX
    }

    /// Shift this position one step in direction `d`; a diagonal is applied
    /// as two independent single-axis shifts.
    pub fn move_into(&mut self, d: &Direction)
        requires
            old(self).move_fits(*d),
        ensures
            *final(self) == old(self).moved(*d),
    {
        match d {
            Direction::Up => {
                self.up();
            }
            Direction::Down => {
                self.down();
            }
            Direction::Left => {
                self.left();
            }
            Direction::Right => {
                self.right();
            }
            Direction::UpLeft => {
                self.up();
                self.left();
            }
            Direction::UpRight => {
                self.up();
                self.right();
            }
            Direction::DownLeft => {
                self.down();
                self.left();
            }
            Direction::DownRight => {
                self.down();
                self.right();
            }
        }
    }

    /// One cell up (toward smaller `y`).
    pub fn up(&mut self)
        requires
            old(self).y > i32::MIN,
        ensures
            *final(self) == (Position { x: old(self).x, y: (old(self).y - 1) as i32 }),
    {
        self.y = self.y - 1;
    }

    /// One cell down (toward larger `y`).
    pub fn down(&mut self)
        requires
            old(self).y < i32::MAX,
        ensures
            *final(self) == (Position { x: old(self).x, y: (old(self).y + 1) as i32 }),
    {
        self.y = self.y + 1;
    }

    /// One cell to the right.
    pub fn right(&mut self)
        requires
            old(self).x < i32::MAX,
        ensures
            *final(self) == (Position { x: (old(self).x + 1) as i32, y: old(self).y }),
    {
        self.x = self.x + 1;
    }

    /// One cell to the left.
    pub fn left(&mut self)
        requires
            old(self).x > i32::MIN,
        ensures
            *final(self) == (Position { x: (old(self).x - 1) as i32, y: old(self).y }),
    {
        self.x = self.x - 1;
    }
}

} // verus!
