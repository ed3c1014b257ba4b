//! Ships and rockets: the two kinds of entity that live on the grid.

use vstd::prelude::*;
use vstd::string::StrSliceExecFns;
use crate::geometry::{Position, RocketDirection};

verus! {

/// The glyph the player's ship is drawn with.
pub const PLAYER_SHIP: &'static str = "YOUR SHIP";

/// The glyph an enemy ship is drawn with.
pub const ENEMY1_SHIP: &'static str = "@@";

/// The glyph a rocket is drawn with.
pub const ROCKET: &'static str = "^";

/// Which side a ship fights for.
#[derive(Clone, Copy, Debug, PartialEq, Eq, Structural)]
pub enum Side {
    Player,
    Enemy,
}

/// Index of a ship in the game's live set; rockets record their firer by it.
pub type ShipId = usize;

/// A request to put a glyph on the display at a grid position. The engine
/// emits these; carrying them out is the embedding program's business.
#[derive(Clone, Copy, Debug)]
#[verifier::ext_equal]
pub struct DrawCmd {
    pub x: i32,
    pub y: i32,
    pub text: &'static str,
}

/// A player- or enemy-controlled ship. Only `pos` and `destroyed` ever change.
#[derive(Clone, Copy, Debug)]
#[verifier::ext_equal]
pub struct Ship {
    pub pos: Position,
    pub shape: &'static str,
    pub destroyed: bool,
    pub side: Side,
}

/// A rocket in flight. Only `pos` and `destroyed` ever change. `max_allowed_y`
/// (resp. `max_allowed_x`) is the largest `y` (resp. `x`) still inside the
/// arena it was fired in.
#[derive(Clone, Copy, Debug)]
#[verifier::ext_equal]
pub struct Rocket {
    pub max_allowed_y: i32,
    pub max_allowed_x: i32,
    pub owner: ShipId,
    pub pos: Position,
    pub shape: &'static str,
    pub direction: RocketDirection,
    pub destroyed: bool,
}

impl Ship {
    /// How many cells wide the ship's glyph is.
    pub open spec fn width(self) -> int {
        self.shape@.len() as int
    }

    /// The ship occupies the horizontal run of cells from `pos.x` to
    /// `pos.x + width - 1`, all on row `pos.y`.
    pub open spec fn covers(self, x: int, y: int) -> bool {
        &&& y == self.pos.y
        &&& self.pos.x <= x < self.pos.x + self.width()
    }

    /// The draw request this ship emits: its glyph at its position, or
    /// nothing once it is destroyed.
    pub open spec fn spec_draw_request(self) -> Option<DrawCmd> {
        if self.destroyed {
            None
        } else {
            Some(DrawCmd { x: self.pos.x, y: self.pos.y, text: self.shape })
        }
    }

    /// The cells the ship currently occupies, recomputed from its position.
    pub fn hit_boxes(&self) -> (hits: Vec<(i32, i32)>)
        requires
            self.pos.x + self.shape@.len() <= i32::MAX,
        ensures
            hits@.len() == self.shape@.len(),
            forall|k: int|
                0 <= k < hits@.len() ==> hits@[k] == (((self.pos.x + k) as i32, self.pos.y)),
    {
        let w: usize = self.shape.unicode_len();
        let mut hits = Vec::<(i32, i32)>::new();
        let mut k: usize = 0;
        while k < w
            invariant
                k <= w,
                w == self.shape@.len(),
                self.pos.x + w <= i32::MAX,
                hits@.len() == k,
                forall|j: int|
                    0 <= j < k ==> hits@[j] == (((self.pos.x + j) as i32, self.pos.y)),
            decreases w - k,
        {
            let x: i32 = ((self.pos.x as i64) + (k as i64)) as i32;
            hits.push((x, self.pos.y));
            k = k + 1;
        }
        hits
    }

    /// What to draw for this ship, if anything.
    pub fn draw_request(&self) -> (cmd: Option<DrawCmd>)
        ensures
            cmd == self.spec_draw_request(),
    {
        if !self.destroyed {
            Some(DrawCmd { x: self.pos.x, y: self.pos.y, text: self.shape })
        } else {
            None
        }
    }

    /// Move one cell up.
    pub fn up(&mut self)
        requires
            old(self).pos.y > i32::MIN,
        ensures
            *final(self) == (Ship {
                pos: Position { x: old(self).pos.x, y: (old(self).pos.y - 1) as i32 },
                ..*old(self)
            }),
    {
        self.pos.up();
    }

    /// Move one cell down.
    pub fn down(&mut self)
        requires
            old(self).pos.y < i32::MAX,
        ensures
            *final(self) == (Ship {
                pos: Position { x: old(self).pos.x, y: (old(self).pos.y + 1) as i32 },
                ..*old(self)
            }),
    {
        self.pos.down();
    }

    /// Move one cell to the right.
    pub fn right(&mut self)
        requires
            old(self).pos.x < i32::MAX,
        ensures
            *final(self) == (Ship {
                pos: Position { x: (old(self).pos.x + 1) as i32, y: old(self).pos.y },
                ..*old(self)
            }),
    {
        self.pos.right();
    }

    /// Move one cell to the left.
    pub fn left(&mut self)
        requires
            old(self).pos.x > i32::MIN,
        ensures
            *final(self) == (Ship {
                pos: Position { x: (old(self).pos.x - 1) as i32, y: old(self).pos.y },
                ..*old(self)
            }),
    {
        self.pos.left();
    }
}

/// True exactly when neither party is destroyed and the rocket's position is
/// one of the cells the ship occupies.
pub open spec fn hit_spec(rocket: Rocket, ship: Ship) -> bool {
    &&& !rocket.destroyed
    &&& !ship.destroyed
    &&& ship.covers(rocket.pos.x as int, rocket.pos.y as int)
}

/// Does this rocket currently hit this ship? Destroyed entities never hit
/// nor get hit.
pub fn ship_rocket_colision(rocket: &Rocket, ship: &Ship) -> (hit: bool)
    ensures
        hit == hit_spec(*rocket, *ship),
{
    if !rocket.destroyed && !ship.destroyed {
        let w: usize = ship.shape.unicode_len();
        if rocket.pos.y == ship.pos.y && ship.pos.x <= rocket.pos.x {
            let off: i64 = (rocket.pos.x as i64) - (ship.pos.x as i64);
            (off as u64) < (w as u64)
        } else {
            false
        }
    } else {
        false
    }
}

impl Rocket {
    /// This rocket after one tick of travel: one cell along its direction,
    /// and marked destroyed if that took it out of the arena.
    pub open spec fn progressed(self) -> Rocket {
        match self.direction {
            RocketDirection::Up => Rocket {
                pos: Position { x: self.pos.x, y: (self.pos.y - 1) as i32 },
                destroyed: self.destroyed || self.pos.y - 1 < 0,
                ..self
            },
            RocketDirection::Down => Rocket {
                pos: Position { x: self.pos.x, y: (self.pos.y + 1) as i32 },
                destroyed: self.destroyed || self.pos.y + 1 > self.max_allowed_y,
                ..self
            },
        }
    }

    /// One tick of travel stays within `i32` on the travel axis.
    pub open spec fn step_fits(self) -> bool {
        match self.direction {
            RocketDirection::Up => self.pos.y > i32::MIN,
            RocketDirection::Down => self.pos.y < i32::MAX,
        }
    }

    /// The draw request this rocket emits: its glyph at its position, or
    /// nothing once it is destroyed.
    pub open spec fn spec_draw_request(self) -> Option<DrawCmd> {
        if self.destroyed {
            None
        } else {
            Some(DrawCmd { x: self.pos.x, y: self.pos.y, text: self.shape })
        }
    }

    /// Advance one cell along the travel direction; going past the top
    /// (`y < 0`) or past the bottom (`y > max_allowed_y`) destroys the rocket.
    pub fn progress(&mut self)
        requires
            old(self).step_fits(),
        ensures
            *final(self) == old(self).progressed(),
    {
        match self.direction {
            RocketDirection::Up => {
                self.pos.y = self.pos.y - 1;
                if self.pos.y < 0 {
                    self.destroyed = true;
                }
            }
            RocketDirection::Down => {
                self.pos.y = self.pos.y + 1;
                if self.pos.y > self.max_allowed_y {
                    self.destroyed = true;
                }
            }
        }
    }

    /// What to draw for this rocket, if anything.
    pub fn draw_request(&self) -> (cmd: Option<DrawCmd>)
        ensures
            cmd == self.spec_draw_request(),
    {
        if !self.destroyed {
            Some(DrawCmd { x: self.pos.x, y: self.pos.y, text: self.shape })
        } else {
            None
        }
    }

    /// Move one cell up.
    pub fn up(&mut self)
        requires
            old(self).pos.y > i32::MIN,
        ensures
            *final(self) == (Rocket {
                pos: Position { x: old(self).pos.x, y: (old(self).pos.y - 1) as i32 },
                ..*old(self)
            }),
    {
        self.pos.up();
    }

    /// Move one cell down.
    pub fn down(&mut self)
        requires
            old(self).pos.y < i32::MAX,
        ensures
            *final(self) == (Rocket {
                pos: Position { x: old(self).pos.x, y: (old(self).pos.y + 1) as i32 },
                ..*old(self)
            }),
    {
        self.pos.down();
    }

    /// Move one cell to the right.
    pub fn right(&mut self)
        requires
            old(self).pos.x < i32::MAX,
        ensures
            *final(self) == (Rocket {
                pos: Position { x: (old(self).pos.x + 1) as i32, y: old(self).pos.y },
                ..*old(self)
            }),
    {
        self.pos.right();
    }

    /// Move one cell to the left.
    pub fn left(&mut self)
        requires
            old(self).pos.x > i32::MIN,
        ensures
            *final(self) == (Rocket {
                pos: Position { x: (old(self).pos.x - 1) as i32, y: old(self).pos.y },
                ..*old(self)
            }),
    {
        self.pos.left();
    }
}

} // verus!
