use vstd::prelude::*;
use crate::units::{Point, TICK_LIMIT, WORLD_LIMIT};

verus! {

/// Units per tick at which the awakened monster moves left.
pub const MONSTER_SPEED: i64 = 15;

/// The creature of the cave: asleep until the player brings the friend
/// through its lair, then moving left without end.
#[derive(Clone, Copy, PartialEq, Eq, Structural, Debug)]
pub struct Monster {
    pub pos: Point,
    pub activated: bool,
}

/// Whether `p` lies strictly inside the monster's lair.
pub open spec fn in_lair(p: Point) -> bool {
    540_000 < p.y < 680_000 && 635_000 < p.x < 1_221_000
}

impl Monster {
    /// Whether the monster is awake after an update with the player at
    /// `player`.
    pub open spec fn wakes(&self, player: Point, friend_found: bool) -> bool {
        self.activated || (in_lair(player) && friend_found)
    }

    /// The monster one update later.
    pub open spec fn next(&self, player: Point, friend_found: bool, ticks: int) -> Monster {
        if self.wakes(player, friend_found) {
            Monster {
                pos: Point { x: (self.pos.x - MONSTER_SPEED * ticks) as i64, y: self.pos.y },
                activated: true,
            }
        } else {
            *self
        }
    }

    /// A sleeping monster at `(x, y)`.
    pub fn new(x: i64, y: i64) -> (m: Monster)
        ensures
            m == (Monster { pos: Point { x, y }, activated: false }),
    {
        Monster { pos: Point { x, y }, activated: false }
    }

    /// One update: the monster wakes when the player is in its lair with
    /// the friend found, and an awake monster moves left.
    pub fn update(&mut self, player_pos: &Point, friend_found: bool, ticks: i64)
        requires
            -WORLD_LIMIT <= old(self).pos.x,
            0 <= ticks <= TICK_LIMIT,
        ensures
            *final(self) == old(self).next(*player_pos, friend_found, ticks as int),
    {
        if player_pos.y > 540_000 && player_pos.y < 680_000 && player_pos.x > 635_000
            && player_pos.x < 1_221_000 && friend_found {
            self.activated = true;
        }
        if self.activated {
            self.pos.x = self.pos.x - MONSTER_SPEED * ticks;
        }
    }
}

} // verus!
