use vstd::prelude::*;
use crate::units::{
    closer_than, dist_sq, farther_than, travel, travel_axis_exec, Heading, Point, TICK_LIMIT,
};

verus! {

/// Distance within which the player finds the friend.
pub const FIND_RANGE: i64 = 80_000;

/// Distance beyond which a found friend moves toward the player.
pub const FOLLOW_RANGE: i64 = 70_000;

/// Units per tick at which the friend follows.
pub const FOLLOW_SPEED: i64 = 3;

/// The lost colleague: hidden until found or touched by an echo, and
/// following the player once found.
#[derive(Clone, Copy, PartialEq, Eq, Structural, Debug)]
pub struct Friend {
    pub pos: Point,
    pub found: bool,
    pub show: bool,
}

impl Friend {
    /// The friend one update later, with the player at `player` and
    /// `toward` the unit direction from the friend to the player.
    pub open spec fn next(&self, player: Point, toward: Heading, ticks: int) -> Friend {
        if !self.found {
            if dist_sq(self.pos, player) < FIND_RANGE * FIND_RANGE {
                Friend { found: true, show: true, ..*self }
            } else {
                *self
            }
        } else if dist_sq(self.pos, player) > FOLLOW_RANGE * FOLLOW_RANGE {
            let at = self.pos.plus(travel(toward, FOLLOW_SPEED as int, ticks));
            Friend { pos: Point { x: at.0 as i64, y: at.1 as i64 }, ..*self }
        } else {
            *self
        }
    }

    /// A friend at `(x, y)`, neither found nor shown.
    pub fn new(x: i64, y: i64) -> (f: Friend)
        ensures
            f == (Friend { pos: Point { x, y }, found: false, show: false }),
    {
        Friend { pos: Point { x, y }, found: false, show: false }
    }

    /// One update: the friend is found when the player comes within the
    /// finding range, and from then on closes in along `toward` whenever
    /// the player is beyond the following range.
    pub fn update(&mut self, player_pos: &Point, toward: Heading, ticks: i64)
        requires
            old(self).pos.in_world(),
            toward.wf(),
            0 <= ticks <= TICK_LIMIT,
        ensures
            *final(self) == old(self).next(*player_pos, toward, ticks as int),
    {
        if !self.found {
            if closer_than(&self.pos, player_pos, FIND_RANGE) {
                self.found = true;
                self.show = true;
            }
        } else if farther_than(&self.pos, player_pos, FOLLOW_RANGE) {
            let dx: i64 = travel_axis_exec(toward.cos, FOLLOW_SPEED, ticks);
            let dy: i64 = travel_axis_exec(toward.sin, FOLLOW_SPEED, ticks);
            assert(FOLLOW_SPEED * ticks <= 3_000_000);
            self.pos = Point { x: self.pos.x + dx, y: self.pos.y + dy };
        }
    }
}

} // verus!
