use vstd::prelude::*;
use vstd::arithmetic::div_mod::lemma_mod_bound;
use crate::beacon::{beacons_ready, directions_for, fans_sent, update_beacons, Beacon};
use crate::camera::Camera2D;
use crate::echo::Echo;
use crate::field::{
    advance_echoes, can_update_all, echo_reveals, law_removal_keeps_the_living, live,
    remove_expired, reveals, stepped,
};
use crate::friend::Friend;
use crate::mask::CollisionMask;
use crate::monster::Monster;
use crate::compass::Compass;
use crate::field::fan;
use crate::player::{Input, Player, Scene, MAX_SPEED, PLAYER_LIMIT};
use crate::units::{Heading, Point, HALF_SPRITE, TICK_LIMIT, UNIT, WORLD_LIMIT};

verus! {

/// Period, in ticks, of a beacon that the player places.
pub const PLACED_PERIOD: i32 = 60;

/// Everything that one update reads and changes.
pub struct Simulation {
    pub camera: Camera2D,
    pub mask: CollisionMask,
    pub player: Player,
    pub echoes: Vec<Echo>,
    pub beacons: Vec<Beacon>,
    pub friend: Friend,
    pub monster: Monster,
    pub scene: Scene,
    pub num_of_beacons: i32,
}

impl Simulation {
    /// The parts that no update changes are valid.
    pub open spec fn wf(&self) -> bool {
        self.mask.wf() && self.camera.wf()
    }

    /// The beacons as they stand once a beacon asked for has been placed.
    pub open spec fn placed(&self, place_beacon: bool) -> Seq<Beacon> {
        if place_beacon && self.num_of_beacons > 0 {
            self.beacons@.push(
                Beacon { pos: self.player.pos, visible: true, freq: PLACED_PERIOD, timer: 0 },
            )
        } else {
            self.beacons@
        }
    }

    /// The beacons still to place once a beacon asked for has been placed.
    pub open spec fn left(&self, place_beacon: bool) -> int {
        if place_beacon && self.num_of_beacons > 0 {
            self.num_of_beacons - 1
        } else {
            self.num_of_beacons as int
        }
    }

    /// What [`Simulation::steer`] may assume.
    pub open spec fn can_steer(&self, facing: Heading, ticks: int) -> bool {
        &&& self.wf()
        &&& self.player.wf()
        &&& facing.wf()
        &&& 0 <= ticks <= TICK_LIMIT
    }

    /// What [`Simulation::emit`] may assume.
    pub open spec fn can_emit(&self, ticks: int) -> bool {
        &&& self.wf()
        &&& beacons_ready(self.beacons@)
        &&& self.player.pos.in_world()
        &&& 0 <= ticks <= TICK_LIMIT
    }

    /// What [`Simulation::propagate`] may assume.
    pub open spec fn can_propagate(&self, headings: Seq<Heading>, toward: Heading, ticks: int) -> bool {
        &&& self.wf()
        &&& can_update_all(self.echoes@, headings, &self.mask, &self.camera, ticks)
        &&& self.friend.pos.in_world()
        &&& -WORLD_LIMIT <= self.monster.pos.x
        &&& toward.wf()
        &&& 0 <= ticks <= TICK_LIMIT
    }

    /// `after` is this simulation once a beacon asked for has been placed
    /// and every beacon has ticked, with `dirs` the directions they drew:
    /// the fans of those that fired stand behind the echoes already there.
    pub open spec fn emits_to(
        &self,
        after: Simulation,
        place_beacon: bool,
        ticks: int,
        dirs: Seq<int>,
    ) -> bool {
        let row = self.placed(place_beacon);
        &&& directions_for(dirs, row.len() as int)
        &&& after.echoes@ == self.echoes@ + fans_sent(row, dirs, ticks)
        &&& after.beacons@.len() == row.len()
        &&& forall|i: int|
            0 <= i < row.len() ==> (#[trigger] after.beacons@[i]) == row[i].ticked(ticks)
        &&& after.num_of_beacons == self.left(place_beacon)
        &&& after.player == self.player
        &&& after.camera == self.camera
        &&& after.mask == self.mask
        &&& after.scene == self.scene
        &&& after.friend == self.friend
        &&& after.monster == self.monster
    }

    /// `after` is this simulation once every echo has had its update, with
    /// `mid` the echoes after their step and before removal, and the
    /// friend and the monster have had theirs.
    pub open spec fn propagates_to(
        &self,
        after: Simulation,
        headings: Seq<Heading>,
        toward: Heading,
        ticks: int,
        mid: Seq<Echo>,
    ) -> bool {
        let shown = Friend {
            show: self.friend.show || reveals(mid, self.friend.pos),
            ..self.friend
        };
        &&& stepped(self.echoes@, mid, headings, &self.mask, &self.camera, ticks)
        &&& after.echoes@ == live(mid)
        &&& after.friend == shown.next(self.player.pos, toward, ticks)
        &&& after.monster == self.monster.next(self.player.pos, self.friend.found, ticks)
        &&& after.beacons == self.beacons
        &&& after.num_of_beacons == self.num_of_beacons
        &&& after.player == self.player
        &&& after.camera == self.camera
        &&& after.mask == self.mask
        &&& after.scene == self.scene
    }

    /// First part of an update: the player moves and may send a fan, the
    /// scene ends once the monster is awake, and the camera centres on the
    /// player's sprite.
    pub fn steer(&mut self, input: &Input, facing: Heading, ticks: i64)
        requires
            old(self).can_steer(facing, ticks as int),
        ensures
            final(self).player == old(self).player.next(
                *input,
                old(self).scene,
                facing,
                ticks as int,
                &old(self).mask,
                &old(self).camera,
            ),
            final(self).echoes@ == old(self).echoes@ + old(self).player.sent(
                *input,
                old(self).scene,
                facing,
                ticks as int,
                &old(self).mask,
                &old(self).camera,
            ),
            final(self).scene == (if old(self).monster.activated {
                Scene::End
            } else {
                old(self).scene
            }),
            final(self).camera == (Camera2D {
                pos: Point {
                    x: (final(self).player.pos.x + HALF_SPRITE) as i64,
                    y: (final(self).player.pos.y + HALF_SPRITE) as i64,
                },
                ..old(self).camera
            }),
            final(self).mask == old(self).mask,
            final(self).beacons == old(self).beacons,
            final(self).friend == old(self).friend,
            final(self).monster == old(self).monster,
            final(self).num_of_beacons == old(self).num_of_beacons,
            final(self).wf(),
            final(self).player.pos.within(PLAYER_LIMIT + MAX_SPEED / UNIT),
    {
        self.player.update(input, facing, &self.mask, &mut self.echoes, &self.camera, &self.scene, ticks);
        if self.monster.activated {
            self.scene = Scene::End;
        }
        self.camera.set_position(self.player.pos.x + HALF_SPRITE, self.player.pos.y + HALF_SPRITE);
    }

    /// Second part of an update, before any echo moves: a beacon is placed
    /// at the player's position if asked for and one is left, and every
    /// beacon ticks. The fans sent here are advanced by the
    /// [`Simulation::propagate`] of the same update.
    pub fn emit(&mut self, place_beacon: bool, ticks: i64)
        requires
            old(self).can_emit(ticks as int),
        ensures
            exists|dirs: Seq<int>| #[trigger]
                old(self).emits_to(*final(self), place_beacon, ticks as int, dirs),
            final(self).wf(),
            beacons_ready(final(self).beacons@),
    {
        if place_beacon && self.num_of_beacons > 0 {
            self.beacons.push(Beacon::new(self.player.pos.x, self.player.pos.y, true, PLACED_PERIOD));
            self.num_of_beacons = self.num_of_beacons - 1;
        }
        let ghost row = self.beacons@;
        assert(row == old(self).placed(place_beacon));
        update_beacons(&mut self.beacons, &mut self.echoes, ticks);
        proof {
            let dirs = choose|dirs: Seq<int>|
                directions_for(dirs, row.len() as int) && self.echoes@ == old(self).echoes@
                    + #[trigger] fans_sent(row, dirs, ticks as int);
            assert(old(self).emits_to(*self, place_beacon, ticks as int, dirs));
        }
    }

    /// Last part of an update: every echo advances along its heading, the
    /// fans of this update among them; an echo still travelling near the
    /// friend reveals it; expired echoes are removed; the monster and the
    /// friend move.
    pub fn propagate(&mut self, headings: &Vec<Heading>, toward: Heading, ticks: i64)
        requires
            old(self).can_propagate(headings@, toward, ticks as int),
        ensures
            exists|mid: Seq<Echo>| #[trigger]
                old(self).propagates_to(*final(self), headings@, toward, ticks as int, mid),
            final(self).wf(),
    {
        let ghost start = *self;
        advance_echoes(&mut self.echoes, headings, &self.mask, &self.camera, ticks);
        if echo_reveals(&self.echoes, &self.friend.pos) {
            self.friend.show = true;
        }
        let ghost mid = self.echoes@;
        remove_expired(&mut self.echoes);
        self.monster.update(&self.player.pos, self.friend.found, ticks);
        self.friend.update(&self.player.pos, toward, ticks);
        assert(start.propagates_to(*self, headings@, toward, ticks as int, mid));
    }

    /// What [`Simulation::update`] may assume: everything stands far enough
    /// inside the world to move for one update.
    pub open spec fn can_update(&self, compass: &Compass, toward: Heading, ticks: int) -> bool {
        &&& self.wf()
        &&& compass.wf()
        &&& self.player.wf()
        &&& forall|i: int|
            0 <= i < self.echoes@.len() ==> (#[trigger] self.echoes@[i]).pos.in_world()
        &&& forall|i: int|
            0 <= i < self.beacons@.len() ==> (#[trigger] self.beacons@[i]).wf()
                && self.beacons@[i].pos.within(WORLD_LIMIT - HALF_SPRITE)
        &&& self.friend.pos.in_world()
        &&& -WORLD_LIMIT <= self.monster.pos.x
        &&& toward.wf()
        &&& 0 <= ticks <= TICK_LIMIT
    }

    /// `after` is this simulation one whole update later: the player has
    /// moved, then the beacons have sent their fans toward `dirs`, then
    /// every echo, those fans among them, has stepped to `mid` along the
    /// heading the compass gives for its direction, then the expired ones
    /// have been removed and the friend and the monster have moved.
    pub open spec fn updates_to(
        &self,
        after: Simulation,
        input: Input,
        compass: &Compass,
        toward: Heading,
        place_beacon: bool,
        ticks: int,
        dirs: Seq<int>,
        mid: Seq<Echo>,
    ) -> bool {
        let facing = compass.at(self.player.dir as int);
        let moved = self.player.next(input, self.scene, facing, ticks, &self.mask, &self.camera);
        let view = Camera2D {
            pos: Point { x: (moved.pos.x + HALF_SPRITE) as i64, y: (moved.pos.y + HALF_SPRITE) as i64 },
            ..self.camera
        };
        let row = if place_beacon && self.num_of_beacons > 0 {
            self.beacons@.push(
                Beacon { pos: moved.pos, visible: true, freq: PLACED_PERIOD, timer: 0 },
            )
        } else {
            self.beacons@
        };
        let all = self.echoes@ + self.player.sent(
            input,
            self.scene,
            facing,
            ticks,
            &self.mask,
            &self.camera,
        ) + fans_sent(row, dirs, ticks);
        let shown = Friend { show: self.friend.show || reveals(mid, self.friend.pos), ..self.friend };
        &&& directions_for(dirs, row.len() as int)
        &&& stepped(all, mid, compass.headings(all), &self.mask, &view, ticks)
        &&& after.echoes@ == live(mid)
        &&& after.player == moved
        &&& after.camera == view
        &&& after.scene == (if self.monster.activated {
            Scene::End
        } else {
            self.scene
        })
        &&& after.friend == shown.next(moved.pos, toward, ticks)
        &&& after.monster == self.monster.next(moved.pos, self.friend.found, ticks)
        &&& after.beacons@.len() == row.len()
        &&& forall|i: int|
            0 <= i < row.len() ==> (#[trigger] after.beacons@[i]) == row[i].ticked(ticks)
        &&& after.num_of_beacons == self.left(place_beacon)
        &&& after.mask == self.mask
    }

    /// One whole update, in the order player, beacons, echoes, removal,
    /// friend and monster, with every heading looked up in `compass`.
    pub fn update(
        &mut self,
        input: &Input,
        compass: &Compass,
        toward: Heading,
        place_beacon: bool,
        ticks: i64,
    )
        requires
            old(self).can_update(compass, toward, ticks as int),
        ensures
            exists|dirs: Seq<int>, mid: Seq<Echo>| #[trigger]
                old(self).updates_to(
                    *final(self),
                    *input,
                    compass,
                    toward,
                    place_beacon,
                    ticks as int,
                    dirs,
                    mid,
                ),
            final(self).wf(),
            forall|i: int|
                0 <= i < final(self).echoes@.len() ==> !(#[trigger] final(self).echoes@[i]).expired(),
    {
        let facing = compass.heading(self.player.dir);
        self.steer(input, facing, ticks);
        let ghost steered = *self;
        self.emit(place_beacon, ticks);
        let ghost emitted = *self;
        let ghost dirs = choose|dirs: Seq<int>|
            steered.emits_to(emitted, place_beacon, ticks as int, dirs);
        let ghost row = steered.placed(place_beacon);
        let headings = compass.headings_for(&self.echoes);
        proof {
            lemma_fans_in_world(row, dirs, ticks as int);
            assert forall|i: int| 0 <= i < emitted.echoes@.len() implies (#[trigger] emitted.echoes@[i]).can_update(
                &emitted.mask,
                &emitted.camera,
                headings@[i],
                ticks as int,
            ) by {
                assert(emitted.echoes@[i].pos.in_world());
                assert(headings@[i] == compass.at(emitted.echoes@[i].dir as int));
                lemma_mod_bound(emitted.echoes@[i].dir as int, 360_000);
            }
        }
        self.propagate(&headings, toward, ticks);
        proof {
            let mid = choose|mid: Seq<Echo>|
                emitted.propagates_to(*self, headings@, toward, ticks as int, mid);
            law_removal_keeps_the_living(mid);
            assert(old(self).updates_to(
                *self,
                *input,
                compass,
                toward,
                place_beacon,
                ticks as int,
                dirs,
                mid,
            ));
        }
    }
}

/// Every echo that a row of beacons sends starts inside the world when
/// the beacons stand half a sprite inside it.
pub proof fn lemma_fans_in_world(row: Seq<Beacon>, dirs: Seq<int>, ticks: int)
    requires
        forall|i: int| 0 <= i < row.len() ==> (#[trigger] row[i]).pos.within(WORLD_LIMIT - HALF_SPRITE),
    ensures
        forall|k: int|
            0 <= k < fans_sent(row, dirs, ticks).len() ==> (#[trigger] fans_sent(
                row,
                dirs,
                ticks,
            )[k]).pos.in_world(),
    decreases row.len(),
{
    if row.len() > 0 {
        lemma_fans_in_world(row.drop_last(), dirs.drop_last(), ticks);
        let before = fans_sent(row.drop_last(), dirs.drop_last(), ticks);
        let last = row.last();
        assert(last.pos.within(WORLD_LIMIT - HALF_SPRITE));
        assert forall|k: int| 0 <= k < fans_sent(row, dirs, ticks).len() implies (#[trigger] fans_sent(
            row,
            dirs,
            ticks,
        )[k]).pos.in_world() by {
            if k >= before.len() {
                assert(fans_sent(row, dirs, ticks)[k] == fan(
                    last.pos,
                    dirs.last(),
                    last.echo_color(),
                )[k - before.len()]);
            }
        }
    }
}

/// The order of one update: the beacons send their fans before the echoes
/// move. Whatever [`Simulation::emit`] appended is stepped by the
/// [`Simulation::propagate`] that follows, and what is left afterwards is
/// exactly the live part of the stepped echoes, so no expired echo remains.
pub proof fn law_fans_advance_in_their_update(
    start: Simulation,
    emitted: Simulation,
    done: Simulation,
    place_beacon: bool,
    headings: Seq<Heading>,
    toward: Heading,
    ticks: int,
    dirs: Seq<int>,
    mid: Seq<Echo>,
)
    requires
        start.emits_to(emitted, place_beacon, ticks, dirs),
        emitted.propagates_to(done, headings, toward, ticks, mid),
    ensures
        stepped(
            start.echoes@ + fans_sent(start.placed(place_beacon), dirs, ticks),
            mid,
            headings,
            &start.mask,
            &start.camera,
            ticks,
        ),
        done.echoes@ == live(mid),
        forall|i: int| 0 <= i < done.echoes@.len() ==> !(#[trigger] done.echoes@[i]).expired(),
        done.echoes@.len() <= start.echoes@.len() + fans_sent(
            start.placed(place_beacon),
            dirs,
            ticks,
        ).len(),
{
    law_removal_keeps_the_living(mid);
}

} // verus!
