use vstd::prelude::*;
use crate::camera::Camera2D;
use crate::mask::{get_bg_color, CollisionMask, Rgba, Surface};
use crate::rng::random_in;
use crate::units::{travel, travel_axis_exec, Heading, Point, TICK_LIMIT};

verus! {

/// Lifetime of a fresh echo, in millionths.
pub const LIFETIME_FULL: i64 = 1_000_000;

/// Millionths of lifetime a settled echo loses per thousandth of a tick.
pub const FADE_RATE: i64 = 4;

/// Units an echo travels per tick.
pub const ECHO_SPEED: i64 = 6;

/// Fewest extra steps by which an echo embeds itself past a surface.
pub const EMBED_MIN: i32 = 1;

/// One more than the most extra steps by which an echo embeds itself.
pub const EMBED_END: i32 = 80;

/// One sonar particle.
///
/// `hit` is false while the echo travels and true once it has settled on a
/// surface; `no_find` marks an echo swallowed by the undetectable zone.
#[derive(Clone, Copy, PartialEq, Eq, Structural, Debug)]
pub struct Echo {
    pub pos: Point,
    pub dir: i64,
    pub hit: bool,
    pub hit_color: Rgba,
    pub no_find: bool,
    pub lifetime: i64,
}

/// How far from the origin a point in the world can be after moving for one
/// update at `speed`.
pub open spec fn reach(speed: int) -> int {
    crate::units::WORLD_LIMIT + speed * TICK_LIMIT
}

/// The alpha channel that shows a lifetime: 255 at full life, 0 at none.
pub open spec fn alpha_of(lifetime: int) -> u8 {
    if lifetime <= 0 {
        0u8
    } else if lifetime >= LIFETIME_FULL {
        255u8
    } else {
        (lifetime * 255 / (LIFETIME_FULL as int)) as u8
    }
}

impl Echo {
    /// The lifetime is one that fading from full life can reach.
    pub open spec fn wf(&self) -> bool {
        -FADE_RATE * TICK_LIMIT <= self.lifetime <= LIFETIME_FULL
    }

    /// The echo is due for removal and is no longer updated.
    pub open spec fn expired(&self) -> bool {
        self.lifetime <= 0
    }

    /// The echo is alive, has not settled and has not been swallowed.
    pub open spec fn travelling(&self) -> bool {
        !self.expired() && !self.hit && !self.no_find
    }

    /// Where one update carries a travelling echo before it samples the mask.
    pub open spec fn ahead(&self, heading: Heading, ticks: int) -> (int, int) {
        self.pos.plus(travel(heading, ECHO_SPEED as int, ticks))
    }

    /// The colour under [`Echo::ahead`].
    pub open spec fn sample_ahead(
        &self,
        mask: &CollisionMask,
        camera: &Camera2D,
        heading: Heading,
        ticks: int,
    ) -> Rgba {
        let px = camera.mask_pixel(self.ahead(heading, ticks), 0);
        mask.pixel(px.0, px.1)
    }

    /// A settled echo after `ticks` of fading.
    pub open spec fn faded(&self, ticks: int) -> Echo {
        let left = self.lifetime - FADE_RATE * ticks;
        Echo { lifetime: left as i64, hit_color: self.hit_color.with_alpha(alpha_of(left)), ..*self }
    }

    /// A travelling echo after it has moved and sampled `sample`; `embed` is
    /// the number of extra steps taken into a solid surface.
    pub open spec fn landed(&self, sample: Rgba, heading: Heading, ticks: int, embed: int) -> Echo {
        let at = self.ahead(heading, ticks);
        match sample.surface() {
            Surface::Empty => Echo { pos: Point { x: at.0 as i64, y: at.1 as i64 }, ..*self },
            Surface::Undetectable => Echo {
                pos: Point { x: at.0 as i64, y: at.1 as i64 },
                no_find: true,
                hit_color: Rgba::spec_transparent(),
                ..*self
            },
            Surface::Solid => {
                let deep = travel(heading, embed, ticks);
                Echo {
                    pos: Point { x: (at.0 + deep.0) as i64, y: (at.1 + deep.1) as i64 },
                    hit: true,
                    hit_color: sample,
                    ..*self
                }
            },
        }
    }

    /// The echo one update later. An expired or swallowed echo stays as it
    /// is, a settled one fades, a travelling one moves and samples the mask.
    pub open spec fn step(
        &self,
        mask: &CollisionMask,
        camera: &Camera2D,
        heading: Heading,
        ticks: int,
        embed: int,
    ) -> Echo {
        if self.expired() {
            *self
        } else if self.hit {
            self.faded(ticks)
        } else if self.no_find {
            *self
        } else {
            self.landed(self.sample_ahead(mask, camera, heading, ticks), heading, ticks, embed)
        }
    }

    /// `after` is this echo one update later, for some admissible embedding
    /// depth.
    pub open spec fn steps_to(
        &self,
        after: Echo,
        mask: &CollisionMask,
        camera: &Camera2D,
        heading: Heading,
        ticks: int,
    ) -> bool {
        exists|embed: int|
            EMBED_MIN <= embed < EMBED_END && after == #[trigger] self.step(
                mask,
                camera,
                heading,
                ticks,
                embed,
            )
    }

    /// The update leaves the echo as it is: it is expired, or swallowed
    /// without having settled.
    pub open spec fn inert(&self) -> bool {
        self.expired() || (self.no_find && !self.hit)
    }

    /// What an update may assume of its arguments. Nothing is asked for an
    /// inert echo; a settled one needs a bounded elapsed time; a travelling
    /// one needs besides a position inside the world and a valid mask,
    /// camera and heading.
    pub open spec fn can_update(
        &self,
        mask: &CollisionMask,
        camera: &Camera2D,
        heading: Heading,
        ticks: int,
    ) -> bool {
        if self.inert() {
            true
        } else if self.hit {
            0 <= ticks <= TICK_LIMIT
        } else {
            &&& self.pos.in_world()
            &&& mask.wf()
            &&& camera.wf()
            &&& heading.wf()
            &&& 0 <= ticks <= TICK_LIMIT
        }
    }

    /// Whether the echo itself is fit for an update: its lifetime is well
    /// formed and it stands inside the world.
    pub fn is_ready(&self) -> (r: bool)
        ensures
            r == (self.wf() && self.pos.in_world()),
    {
        -FADE_RATE * TICK_LIMIT <= self.lifetime && self.lifetime <= LIFETIME_FULL
            && self.pos.fits_world()
    }

    /// A fresh echo at `(x, y)`: travelling, at full life, in `color`.
    pub fn new(x: i64, y: i64, dir: i64, color: Rgba) -> (e: Echo)
        ensures
            e == (Echo {
                pos: Point { x, y },
                dir,
                hit: false,
                hit_color: color,
                no_find: false,
                lifetime: LIFETIME_FULL,
            }),
            e.wf(),
            e.travelling(),
    {
        Echo {
            pos: Point { x, y },
            dir,
            hit: false,
            hit_color: color,
            no_find: false,
            lifetime: LIFETIME_FULL,
        }
    }

    /// Advances the echo by one update, drawing the embedding depth at
    /// random when it strikes a solid surface.
    pub fn update(&mut self, mask: &CollisionMask, camera: &Camera2D, heading: Heading, ticks: i64)
        requires
            old(self).can_update(mask, camera, heading, ticks as int),
        ensures
            old(self).steps_to(*final(self), mask, camera, heading, ticks as int),
            old(self).inert() ==> *final(self) == *old(self),
            old(self).wf() ==> final(self).wf(),
            old(self).pos.in_world() ==> final(self).pos.within(reach(ECHO_SPEED + EMBED_END)),
    {
        if self.lifetime <= 0 {
            assert(*self == self.step(mask, camera, heading, ticks as int, 1));
        } else if self.hit {
            self.fade(ticks);
            assert(*self == old(self).step(mask, camera, heading, ticks as int, 1));
        } else if self.no_find {
            assert(*self == self.step(mask, camera, heading, ticks as int, 1));
        } else {
            let at = self.look_ahead(heading, ticks);
            let px = camera.to_mask(at, 0);
            let sample = get_bg_color(mask, px.x, px.y);
            let embed: i64 = match sample.classify() {
                Surface::Solid => random_in(EMBED_MIN, EMBED_END) as i64,
                _ => 1,
            };
            self.land(at, sample, heading, ticks, embed);
            assert(*self == old(self).step(mask, camera, heading, ticks as int, embed as int));
        }
    }

    /// Advances the echo by one update, embedding it `embed` steps deep if
    /// it strikes a solid surface.
    pub fn advance(
        &mut self,
        mask: &CollisionMask,
        camera: &Camera2D,
        heading: Heading,
        ticks: i64,
        embed: i64,
    )
        requires
            old(self).can_update(mask, camera, heading, ticks as int),
            EMBED_MIN <= embed < EMBED_END,
        ensures
            *final(self) == old(self).step(mask, camera, heading, ticks as int, embed as int),
            old(self).wf() ==> final(self).wf(),
            old(self).pos.in_world() ==> final(self).pos.within(reach(ECHO_SPEED + EMBED_END)),
    {
        if self.lifetime <= 0 {
        } else if self.hit {
            self.fade(ticks);
        } else if self.no_find {
        } else {
            let at = self.look_ahead(heading, ticks);
            let px = camera.to_mask(at, 0);
            let sample = get_bg_color(mask, px.x, px.y);
            self.land(at, sample, heading, ticks, embed);
        }
    }

    fn look_ahead(&self, heading: Heading, ticks: i64) -> (at: Point)
        requires
            self.pos.in_world(),
            heading.wf(),
            0 <= ticks <= TICK_LIMIT,
        ensures
            (at.x as int, at.y as int) == self.ahead(heading, ticks as int),
            at.within(reach(ECHO_SPEED as int)),
    {
        let dx: i64 = travel_axis_exec(heading.cos, ECHO_SPEED, ticks);
        let dy: i64 = travel_axis_exec(heading.sin, ECHO_SPEED, ticks);
        assert(ECHO_SPEED * ticks <= 6_000_000);
        Point { x: self.pos.x + dx, y: self.pos.y + dy }
    }

    fn fade(&mut self, ticks: i64)
        requires
            !old(self).expired(),
            0 <= ticks <= TICK_LIMIT,
        ensures
            *final(self) == old(self).faded(ticks as int),
            old(self).wf() ==> final(self).wf(),
    {
        let left: i64 = self.lifetime - FADE_RATE * ticks;
        self.lifetime = left;
        self.hit_color.a = alpha_exec(left);
    }

    fn land(&mut self, at: Point, sample: Rgba, heading: Heading, ticks: i64, embed: i64)
        requires
            (at.x as int, at.y as int) == old(self).ahead(heading, ticks as int),
            at.within(reach(ECHO_SPEED as int)),
            heading.wf(),
            0 <= ticks <= TICK_LIMIT,
            EMBED_MIN <= embed < EMBED_END,
        ensures
            *final(self) == old(self).landed(sample, heading, ticks as int, embed as int),
            final(self).lifetime == old(self).lifetime,
            final(self).pos.within(reach(ECHO_SPEED + EMBED_END)),
    {
        match sample.classify() {
            Surface::Empty => {
                self.pos = at;
            },
            Surface::Undetectable => {
                self.pos = at;
                self.no_find = true;
                self.hit_color = Rgba::transparent();
            },
            Surface::Solid => {
                let dx: i64 = travel_axis_exec(heading.cos, embed, ticks);
                let dy: i64 = travel_axis_exec(heading.sin, embed, ticks);
                assert(embed * ticks <= 80_000_000) by (nonlinear_arith)
                    requires
                        0 <= embed <= 80,
                        0 <= ticks <= 1_000_000,
                ;
                self.pos = Point { x: at.x + dx, y: at.y + dy };
                self.hit = true;
                self.hit_color = sample;
            },
        }
    }
}

/// Executable form of [`alpha_of`].
pub fn alpha_exec(lifetime: i64) -> (a: u8)
    ensures
        a == alpha_of(lifetime as int),
{
    if lifetime <= 0 {
        0
    } else if lifetime >= LIFETIME_FULL {
        255
    } else {
        let scaled: i64 = lifetime * 255 / LIFETIME_FULL;
        scaled as u8
    }
}

/// A settled echo only fades: one update keeps it settled and leaves its
/// lifetime no greater than before. An expired echo is not touched at all.
pub proof fn law_settled_lifetime_never_grows(
    e: Echo,
    mask: &CollisionMask,
    camera: &Camera2D,
    heading: Heading,
    ticks: int,
    embed: int,
)
    requires
        0 <= ticks <= TICK_LIMIT,
    ensures
        e.hit ==> e.step(mask, camera, heading, ticks, embed).hit,
        e.hit ==> e.step(mask, camera, heading, ticks, embed).lifetime <= e.lifetime,
        e.hit && !e.expired() ==> e.step(mask, camera, heading, ticks, embed).lifetime
            == e.lifetime - FADE_RATE * ticks,
        e.hit ==> e.step(mask, camera, heading, ticks, embed).pos == e.pos && e.step(
            mask,
            camera,
            heading,
            ticks,
            embed,
        ).dir == e.dir,
        e.expired() ==> e.step(mask, camera, heading, ticks, embed) == e,
{
}

/// An echo that samples the undetectable colour is marked in that same
/// update: it stops where it sampled, turns transparent and does not settle.
/// No later update, whatever its arguments, changes it again.
pub proof fn law_undetectable_is_final(
    e: Echo,
    mask: &CollisionMask,
    camera: &Camera2D,
    heading: Heading,
    ticks: int,
    embed: int,
    later_mask: &CollisionMask,
    later_camera: &Camera2D,
    later_heading: Heading,
    later_ticks: int,
    later_embed: int,
)
    requires
        e.travelling(),
        e.sample_ahead(mask, camera, heading, ticks).surface() == Surface::Undetectable,
    ensures
        ({
            let s = e.step(mask, camera, heading, ticks, embed);
            &&& s.no_find
            &&& !s.hit
            &&& s.hit_color == Rgba::spec_transparent()
            &&& s.lifetime == e.lifetime
            &&& s.pos.x == e.ahead(heading, ticks).0 as i64
            &&& s.pos.y == e.ahead(heading, ticks).1 as i64
            &&& s.step(later_mask, later_camera, later_heading, later_ticks, later_embed) == s
        }),
{
}

/// Any echo already marked undetectable and not settled is left unchanged
/// by an update.
pub proof fn law_swallowed_echo_is_inert(
    e: Echo,
    mask: &CollisionMask,
    camera: &Camera2D,
    heading: Heading,
    ticks: int,
    embed: int,
)
    requires
        e.no_find,
        !e.hit,
    ensures
        e.step(mask, camera, heading, ticks, embed) == e,
{
}

} // verus!
