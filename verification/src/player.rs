use vstd::prelude::*;
use crate::camera::Camera2D;
use crate::echo::Echo;
use crate::field::{fan, send_echo};
use crate::mask::{get_bg_color, CollisionMask, Rgba};
use crate::units::{
    div_toward_zero, lemma_toward_zero_bounds, toward_zero, Heading, Point, ANGLE_LIMIT, HALF_SPRITE, TICK_LIMIT, UNIT,
    WORLD_LIMIT,
};

verus! {

/// The speed cap, in millionths of a unit per tick.
pub const MAX_SPEED: i64 = 3_000_000;

/// Largest velocity component a player can hold between updates.
pub const VELOCITY_LIMIT: i64 = 30_000_000;

/// Divisor that turns heading times elapsed time into thrust: the elapsed
/// time in seconds is a sixtieth of the ticks.
pub const THRUST_DIVISOR: i64 = 60;

/// Divisor of the drag: a hundredth of the velocity is lost per tick.
pub const DRAG_DIVISOR: i64 = 100_000;

/// Largest coordinate magnitude at which a player can still be updated.
pub const PLAYER_LIMIT: i64 = WORLD_LIMIT - 2 * HALF_SPRITE;

/// Which screen the game shows. Input moves the player only in `Game`.
#[derive(Clone, Copy, PartialEq, Eq, Structural, Debug)]
pub enum Scene {
    Start,
    Game,
    End,
}

/// The keys that matter to the player for one update. `trigger` is set
/// only on the update in which the key went down.
#[derive(Clone, Copy, PartialEq, Eq, Structural, Debug)]
pub struct Input {
    pub thrust: bool,
    pub turn_left: bool,
    pub turn_right: bool,
    pub trigger: bool,
}

/// The player's vessel. `pos` is in thousandths of a unit, `vel` in
/// millionths of a unit per tick, `dir` in thousandths of a degree.
#[derive(Clone, Copy, PartialEq, Eq, Structural, Debug)]
pub struct Player {
    pub pos: Point,
    pub vel: Point,
    pub dir: i64,
}

/// `r` is the least non-negative integer whose square reaches `n`.
pub open spec fn is_ceil_root(n: int, r: int) -> bool {
    r >= 0 && n <= r * r && (r == 0 || (r - 1) * (r - 1) < n)
}

/// The square root of `n`, rounded up.
pub open spec fn ceil_root(n: int) -> int {
    choose|r: int| is_ceil_root(n, r)
}

/// A velocity no faster than `cap`: unchanged if it is within the cap,
/// otherwise scaled by `cap` over its length, each component toward zero.
pub open spec fn clamp_speed(v: (int, int), cap: int) -> (int, int) {
    let square = v.0 * v.0 + v.1 * v.1;
    if square <= cap * cap {
        v
    } else {
        let length = ceil_root(square);
        (toward_zero(v.0 * cap, length), toward_zero(v.1 * cap, length))
    }
}

/// A velocity component after `ticks` of drag.
pub open spec fn dragged(v: int, ticks: int) -> int {
    v - toward_zero(v * ticks, DRAG_DIVISOR as int)
}

impl Player {
    /// Position, velocity and direction are within what one update can move
    /// without overflow.
    pub open spec fn wf(&self) -> bool {
        &&& self.pos.within(PLAYER_LIMIT as int)
        &&& self.vel.within(VELOCITY_LIMIT as int)
        &&& -(ANGLE_LIMIT - TICK_LIMIT) <= self.dir <= ANGLE_LIMIT - TICK_LIMIT
    }

    /// Executable form of [`Player::wf`].
    pub fn is_wf(&self) -> (r: bool)
        ensures
            r == self.wf(),
    {
        let turn: i64 = ANGLE_LIMIT - TICK_LIMIT;
        -PLAYER_LIMIT <= self.pos.x && self.pos.x <= PLAYER_LIMIT && -PLAYER_LIMIT <= self.pos.y
            && self.pos.y <= PLAYER_LIMIT && -VELOCITY_LIMIT <= self.vel.x && self.vel.x
            <= VELOCITY_LIMIT && -VELOCITY_LIMIT <= self.vel.y && self.vel.y <= VELOCITY_LIMIT
            && -turn <= self.dir && self.dir <= turn
    }

    /// Velocity after thrust, before the cap.
    pub open spec fn pushed(&self, input: Input, scene: Scene, heading: Heading, ticks: int) -> (
        int,
        int,
    ) {
        if input.thrust && scene == Scene::Game {
            (
                self.vel.x + toward_zero(heading.cos * ticks, THRUST_DIVISOR as int),
                self.vel.y + toward_zero(heading.sin * ticks, THRUST_DIVISOR as int),
            )
        } else {
            (self.vel.x as int, self.vel.y as int)
        }
    }

    /// The velocity with which the player moves in this update.
    pub open spec fn capped(&self, input: Input, scene: Scene, heading: Heading, ticks: int) -> (
        int,
        int,
    ) {
        clamp_speed(self.pushed(input, scene, heading, ticks), MAX_SPEED as int)
    }

    /// Where the player is after this update.
    pub open spec fn moved(&self, input: Input, scene: Scene, heading: Heading, ticks: int) -> (
        int,
        int,
    ) {
        let v = self.capped(input, scene, heading, ticks);
        (self.pos.x + toward_zero(v.0, UNIT as int), self.pos.y + toward_zero(v.1, UNIT as int))
    }

    /// The velocity after drag, before the bounce test.
    pub open spec fn slowed(&self, input: Input, scene: Scene, heading: Heading, ticks: int) -> (
        int,
        int,
    ) {
        let v = self.capped(input, scene, heading, ticks);
        (dragged(v.0, ticks), dragged(v.1, ticks))
    }

    /// The facing direction after this update.
    pub open spec fn turned(&self, input: Input, scene: Scene, ticks: int) -> int {
        let right: int = if input.turn_right && scene == Scene::Game { ticks } else { 0 };
        let left: int = if input.turn_left && scene == Scene::Game { ticks } else { 0 };
        self.dir + right - left
    }

    /// Whether the mask is anything but black under the centre of the
    /// player's sprite at its new position.
    pub open spec fn collides(
        &self,
        input: Input,
        scene: Scene,
        heading: Heading,
        ticks: int,
        mask: &CollisionMask,
        camera: &Camera2D,
    ) -> bool {
        let px = camera.mask_pixel(self.moved(input, scene, heading, ticks), HALF_SPRITE as int);
        !mask.pixel(px.0, px.1).is_black()
    }

    /// The player one update later.
    pub open spec fn next(
        &self,
        input: Input,
        scene: Scene,
        heading: Heading,
        ticks: int,
        mask: &CollisionMask,
        camera: &Camera2D,
    ) -> Player {
        let at = self.moved(input, scene, heading, ticks);
        let v = self.slowed(input, scene, heading, ticks);
        Player {
            pos: Point { x: at.0 as i64, y: at.1 as i64 },
            vel: if self.collides(input, scene, heading, ticks, mask, camera) {
                Point { x: (-v.0) as i64, y: (-v.1) as i64 }
            } else {
                Point { x: v.0 as i64, y: v.1 as i64 }
            },
            dir: self.turned(input, scene, ticks) as i64,
        }
    }

    /// The echoes sent in this update: one purple fan from the new position
    /// toward the new direction if the trigger was pressed during play.
    pub open spec fn sent(
        &self,
        input: Input,
        scene: Scene,
        heading: Heading,
        ticks: int,
        mask: &CollisionMask,
        camera: &Camera2D,
    ) -> Seq<Echo> {
        if input.trigger && scene == Scene::Game {
            let after = self.next(input, scene, heading, ticks, mask, camera);
            fan(after.pos, after.dir as int, Rgba::spec_purple())
        } else {
            Seq::empty()
        }
    }

    /// The player at rest at the starting position, facing zero degrees.
    pub fn new() -> (p: Player)
        ensures
            p == (Player {
                pos: Point { x: 201_000, y: 167_000 },
                vel: Point { x: 0, y: 0 },
                dir: 0,
            }),
            p.wf(),
    {
        Player { pos: Point { x: 201_000, y: 167_000 }, vel: Point { x: 0, y: 0 }, dir: 0 }
    }

    /// One update: thrust, cap, move, drag, turn, send a fan if asked, and
    /// reverse the velocity if the new position lies on anything but black.
    pub fn update(
        &mut self,
        input: &Input,
        heading: Heading,
        mask: &CollisionMask,
        echoes: &mut Vec<Echo>,
        camera: &Camera2D,
        scene: &Scene,
        ticks: i64,
    )
        requires
            old(self).wf(),
            heading.wf(),
            mask.wf(),
            camera.wf(),
            0 <= ticks <= TICK_LIMIT,
        ensures
            *final(self) == old(self).next(*input, *scene, heading, ticks as int, mask, camera),
            final(echoes)@ == old(echoes)@ + old(self).sent(
                *input,
                *scene,
                heading,
                ticks as int,
                mask,
                camera,
            ),
            final(self).vel.within(VELOCITY_LIMIT as int),
            final(self).pos.within(PLAYER_LIMIT + MAX_SPEED / UNIT),
    {
        let playing: bool = *scene == Scene::Game;
        let mut vx: i64 = self.vel.x;
        let mut vy: i64 = self.vel.y;
        if input.thrust && playing {
            assert(-1_000_000_000 <= heading.cos * ticks <= 1_000_000_000
                && -1_000_000_000 <= heading.sin * ticks <= 1_000_000_000) by (nonlinear_arith)
                requires
                    -1000 <= heading.cos <= 1000,
                    -1000 <= heading.sin <= 1000,
                    0 <= ticks <= 1_000_000,
            ;
            proof {
                lemma_toward_zero_bounds(heading.cos * ticks, THRUST_DIVISOR as int);
                lemma_toward_zero_bounds(heading.sin * ticks, THRUST_DIVISOR as int);
            }
            vx = vx + div_toward_zero(heading.cos * ticks, THRUST_DIVISOR);
            vy = vy + div_toward_zero(heading.sin * ticks, THRUST_DIVISOR);
        }
        let v = clamp_velocity(vx, vy);
        proof {
            lemma_toward_zero_bounds(v.x as int, UNIT as int);
            lemma_toward_zero_bounds(v.y as int, UNIT as int);
        }
        let x: i64 = self.pos.x + div_toward_zero(v.x, UNIT);
        let y: i64 = self.pos.y + div_toward_zero(v.y, UNIT);
        let sx: i64 = apply_drag(v.x, ticks);
        let sy: i64 = apply_drag(v.y, ticks);
        let mut dir: i64 = self.dir;
        if input.turn_right && playing {
            dir = dir + ticks;
        }
        if input.turn_left && playing {
            dir = dir - ticks;
        }
        self.pos = Point { x, y };
        self.dir = dir;
        if input.trigger && playing {
            send_echo(echoes, &self.pos, dir, Rgba::purple());
        } else {
            assert(echoes@ + Seq::<Echo>::empty() == echoes@);
        }
        let px = camera.to_mask(self.pos, HALF_SPRITE);
        let under = get_bg_color(mask, px.x, px.y);
        if under.r == 0 && under.g == 0 && under.b == 0 {
            self.vel = Point { x: sx, y: sy };
        } else {
            self.vel = Point { x: -sx, y: -sy };
        }
    }
}

/// The square root of `n`, rounded up.
pub fn ceil_root_exec(n: i64) -> (r: i64)
    requires
        0 <= n <= 0x1000_0000_0000_0000,
    ensures
        r == ceil_root(n as int),
        is_ceil_root(n as int, r as int),
        r <= 0x4000_0000,
{
    if n == 0 {
        proof {
            lemma_ceil_root_unique(0, 0);
        }
        return 0;
    }
    let mut lo: i64 = 0;
    let mut hi: i64 = 0x4000_0000;
    assert(0x4000_0000 * 0x4000_0000 == 0x1000_0000_0000_0000) by (nonlinear_arith);
    while hi - lo > 1
        invariant
            0 <= lo < hi <= 0x4000_0000,
            lo * lo < n,
            n <= hi * hi,
            0 < n,
        decreases hi - lo,
    {
        let mid: i64 = lo + (hi - lo) / 2;
        assert(0 <= mid * mid <= 0x4000_0000 * 0x4000_0000) by (nonlinear_arith)
            requires
                0 <= mid <= 0x4000_0000,
        ;
        if mid * mid >= n {
            hi = mid;
        } else {
            lo = mid;
        }
    }
    proof {
        assert(hi - 1 == lo);
        lemma_ceil_root_unique(n as int, hi as int);
    }
    hi
}

/// At most one integer is the rounded-up root of `n`.
pub proof fn lemma_ceil_root_unique(n: int, r: int)
    requires
        is_ceil_root(n, r),
    ensures
        ceil_root(n) == r,
{
    let c = ceil_root(n);
    assert(is_ceil_root(n, c));
    if c < r {
        assert(c * c <= (r - 1) * (r - 1)) by (nonlinear_arith)
            requires
                0 <= c <= r - 1,
        ;
    } else if r < c {
        assert(r * r <= (c - 1) * (c - 1)) by (nonlinear_arith)
            requires
                0 <= r <= c - 1,
        ;
    }
}

fn clamp_velocity(vx: i64, vy: i64) -> (v: Point)
    requires
        -0x2000_0000 < vx < 0x2000_0000,
        -0x2000_0000 < vy < 0x2000_0000,
    ensures
        (v.x as int, v.y as int) == clamp_speed((vx as int, vy as int), MAX_SPEED as int),
        v.within(MAX_SPEED as int),
{
    assert(0 <= vx * vx <= 0x2000_0000 * 0x2000_0000 && 0 <= vy * vy <= 0x2000_0000
        * 0x2000_0000) by (nonlinear_arith)
        requires
            -0x2000_0000 < vx < 0x2000_0000,
            -0x2000_0000 < vy < 0x2000_0000,
    ;
    let ax: i64 = if vx < 0 { -vx } else { vx };
    let ay: i64 = if vy < 0 { -vy } else { vy };
    assert(ax * ax == vx * vx && ay * ay == vy * vy) by (nonlinear_arith)
        requires
            ax == vx || ax == -vx,
            ay == vy || ay == -vy,
    ;
    if ax <= MAX_SPEED && ay <= MAX_SPEED {
        assert(ax * ax <= 3_000_000 * 3_000_000 && ay * ay <= 3_000_000 * 3_000_000)
            by (nonlinear_arith)
            requires
                0 <= ax <= 3_000_000,
                0 <= ay <= 3_000_000,
        ;
        if vx * vx + vy * vy <= MAX_SPEED * MAX_SPEED {
            return Point { x: vx, y: vy };
        }
    } else {
        assert(vx * vx + vy * vy > 3_000_000 * 3_000_000) by (nonlinear_arith)
            requires
                ax > 3_000_000 || ay > 3_000_000,
                ax >= 0,
                ay >= 0,
                ax * ax == vx * vx,
                ay * ay == vy * vy,
        ;
    }
    let square: i64 = vx * vx + vy * vy;
    let length: i64 = ceil_root_exec(square);
    assert(length >= ax && length >= ay && length > 0) by (nonlinear_arith)
        requires
            length >= 0,
            square <= length * length,
            square == vx * vx + vy * vy,
            ax * ax == vx * vx,
            ay * ay == vy * vy,
            ax >= 0,
            ay >= 0,
            square > 0,
    ;
    Point { x: shrink(vx, length), y: shrink(vy, length) }
}

fn shrink(component: i64, length: i64) -> (c: i64)
    requires
        -0x2000_0000 < component < 0x2000_0000,
        length > 0,
        -length <= component <= length,
    ensures
        c == toward_zero(component * MAX_SPEED, length as int),
        -MAX_SPEED <= c <= MAX_SPEED,
{
    assert(-0x2000_0000 * 3_000_000 <= component * MAX_SPEED <= 0x2000_0000 * 3_000_000
        && -length * 3_000_000 <= component * MAX_SPEED <= length * 3_000_000) by (nonlinear_arith)
        requires
            -0x2000_0000 < component < 0x2000_0000,
            -length <= component <= length,
    ;
    let scaled: i64 = component * MAX_SPEED;
    let c: i64 = div_toward_zero(scaled, length);
    proof {
        lemma_toward_zero_bounds(scaled as int, length as int);
        assert(-3_000_000 <= c <= 3_000_000) by (nonlinear_arith)
            requires
                -length * 3_000_000 <= scaled <= length * 3_000_000,
                length > 0,
                scaled >= 0 ==> 0 <= c * length <= scaled,
                scaled <= 0 ==> scaled <= c * length <= 0,
        ;
    }
    c
}

/// Drag never reverses a velocity within the cap by more than ten times
/// its size.
pub proof fn lemma_dragged_bound(v: int, ticks: int)
    requires
        -MAX_SPEED <= v <= MAX_SPEED,
        0 <= ticks <= TICK_LIMIT,
    ensures
        -VELOCITY_LIMIT <= dragged(v, ticks) <= VELOCITY_LIMIT,
        -VELOCITY_LIMIT <= toward_zero(v * ticks, DRAG_DIVISOR as int) <= VELOCITY_LIMIT,
{
    assert(-3_000_000 * 1_000_000 <= v * ticks <= 3_000_000 * 1_000_000 && (v >= 0 ==> v * ticks
        >= 0) && (v <= 0 ==> v * ticks <= 0)) by (nonlinear_arith)
        requires
            -3_000_000 <= v <= 3_000_000,
            0 <= ticks <= 1_000_000,
    ;
    lemma_toward_zero_bounds(v * ticks, DRAG_DIVISOR as int);
}

fn apply_drag(v: i64, ticks: i64) -> (d: i64)
    requires
        -MAX_SPEED <= v <= MAX_SPEED,
        0 <= ticks <= TICK_LIMIT,
    ensures
        d == dragged(v as int, ticks as int),
        -VELOCITY_LIMIT <= d <= VELOCITY_LIMIT,
{
    proof {
        lemma_dragged_bound(v as int, ticks as int);
    }
    assert(-3_000_000 * 1_000_000 <= v * ticks <= 3_000_000 * 1_000_000) by (nonlinear_arith)
        requires
            -3_000_000 <= v <= 3_000_000,
            0 <= ticks <= 1_000_000,
    ;
    let product: i64 = v * ticks;
    let loss: i64 = div_toward_zero(product, DRAG_DIVISOR);
    v - loss
}

/// The velocity a player moves with is never faster than the speed cap, in
/// length and so in each component.
pub proof fn law_speed_is_capped(p: Player, input: Input, scene: Scene, heading: Heading, ticks: int)
    ensures
        ({
            let v = p.capped(input, scene, heading, ticks);
            &&& v.0 * v.0 + v.1 * v.1 <= MAX_SPEED * MAX_SPEED
            &&& -MAX_SPEED <= v.0 <= MAX_SPEED
            &&& -MAX_SPEED <= v.1 <= MAX_SPEED
        }),
{
    let u = p.pushed(input, scene, heading, ticks);
    let cap = MAX_SPEED as int;
    let square = u.0 * u.0 + u.1 * u.1;
    if square > cap * cap {
        let length = ceil_root(square);
        assert(square > 0) by (nonlinear_arith)
            requires
                square > cap * cap,
        ;
        lemma_ceil_root_exists(square);
        assert(length > 0) by (nonlinear_arith)
            requires
                square > 0,
                square <= length * length,
                length >= 0,
        ;
        lemma_scaled_within(u.0, u.1, cap, length);
    }
    let v = p.capped(input, scene, heading, ticks);
    assert(-cap <= v.0 <= cap && -cap <= v.1 <= cap) by (nonlinear_arith)
        requires
            v.0 * v.0 + v.1 * v.1 <= cap * cap,
            cap > 0,
    ;
}

/// Every non-negative integer has a rounded-up root.
pub proof fn lemma_ceil_root_exists(n: int)
    requires
        n >= 0,
    ensures
        is_ceil_root(n, ceil_root(n)),
    decreases n,
{
    if n == 0 {
        assert(is_ceil_root(0, 0));
    } else {
        lemma_ceil_root_exists(n - 1);
        let r = ceil_root(n - 1);
        if n <= r * r {
            assert(r != 0) by (nonlinear_arith)
                requires
                    0 < n <= r * r,
            ;
            assert(is_ceil_root(n, r));
        } else {
            let t = r + 1;
            assert(t * t >= r * r + 1 && (t - 1) * (t - 1) == r * r) by (nonlinear_arith)
                requires
                    r >= 0,
                    t == r + 1,
            ;
            assert(is_ceil_root(n, t));
        }
    }
}

proof fn lemma_scaled_within(x: int, y: int, cap: int, length: int)
    requires
        cap > 0,
        length > 0,
        x * x + y * y <= length * length,
    ensures
        toward_zero(x * cap, length) * toward_zero(x * cap, length) + toward_zero(y * cap, length)
            * toward_zero(y * cap, length) <= cap * cap,
{
    let a = toward_zero(x * cap, length);
    let b = toward_zero(y * cap, length);
    let ll = length * length;
    let cc = cap * cap;
    lemma_toward_zero_square(x * cap, length);
    lemma_toward_zero_square(y * cap, length);
    assert(ll > 0) by (nonlinear_arith)
        requires
            ll == length * length,
            length > 0,
    ;
    assert((a * length) * (a * length) == (a * a) * ll) by (nonlinear_arith)
        requires
            ll == length * length,
    ;
    assert((b * length) * (b * length) == (b * b) * ll) by (nonlinear_arith)
        requires
            ll == length * length,
    ;
    assert((x * cap) * (x * cap) == cc * (x * x)) by (nonlinear_arith)
        requires
            cc == cap * cap,
    ;
    assert((y * cap) * (y * cap) == cc * (y * y)) by (nonlinear_arith)
        requires
            cc == cap * cap,
    ;
    assert(cc * (x * x) + cc * (y * y) <= cc * ll) by (nonlinear_arith)
        requires
            x * x + y * y <= ll,
            cc == cap * cap,
    ;
    assert((a * a) * ll + (b * b) * ll == (a * a + b * b) * ll) by (nonlinear_arith);
    assert(a * a + b * b <= cc) by (nonlinear_arith)
        requires
            (a * a + b * b) * ll <= cc * ll,
            ll > 0,
    ;
}

proof fn lemma_toward_zero_square(n: int, d: int)
    requires
        d > 0,
    ensures
        (toward_zero(n, d) * d) * (toward_zero(n, d) * d) <= n * n,
{
    lemma_toward_zero_bounds(n, d);
    let m = toward_zero(n, d) * d;
    assert(m * m <= n * n) by (nonlinear_arith)
        requires
            (n >= 0 ==> 0 <= m <= n),
            (n <= 0 ==> n <= m <= 0),
    ;
}

/// A player whose new position lies on anything but black leaves the update
/// with exactly the reverse of the velocity that movement and drag produced;
/// the test is made at the position after the move. When no time has
/// elapsed the drag takes nothing, so the reverse is that of the velocity
/// the player moved with.
pub proof fn law_bounce_reverses_velocity(
    p: Player,
    input: Input,
    scene: Scene,
    heading: Heading,
    ticks: int,
    mask: &CollisionMask,
    camera: &Camera2D,
)
    requires
        p.wf(),
        heading.wf(),
        0 <= ticks <= TICK_LIMIT,
    ensures
        ({
            let after = p.next(input, scene, heading, ticks, mask, camera);
            let v = p.slowed(input, scene, heading, ticks);
            let at = p.moved(input, scene, heading, ticks);
            let px = camera.mask_pixel(at, HALF_SPRITE as int);
            &&& after.pos.x == at.0 && after.pos.y == at.1
            &&& !mask.pixel(px.0, px.1).is_black() ==> after.vel.x == -v.0 && after.vel.y == -v.1
            &&& mask.pixel(px.0, px.1).is_black() ==> after.vel.x == v.0 && after.vel.y == v.1
            &&& ticks == 0 ==> v == p.capped(input, scene, heading, ticks)
        }),
{
    law_speed_is_capped(p, input, scene, heading, ticks);
    let c = p.capped(input, scene, heading, ticks);
    if ticks == 0 {
        assert(c.0 * ticks == 0 && c.1 * ticks == 0) by (nonlinear_arith)
            requires
                ticks == 0,
        ;
    }
    lemma_dragged_bound(c.0, ticks);
    lemma_dragged_bound(c.1, ticks);
    lemma_toward_zero_bounds(c.0, UNIT as int);
    lemma_toward_zero_bounds(c.1, UNIT as int);
}

} // verus!
