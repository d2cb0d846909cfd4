use vstd::prelude::*;
use vstd::arithmetic::div_mod::lemma_fundamental_div_mod;
use vstd::arithmetic::div_mod::lemma_fundamental_div_mod_converse;
use vstd::arithmetic::div_mod::lemma_mod_bound;

verus! {

/// Thousandths per whole unit, tick or degree.
pub const UNIT: i64 = 1_000;

/// Largest coordinate magnitude the simulation accepts (about 10^9 world units).
pub const WORLD_LIMIT: i64 = 0x100_0000_0000;

/// Largest elapsed time accepted for one update: a thousand ticks.
pub const TICK_LIMIT: i64 = 1_000_000;

/// Largest direction magnitude accepted, in thousandths of a degree.
pub const ANGLE_LIMIT: i64 = 0x100_0000_0000;

/// Offset from a sprite's corner to its centre.
pub const HALF_SPRITE: i64 = 16_000;

/// A world position or displacement, in thousandths of a unit.
#[derive(Clone, Copy, PartialEq, Eq, Structural, Debug)]
pub struct Point {
    pub x: i64,
    pub y: i64,
}

/// A unit direction vector: cosine and sine of a travel angle, in thousandths.
#[derive(Clone, Copy, PartialEq, Eq, Structural, Debug)]
pub struct Heading {
    pub cos: i64,
    pub sin: i64,
}

impl Point {
    /// Both coordinates lie within `bound` of the origin.
    pub open spec fn within(&self, bound: int) -> bool {
        -bound <= self.x <= bound && -bound <= self.y <= bound
    }

    /// The point has coordinates the simulation can move without overflow.
    pub open spec fn in_world(&self) -> bool {
        self.within(WORLD_LIMIT as int)
    }

    /// Executable form of [`Point::in_world`].
    pub fn fits_world(&self) -> (r: bool)
        ensures
            r == self.in_world(),
    {
        -WORLD_LIMIT <= self.x && self.x <= WORLD_LIMIT && -WORLD_LIMIT <= self.y && self.y
            <= WORLD_LIMIT
    }

    /// Component-wise sum, as a mathematical pair.
    pub open spec fn plus(&self, d: (int, int)) -> (int, int) {
        (self.x + d.0, self.y + d.1)
    }
}

impl Heading {
    /// Neither component exceeds one unit in magnitude.
    pub open spec fn wf(&self) -> bool {
        -UNIT <= self.cos <= UNIT && -UNIT <= self.sin <= UNIT
    }

    /// Executable form of [`Heading::wf`].
    pub fn is_wf(&self) -> (r: bool)
        ensures
            r == self.wf(),
    {
        -UNIT <= self.cos && self.cos <= UNIT && -UNIT <= self.sin && self.sin <= UNIT
    }
}

/// Distance covered along one axis: `component * speed * ticks`, brought back
/// to thousandths and rounded toward negative infinity.
pub open spec fn travel_axis(component: int, speed: int, ticks: int) -> int {
    (component * speed * ticks) / (UNIT as int)
}

/// Displacement along `heading` at `speed` units per tick over `ticks`.
pub open spec fn travel(heading: Heading, speed: int, ticks: int) -> (int, int) {
    (travel_axis(heading.cos as int, speed, ticks), travel_axis(heading.sin as int, speed, ticks))
}

/// Quotient of `a` by a positive `d`, rounded toward negative infinity.
pub fn floor_div(a: i64, d: i64) -> (q: i64)
    requires
        d > 0,
    ensures
        q == (a as int) / (d as int),
{
    if a >= 0 {
        a / d
    } else {
        let b: i64 = -1 - a;
        let k: i64 = b / d;
        proof {
            let r = (b as int) % (d as int);
            lemma_fundamental_div_mod(b as int, d as int);
            lemma_mod_bound(b as int, d as int);
            assert(a as int == (-1 - k) * d + (d - 1 - r)) by (nonlinear_arith)
                requires
                    b as int == d * k + r,
                    b == -1 - a,
            ;
            lemma_fundamental_div_mod_converse(a as int, d as int, -1 - k, d - 1 - r);
        }
        -1 - k
    }
}

/// Executable form of [`travel_axis`].
pub fn travel_axis_exec(component: i64, speed: i64, ticks: i64) -> (d: i64)
    requires
        -UNIT <= component <= UNIT,
        0 <= speed <= 100,
        0 <= ticks <= TICK_LIMIT,
    ensures
        d == travel_axis(component as int, speed as int, ticks as int),
        -(speed * ticks) <= d <= speed * ticks,
{
    assert(0 <= speed * ticks <= 100 * 1_000_000) by (nonlinear_arith)
        requires
            0 <= speed <= 100,
            0 <= ticks <= 1_000_000,
    ;
    let st: i64 = speed * ticks;
    assert(-1000 * st <= component * st <= 1000 * st) by (nonlinear_arith)
        requires
            -1000 <= component <= 1000,
            0 <= st,
    ;
    let n: i64 = component * st;
    assert(component * speed * ticks == component * (speed * ticks)) by (nonlinear_arith);
    let q: i64 = floor_div(n, UNIT);
    proof {
        lemma_fundamental_div_mod(n as int, 1000);
        lemma_mod_bound(n as int, 1000);
    }
    q
}

/// Quotient of `a` by a positive `d`, rounded toward zero.
pub open spec fn toward_zero(a: int, d: int) -> int {
    if a >= 0 {
        a / d
    } else {
        -((-a) / d)
    }
}

/// Rounding toward zero keeps the sign and never overshoots: the quotient
/// times the divisor lies between zero and the dividend.
pub proof fn lemma_toward_zero_bounds(a: int, d: int)
    requires
        d > 0,
    ensures
        a >= 0 ==> 0 <= toward_zero(a, d) <= a && 0 <= toward_zero(a, d) * d <= a,
        a <= 0 ==> a <= toward_zero(a, d) <= 0 && a <= toward_zero(a, d) * d <= 0,
{
    let b: int = if a >= 0 { a } else { -a };
    let q = b / d;
    lemma_fundamental_div_mod(b, d);
    lemma_mod_bound(b, d);
    assert(0 <= q <= b && 0 <= q * d <= b) by (nonlinear_arith)
        requires
            b == d * q + b % d,
            0 <= b % d < d,
            b >= 0,
            d > 0,
    ;
    if a < 0 {
        assert((-q) * d == -(q * d)) by (nonlinear_arith);
    }
}

/// Executable form of [`toward_zero`].
pub fn div_toward_zero(a: i64, d: i64) -> (q: i64)
    requires
        d > 0,
        a > i64::MIN,
    ensures
        q == toward_zero(a as int, d as int),
{
    proof {
        lemma_toward_zero_bounds(a as int, d as int);
    }
    if a >= 0 {
        a / d
    } else {
        let b: i64 = -a;
        -(b / d)
    }
}

/// Square of the distance between two points.
pub open spec fn dist_sq(a: Point, b: Point) -> int {
    (a.x - b.x) * (a.x - b.x) + (a.y - b.y) * (a.y - b.y)
}

/// Largest range that the distance tests accept.
pub const RANGE_LIMIT: i64 = 1_000_000_000;

/// How `a` lies to `b` against `range`: the square of their distance,
/// capped just above the square of the range so that it always fits.
fn capped_dist_sq(a: &Point, b: &Point, range: i64) -> (d: i128)
    requires
        0 < range <= RANGE_LIMIT,
    ensures
        dist_sq(*a, *b) <= range * range ==> d == dist_sq(*a, *b),
        dist_sq(*a, *b) > range * range ==> d > range * range,
{
    let dx: i128 = a.x as i128 - b.x as i128;
    let dy: i128 = a.y as i128 - b.y as i128;
    let r: i128 = range as i128;
    assert(0 < r * r <= 1_000_000_000 * 1_000_000_000) by (nonlinear_arith)
        requires
            0 < r <= 1_000_000_000,
    ;
    assert(dy * dy >= 0 && dx * dx >= 0) by (nonlinear_arith);
    if dx > r || dx < -r || dy > r || dy < -r {
        assert(dx * dx + dy * dy > r * r) by (nonlinear_arith)
            requires
                dx > r || dx < -r || dy > r || dy < -r,
                r > 0,
        ;
        r * r + 1
    } else {
        assert(dx * dx <= r * r && dy * dy <= r * r) by (nonlinear_arith)
            requires
                -r <= dx <= r,
                -r <= dy <= r,
        ;
        dx * dx + dy * dy
    }
}

/// Whether `a` and `b` are less than `range` apart.
pub fn closer_than(a: &Point, b: &Point, range: i64) -> (r: bool)
    requires
        0 < range <= RANGE_LIMIT,
    ensures
        r == (dist_sq(*a, *b) < range * range),
{
    assert(0 < range * range <= 1_000_000_000 * 1_000_000_000) by (nonlinear_arith)
        requires
            0 < range <= 1_000_000_000,
    ;
    capped_dist_sq(a, b, range) < range as i128 * range as i128
}

/// Whether `a` and `b` are more than `range` apart.
pub fn farther_than(a: &Point, b: &Point, range: i64) -> (r: bool)
    requires
        0 < range <= RANGE_LIMIT,
    ensures
        r == (dist_sq(*a, *b) > range * range),
{
    assert(0 < range * range <= 1_000_000_000 * 1_000_000_000) by (nonlinear_arith)
        requires
            0 < range <= 1_000_000_000,
    ;
    capped_dist_sq(a, b, range) > range as i128 * range as i128
}

} // verus!
