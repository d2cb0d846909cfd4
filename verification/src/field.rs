use vstd::prelude::*;
use crate::camera::Camera2D;
use crate::echo::{Echo, LIFETIME_FULL};
use crate::mask::{CollisionMask, Rgba};
use crate::units::{closer_than, dist_sq, Heading, Point, HALF_SPRITE};

verus! {

/// Number of echoes in one fan.
pub const FAN_SIZE: usize = 61;

/// Angle between neighbouring echoes of a fan: six degrees.
pub const FAN_STEP: i64 = 6_000;

/// The `i`-th echo of a fan sent from `pos` toward `dir`.
pub open spec fn fan_echo(pos: Point, dir: int, color: Rgba, i: int) -> Echo {
    Echo {
        pos: Point { x: (pos.x + HALF_SPRITE) as i64, y: (pos.y + HALF_SPRITE) as i64 },
        dir: (dir + i * FAN_STEP) as i64,
        hit: false,
        hit_color: color,
        no_find: false,
        lifetime: LIFETIME_FULL,
    }
}

/// The origin and the directions of a fan from `pos` toward `dir` fit the
/// machine's integers: the one thing asked of whoever sends a fan.
pub open spec fn fan_fits(pos: Point, dir: int) -> bool {
    &&& pos.x + HALF_SPRITE <= i64::MAX
    &&& pos.y + HALF_SPRITE <= i64::MAX
    &&& i64::MIN <= dir
    &&& dir + 60 * FAN_STEP <= i64::MAX
}

/// A full fan: sixty-one echoes from the centre of the sprite at `pos`.
pub open spec fn fan(pos: Point, dir: int, color: Rgba) -> Seq<Echo> {
    Seq::new(FAN_SIZE as nat, |i: int| fan_echo(pos, dir, color, i))
}

/// The echoes that are not expired, in their order.
pub open spec fn live(echoes: Seq<Echo>) -> Seq<Echo> {
    echoes.filter(|e: Echo| !e.expired())
}

/// The echoes to draw: those that are not expired and that the camera
/// sees, in their order.
pub open spec fn seen(echoes: Seq<Echo>, camera: Camera2D) -> Seq<Echo> {
    echoes.filter(|e: Echo| !e.expired() && camera.sees(e.pos))
}

/// `after` is `before` with each echo advanced by one update along its own
/// heading, each with some admissible embedding depth.
pub open spec fn stepped(
    before: Seq<Echo>,
    after: Seq<Echo>,
    headings: Seq<Heading>,
    mask: &CollisionMask,
    camera: &Camera2D,
    ticks: int,
) -> bool {
    &&& after.len() == before.len()
    &&& forall|i: int|
        0 <= i < before.len() ==> before[i].steps_to(
            #[trigger] after[i],
            mask,
            camera,
            headings[i],
            ticks,
        )
}

/// Whether every echo of `echoes` may be updated along its heading.
pub open spec fn can_update_all(
    echoes: Seq<Echo>,
    headings: Seq<Heading>,
    mask: &CollisionMask,
    camera: &Camera2D,
    ticks: int,
) -> bool {
    &&& headings.len() == echoes.len()
    &&& forall|i: int|
        0 <= i < echoes.len() ==> (#[trigger] echoes[i]).can_update(
            mask,
            camera,
            headings[i],
            ticks,
        )
}

/// Distance within which a travelling echo reveals what it passes.
pub const REVEAL_RANGE: i64 = 16_000;

/// Whether some echo that has not settled is within the revealing range
/// of `p`.
pub open spec fn reveals(echoes: Seq<Echo>, p: Point) -> bool {
    exists|i: int|
        0 <= i < echoes.len() && !(#[trigger] echoes[i]).hit && dist_sq(echoes[i].pos, p)
            < REVEAL_RANGE * REVEAL_RANGE
}

/// Executable form of [`reveals`].
pub fn echo_reveals(echoes: &Vec<Echo>, p: &Point) -> (r: bool)
    ensures
        r == reveals(echoes@, *p),
{
    let n: usize = echoes.len();
    let mut i: usize = 0;
    while i < n
        invariant
            i <= n,
            n == echoes@.len(),
            forall|j: int|
                0 <= j < i ==> !(!(#[trigger] echoes@[j]).hit && dist_sq(echoes@[j].pos, *p)
                    < REVEAL_RANGE * REVEAL_RANGE),
        decreases n - i,
    {
        let e: Echo = echoes[i];
        if !e.hit && closer_than(&e.pos, p, REVEAL_RANGE) {
            return true;
        }
        i = i + 1;
    }
    false
}

/// Appends a fan of sixty-one travelling echoes in `color`, spaced six
/// degrees apart from `dir` to `dir` plus a full turn.
pub fn send_echo(echoes: &mut Vec<Echo>, pos: &Point, dir: i64, color: Rgba)
    requires
        fan_fits(*pos, dir as int),
    ensures
        final(echoes)@ == old(echoes)@ + fan(*pos, dir as int, color),
        final(echoes)@.len() == old(echoes)@.len() + 61,
{
    let mut i: usize = 0;
    while i < FAN_SIZE
        invariant
            i <= FAN_SIZE,
            fan_fits(*pos, dir as int),
            echoes@ == old(echoes)@ + fan(*pos, dir as int, color).take(i as int),
        decreases FAN_SIZE - i,
    {
        let turn: i64 = i as i64 * FAN_STEP;
        let echo = Echo::new(pos.x + HALF_SPRITE, pos.y + HALF_SPRITE, dir + turn, color);
        echoes.push(echo);
        assert(fan(*pos, dir as int, color).take(i as int + 1) == fan(
            *pos,
            dir as int,
            color,
        ).take(i as int).push(echo));
        i = i + 1;
    }
    assert(fan(*pos, dir as int, color).take(FAN_SIZE as int) == fan(*pos, dir as int, color));
}

/// Removes every expired echo and keeps the others in their order.
pub fn remove_expired(echoes: &mut Vec<Echo>)
    ensures
        final(echoes)@ == live(old(echoes)@),
{
    let mut kept: Vec<Echo> = Vec::new();
    let n: usize = echoes.len();
    let mut i: usize = 0;
    proof {
        reveal(Seq::filter);
        assert(echoes@.take(0) == Seq::<Echo>::empty());
    }
    while i < n
        invariant
            i <= n,
            n == echoes@.len(),
            echoes@ == old(echoes)@,
            kept@ == live(echoes@.take(i as int)),
        decreases n - i,
    {
        let e: Echo = echoes[i];
        proof {
            reveal(Seq::filter);
            assert(echoes@.take(i as int + 1).drop_last() == echoes@.take(i as int));
        }
        if e.lifetime > 0 {
            kept.push(e);
        }
        i = i + 1;
    }
    assert(echoes@.take(n as int) == echoes@);
    *echoes = kept;
}

/// The echoes to draw: the live ones inside the camera's view. An expired
/// echo is never among them, whether or not it has been removed yet.
pub fn visible_echoes(echoes: &Vec<Echo>, camera: &Camera2D) -> (shown: Vec<Echo>)
    ensures
        shown@ == seen(echoes@, *camera),
{
    let mut shown: Vec<Echo> = Vec::new();
    let n: usize = echoes.len();
    let mut i: usize = 0;
    proof {
        reveal(Seq::filter);
        assert(echoes@.take(0) == Seq::<Echo>::empty());
    }
    while i < n
        invariant
            i <= n,
            n == echoes@.len(),
            shown@ == seen(echoes@.take(i as int), *camera),
        decreases n - i,
    {
        let e: Echo = echoes[i];
        proof {
            reveal(Seq::filter);
            assert(echoes@.take(i as int + 1).drop_last() == echoes@.take(i as int));
        }
        if e.lifetime > 0 && camera.in_view(e.pos) {
            shown.push(e);
        }
        i = i + 1;
    }
    assert(echoes@.take(n as int) == echoes@);
    shown
}

/// Advances every echo by one update, each along its own heading.
pub fn advance_echoes(
    echoes: &mut Vec<Echo>,
    headings: &Vec<Heading>,
    mask: &CollisionMask,
    camera: &Camera2D,
    ticks: i64,
)
    requires
        can_update_all(old(echoes)@, headings@, mask, camera, ticks as int),
    ensures
        stepped(old(echoes)@, final(echoes)@, headings@, mask, camera, ticks as int),
{
    let n: usize = echoes.len();
    let mut i: usize = 0;
    while i < n
        invariant
            i <= n,
            n == echoes@.len(),
            n == old(echoes)@.len(),
            can_update_all(old(echoes)@, headings@, mask, camera, ticks as int),
            forall|j: int| i <= j < n ==> echoes@[j] == old(echoes)@[j],
            forall|j: int|
                0 <= j < i ==> old(echoes)@[j].steps_to(
                    #[trigger] echoes@[j],
                    mask,
                    camera,
                    headings@[j],
                    ticks as int,
                ),
        decreases n - i,
    {
        let mut e: Echo = echoes[i];
        assert(old(echoes)@[i as int].can_update(mask, camera, headings@[i as int], ticks as int));
        e.update(mask, camera, headings[i], ticks);
        echoes[i] = e;
        i = i + 1;
    }
}

/// One update of the whole field: every echo advances, then the expired
/// ones are removed.
pub fn update_echoes(
    echoes: &mut Vec<Echo>,
    headings: &Vec<Heading>,
    mask: &CollisionMask,
    camera: &Camera2D,
    ticks: i64,
)
    requires
        can_update_all(old(echoes)@, headings@, mask, camera, ticks as int),
    ensures
        exists|mid: Seq<Echo>| #[trigger]
            stepped(old(echoes)@, mid, headings@, mask, camera, ticks as int) && final(echoes)@
                == live(mid),
{
    advance_echoes(echoes, headings, mask, camera, ticks);
    let ghost mid = echoes@;
    remove_expired(echoes);
    assert(stepped(old(echoes)@, mid, headings@, mask, camera, ticks as int));
}

/// A fan always holds sixty-one travelling echoes of one colour and one
/// origin, whose directions rise from the base direction in steps of six
/// degrees up to a full turn.
pub proof fn law_fan_shape(pos: Point, dir: int, color: Rgba)
    ensures
        fan(pos, dir, color).len() == 61,
        forall|i: int|
            0 <= i < 61 ==> (#[trigger] fan(pos, dir, color)[i]) == fan_echo(pos, dir, color, i),
        forall|i: int|
            0 <= i < 61 ==> (#[trigger] fan_echo(pos, dir, color, i)).hit_color == color
                && !fan_echo(pos, dir, color, i).hit && !fan_echo(pos, dir, color, i).no_find
                && fan_echo(pos, dir, color, i).lifetime == LIFETIME_FULL && fan_echo(
                pos,
                dir,
                color,
                i,
            ).pos == fan_echo(pos, dir, color, 0).pos,
        forall|i: int|
            0 <= i < 60 && fan_fits(pos, dir) ==> (#[trigger] fan_echo(
                pos,
                dir,
                color,
                i + 1,
            )).dir - fan_echo(pos, dir, color, i).dir == FAN_STEP,
        fan_fits(pos, dir) ==> fan_echo(pos, dir, color, 0).dir == dir && fan_echo(
            pos,
            dir,
            color,
            60,
        ).dir == dir + 360 * crate::units::UNIT,
{
}

/// Nothing expired is ever drawn: every echo handed to the renderer is
/// live and in view.
pub proof fn law_expired_echo_is_not_drawn(echoes: Seq<Echo>, camera: Camera2D)
    ensures
        forall|i: int|
            0 <= i < seen(echoes, camera).len() ==> !(#[trigger] seen(echoes, camera)[i]).expired()
                && camera.sees(seen(echoes, camera)[i].pos),
        forall|i: int|
            0 <= i < echoes.len() && (#[trigger] echoes[i]).expired() ==> !seen(
                echoes,
                camera,
            ).contains(echoes[i]),
{
    broadcast use vstd::seq_lib::group_filter_ensures;

    let pred = |e: Echo| !e.expired() && camera.sees(e.pos);
    let shown = echoes.filter(pred);
    assert forall|i: int| 0 <= i < shown.len() implies pred(#[trigger] shown[i]) by {}
    assert forall|i: int| 0 <= i < echoes.len() && (#[trigger] echoes[i]).expired() implies !shown.contains(
        echoes[i],
    ) by {
        if shown.contains(echoes[i]) {
            let k = choose|k: int| 0 <= k < shown.len() && shown[k] == echoes[i];
            assert(pred(shown[k]));
        }
    }
}

/// An echo swallowed by the undetectable zone is never pruned by the
/// lifetime mechanism: whatever the update of the field does to the
/// others, it is left as it was and is still there after the removal.
pub proof fn law_swallowed_echo_outlives_the_update(
    echoes: Seq<Echo>,
    mid: Seq<Echo>,
    headings: Seq<Heading>,
    mask: &CollisionMask,
    camera: &Camera2D,
    ticks: int,
    i: int,
)
    requires
        stepped(echoes, mid, headings, mask, camera, ticks),
        0 <= i < echoes.len(),
        echoes[i].no_find,
        !echoes[i].hit,
        !echoes[i].expired(),
    ensures
        mid[i] == echoes[i],
        live(mid).contains(echoes[i]),
{
    assert(echoes[i].steps_to(mid[i], mask, camera, headings[i], ticks));
    law_removal_keeps_the_living(mid);
}

/// Removal keeps exactly the live echoes: none that is expired remains,
/// every live one remains, and the result is no longer than the input.
pub proof fn law_removal_keeps_the_living(echoes: Seq<Echo>)
    ensures
        forall|i: int| 0 <= i < live(echoes).len() ==> !(#[trigger] live(echoes)[i]).expired(),
        forall|i: int|
            0 <= i < echoes.len() && !(#[trigger] echoes[i]).expired() ==> live(echoes).contains(
                echoes[i],
            ),
        live(echoes).len() <= echoes.len(),
        live(live(echoes)) == live(echoes),
{
    broadcast use vstd::seq_lib::group_filter_ensures;

    let pred = |e: Echo| !e.expired();
    let once = echoes.filter(pred);
    assert forall|i: int| 0 <= i < once.len() implies pred(#[trigger] once[i]) by {}
    assert forall|i: int| 0 <= i < echoes.len() && !(#[trigger] echoes[i]).expired() implies live(
        echoes,
    ).contains(echoes[i]) by {
        assert(pred(echoes[i]));
    }
    lemma_filter_of_all(once);
}

proof fn lemma_filter_of_all(s: Seq<Echo>)
    requires
        forall|i: int| 0 <= i < s.len() ==> !(#[trigger] s[i]).expired(),
    ensures
        live(s) == s,
    decreases s.len(),
{
    reveal(Seq::filter);
    if s.len() > 0 {
        lemma_filter_of_all(s.drop_last());
        assert(s.drop_last().push(s.last()) == s);
    }
}

} // verus!
