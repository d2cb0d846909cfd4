use vstd::prelude::*;
use crate::echo::Echo;
use crate::field::{fan, send_echo};
use crate::mask::Rgba;
use crate::rng::random_in;
use crate::units::{Point, TICK_LIMIT, UNIT};

verus! {

/// One full turn, in thousandths of a degree.
pub const FULL_TURN: i32 = 360_000;

/// A fixed emitter that sends a fan of echoes each time its timer runs past
/// its period. `freq` is the period in whole ticks, `timer` the time since
/// the last fan in thousandths of a tick.
#[derive(Clone, Copy, PartialEq, Eq, Structural, Debug)]
pub struct Beacon {
    pub pos: Point,
    pub visible: bool,
    pub freq: i32,
    pub timer: i64,
}

impl Beacon {
    /// The timer is non-negative and no larger than a period can be.
    pub open spec fn wf(&self) -> bool {
        0 <= self.timer <= i32::MAX * UNIT
    }

    /// Whether the beacon is fit for an update: its timer is well formed
    /// and it stands inside the world.
    pub fn is_ready(&self) -> (r: bool)
        ensures
            r == (self.wf() && self.pos.in_world()),
    {
        0 <= self.timer && self.timer <= i32::MAX as i64 * UNIT && self.pos.fits_world()
    }

    /// Whether `ticks` more of elapsed time carry the timer past the period.
    pub open spec fn fires(&self, ticks: int) -> bool {
        self.timer + ticks > self.freq * UNIT
    }

    /// The beacon after `ticks`: the timer back at zero if it fired, grown
    /// by `ticks` otherwise. Nothing else changes.
    pub open spec fn ticked(&self, ticks: int) -> Beacon {
        Beacon { timer: if self.fires(ticks) { 0i64 } else { (self.timer + ticks) as i64 }, ..*self }
    }

    /// The colour of this beacon's echoes: purple for a placed beacon,
    /// transparent for an ambient one.
    pub open spec fn echo_color(&self) -> Rgba {
        if self.visible {
            Rgba::spec_purple()
        } else {
            Rgba::spec_transparent()
        }
    }

    /// The echoes after `ticks`, should the fan go out toward `dir`.
    pub open spec fn echoes_after(&self, echoes: Seq<Echo>, ticks: int, dir: int) -> Seq<Echo> {
        if self.fires(ticks) {
            echoes + fan(self.pos, dir, self.echo_color())
        } else {
            echoes
        }
    }

    /// A beacon at `(x, y)` with its timer at zero.
    pub fn new(x: i64, y: i64, visible: bool, freq: i32) -> (b: Beacon)
        ensures
            b == (Beacon { pos: Point { x, y }, visible, freq, timer: 0 }),
            b.wf(),
    {
        Beacon { pos: Point { x, y }, visible, freq, timer: 0 }
    }

    /// Lets `ticks` pass. When the timer runs past the period it returns to
    /// zero and one fan goes out in a direction drawn at random from the
    /// full circle.
    pub fn update(&mut self, echoes: &mut Vec<Echo>, ticks: i64)
        requires
            old(self).wf(),
            old(self).pos.in_world(),
            0 <= ticks <= TICK_LIMIT,
        ensures
            *final(self) == old(self).ticked(ticks as int),
            final(self).wf(),
            exists|dir: int|
                0 <= dir < FULL_TURN && final(echoes)@ == #[trigger] old(self).echoes_after(
                    old(echoes)@,
                    ticks as int,
                    dir,
                ),
    {
        if self.timer + ticks > self.freq as i64 * UNIT {
            let dir: i64 = random_in(0, FULL_TURN) as i64;
            self.pulse(echoes, ticks, dir);
            assert(echoes@ == old(self).echoes_after(old(echoes)@, ticks as int, dir as int));
        } else {
            self.timer = self.timer + ticks;
            assert(echoes@ == old(self).echoes_after(old(echoes)@, ticks as int, 0));
        }
    }

    /// Lets `ticks` pass, sending the fan toward `dir` if one is due.
    pub fn pulse(&mut self, echoes: &mut Vec<Echo>, ticks: i64, dir: i64)
        requires
            old(self).wf(),
            old(self).pos.in_world(),
            0 <= ticks <= TICK_LIMIT,
            0 <= dir < FULL_TURN,
        ensures
            *final(self) == old(self).ticked(ticks as int),
            final(self).wf(),
            final(echoes)@ == old(self).echoes_after(old(echoes)@, ticks as int, dir as int),
    {
        let elapsed: i64 = self.timer + ticks;
        if elapsed > self.freq as i64 * UNIT {
            self.timer = 0;
            let color = if self.visible {
                Rgba::purple()
            } else {
                Rgba::transparent()
            };
            send_echo(echoes, &self.pos, dir, color);
        } else {
            self.timer = elapsed;
        }
    }
}

/// The echoes that a row of beacons sends in one update, in the beacons'
/// order, when the `i`-th beacon's fan goes out toward `dirs[i]`.
pub open spec fn fans_sent(beacons: Seq<Beacon>, dirs: Seq<int>, ticks: int) -> Seq<Echo>
    decreases beacons.len(),
{
    if beacons.len() == 0 {
        Seq::empty()
    } else {
        beacons.last().echoes_after(
            fans_sent(beacons.drop_last(), dirs.drop_last(), ticks),
            ticks,
            dirs.last(),
        )
    }
}

/// Every beacon of the row is well formed and stands inside the world.
pub open spec fn beacons_ready(beacons: Seq<Beacon>) -> bool {
    forall|i: int| 0 <= i < beacons.len() ==> (#[trigger] beacons[i]).wf() && beacons[i].pos.in_world()
}

/// `dirs` holds one direction of the full circle for each of `count` beacons.
pub open spec fn directions_for(dirs: Seq<int>, count: int) -> bool {
    dirs.len() == count && forall|i: int| 0 <= i < count ==> 0 <= #[trigger] dirs[i] < FULL_TURN
}

/// Updates every beacon in turn. Each timer moves as [`Beacon::ticked`]
/// says, and the fans of those that fired are appended in the beacons'
/// order, each toward a direction drawn at random.
pub fn update_beacons(beacons: &mut Vec<Beacon>, echoes: &mut Vec<Echo>, ticks: i64)
    requires
        beacons_ready(old(beacons)@),
        0 <= ticks <= TICK_LIMIT,
    ensures
        final(beacons)@.len() == old(beacons)@.len(),
        forall|i: int|
            0 <= i < old(beacons)@.len() ==> (#[trigger] final(beacons)@[i]) == old(
                beacons,
            )@[i].ticked(ticks as int),
        beacons_ready(final(beacons)@),
        exists|dirs: Seq<int>|
            directions_for(dirs, old(beacons)@.len() as int) && final(echoes)@ == old(echoes)@
                + #[trigger] fans_sent(old(beacons)@, dirs, ticks as int),
{
    let n: usize = beacons.len();
    let mut i: usize = 0;
    let ghost mut dirs: Seq<int> = Seq::empty();
    assert(old(echoes)@ + Seq::<Echo>::empty() == old(echoes)@);
    assert(old(beacons)@.take(0).len() == 0);
    while i < n
        invariant
            i <= n,
            n == beacons@.len(),
            n == old(beacons)@.len(),
            0 <= ticks <= TICK_LIMIT,
            beacons_ready(old(beacons)@),
            forall|j: int| i <= j < n ==> beacons@[j] == old(beacons)@[j],
            forall|j: int|
                0 <= j < i ==> (#[trigger] beacons@[j]) == old(beacons)@[j].ticked(ticks as int),
            forall|j: int| 0 <= j < i ==> (#[trigger] beacons@[j]).wf(),
            directions_for(dirs, i as int),
            echoes@ == old(echoes)@ + fans_sent(old(beacons)@.take(i as int), dirs, ticks as int),
        decreases n - i,
    {
        let mut b: Beacon = beacons[i];
        let ghost before = echoes@;
        let ghost sent = fans_sent(old(beacons)@.take(i as int), dirs, ticks as int);
        assert(old(beacons)@[i as int].wf());
        b.update(echoes, ticks);
        beacons[i] = b;
        proof {
            let first = old(beacons)@[i as int];
            let dir = choose|dir: int|
                0 <= dir < FULL_TURN && echoes@ == #[trigger] first.echoes_after(
                    before,
                    ticks as int,
                    dir,
                );
            let longer = dirs.push(dir);
            let row = old(beacons)@.take(i as int + 1);
            assert(row.drop_last() == old(beacons)@.take(i as int));
            assert(longer.drop_last() == dirs);
            assert(row.last() == first);
            assert(fans_sent(row, longer, ticks as int) == first.echoes_after(
                sent,
                ticks as int,
                dir,
            ));
            assert(first.echoes_after(before, ticks as int, dir) =~= old(echoes)@
                + first.echoes_after(sent, ticks as int, dir));
            dirs = longer;
        }
        i = i + 1;
    }
    assert(old(beacons)@.take(n as int) == old(beacons)@);
}

} // verus!
