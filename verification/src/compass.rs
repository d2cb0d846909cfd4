use vstd::prelude::*;
use vstd::arithmetic::div_mod::lemma_fundamental_div_mod;
use vstd::arithmetic::div_mod::lemma_mod_bound;
use crate::echo::Echo;
use crate::units::{floor_div, Heading};

verus! {

/// Entries of a compass: one for each thousandth of a degree of a turn.
pub const COMPASS_SIZE: usize = 360_000;

/// A table of unit vectors, one for each direction of the full circle in
/// thousandths of a degree. Whoever builds it decides what the vectors
/// are; the simulation only looks them up.
pub struct Compass {
    pub table: Vec<Heading>,
}

impl Compass {
    /// The table covers the full circle with valid headings.
    pub open spec fn wf(&self) -> bool {
        &&& self.table@.len() == COMPASS_SIZE
        &&& forall|i: int| 0 <= i < self.table@.len() ==> (#[trigger] self.table@[i]).wf()
    }

    /// The heading for direction `dir`, taken modulo a full turn.
    pub open spec fn at(&self, dir: int) -> Heading {
        self.table@[dir % (COMPASS_SIZE as int)]
    }

    /// The heading of each echo, by its direction.
    pub open spec fn headings(&self, echoes: Seq<Echo>) -> Seq<Heading> {
        Seq::new(echoes.len(), |i: int| self.at(echoes[i].dir as int))
    }

    /// Executable form of [`Compass::wf`].
    pub fn is_wf(&self) -> (r: bool)
        ensures
            r == self.wf(),
    {
        if self.table.len() != COMPASS_SIZE {
            return false;
        }
        let mut i: usize = 0;
        while i < COMPASS_SIZE
            invariant
                i <= COMPASS_SIZE,
                self.table@.len() == COMPASS_SIZE,
                forall|j: int| 0 <= j < i ==> (#[trigger] self.table@[j]).wf(),
            decreases COMPASS_SIZE - i,
        {
            if !self.table[i].is_wf() {
                return false;
            }
            i = i + 1;
        }
        true
    }

    /// Looks up the heading for direction `dir`.
    pub fn heading(&self, dir: i64) -> (h: Heading)
        requires
            self.wf(),
        ensures
            h == self.at(dir as int),
            h.wf(),
    {
        let turns: i64 = floor_div(dir, 360_000);
        proof {
            lemma_fundamental_div_mod(dir as int, 360_000);
            lemma_mod_bound(dir as int, 360_000);
        }
        let rest: i128 = dir as i128 - turns as i128 * 360_000;
        self.table[rest as usize]
    }

    /// Looks up the heading of every echo.
    pub fn headings_for(&self, echoes: &Vec<Echo>) -> (hs: Vec<Heading>)
        requires
            self.wf(),
        ensures
            hs@ == self.headings(echoes@),
    {
        let mut hs: Vec<Heading> = Vec::new();
        let n: usize = echoes.len();
        let mut i: usize = 0;
        while i < n
            invariant
                i <= n,
                n == echoes@.len(),
                self.wf(),
                hs@.len() == i,
                forall|j: int| 0 <= j < i ==> hs@[j] == self.at(echoes@[j].dir as int),
            decreases n - i,
        {
            hs.push(self.heading(echoes[i].dir));
            i = i + 1;
        }
        assert(hs@ =~= self.headings(echoes@));
        hs
    }
}

} // verus!
