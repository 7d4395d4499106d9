use vstd::prelude::*;

use crate::interval::Interval;
use crate::scales::degree::lemma_resolve_is_candidate_lookup;
use crate::scales::helper::{
    interval_for as pattern_interval_for, lemma_first_degree_is_unison, lemma_octave_closure,
    lemma_rotated_offset_step, mode_interval, rotate_left, rotated_offset, seq_sum,
};
use crate::scales::Degree;

verus! {

/// The steps of the major scale, in half steps, from its root round to
/// the octave.
pub open spec fn steps() -> Seq<usize> {
    seq![2, 2, 1, 2, 2, 2, 1]
}

fn semitone_steps() -> (r: [usize; 7])
    ensures
        r@ == steps(),
{
    let r = [2, 2, 1, 2, 2, 2, 1];
    assert(r@ =~= steps());
    r
}

/// The seven modes of the major scale, each named by the degree of the
/// major scale it starts on.
#[derive(Clone, Copy, Debug, PartialEq, Eq, Structural)]
pub enum Mode {
    Ionian,
    Dorian,
    Phrygian,
    Lydian,
    Mixolydian,
    Aeolian,
    Locrian,
}

impl Mode {
    /// How many steps into the major scale this mode starts.
    pub open spec fn rotation(self) -> int {
        match self {
            Mode::Ionian => 0,
            Mode::Dorian => 1,
            Mode::Phrygian => 2,
            Mode::Lydian => 3,
            Mode::Mixolydian => 4,
            Mode::Aeolian => 5,
            Mode::Locrian => 6,
        }
    }

    /// The intervals of the seven degrees above the mode's root.
    pub open spec fn spec_intervals(self) -> Seq<Interval> {
        Degree::all().map_values(|d: Degree| mode_interval(steps(), self.rotation(), d).unwrap())
    }

    /// The intervals of the seven degrees above the mode's root, in
    /// ascending order of degree; the first is always a perfect unison.
    pub fn intervals(&self) -> (r: [Interval; 7])
        ensures
            r@ == self.spec_intervals(),
            forall|k: int|
                0 <= k < 7 ==> mode_interval(steps(), self.rotation(), Degree::all()[k]) == Some(
                    #[trigger] r@[k],
                ),
            r@[0] == Interval::PerfectUnison,
            r@[6].spec_semitones() + steps()[(self.rotation() + 6) % 7] == 12,
    {
        let r = [
            self.interval_for(Degree::First),
            self.interval_for(Degree::Second),
            self.interval_for(Degree::Third),
            self.interval_for(Degree::Fourth),
            self.interval_for(Degree::Fifth),
            self.interval_for(Degree::Sixth),
            self.interval_for(Degree::Seventh),
        ];
        proof {
            lemma_first_degree_is_unison(steps(), self.rotation());
            lemma_every_degree_resolves(*self, Degree::Seventh);
            lemma_octave_closure(steps(), self.rotation());
            lemma_resolve_is_candidate_lookup(
                Degree::Seventh,
                rotated_offset(steps(), self.rotation(), 6),
                r[6],
            );
            assert(r@ =~= self.spec_intervals());
        }
        r
    }

    fn starting_degree(&self) -> (r: Degree)
        ensures
            r.number() == self.rotation() + 1,
    {
        match self {
            Mode::Ionian => Degree::First,
            Mode::Dorian => Degree::Second,
            Mode::Phrygian => Degree::Third,
            Mode::Lydian => Degree::Fourth,
            Mode::Mixolydian => Degree::Fifth,
            Mode::Aeolian => Degree::Sixth,
            Mode::Locrian => Degree::Seventh,
        }
    }

    fn interval_for(&self, degree: Degree) -> (r: Interval)
        ensures
            mode_interval(steps(), self.rotation(), degree) == Some(r),
    {
        let pattern = semitone_steps();
        proof {
            lemma_every_degree_resolves(*self, degree);
        }
        match pattern_interval_for(pattern.as_slice(), self.starting_degree().as_number() - 1, degree) {
            Some(interval) => interval,
            None => vstd::pervasive::unreached(),
        }
    }
}

/// Every degree of every mode of the major scale has a name among its
/// candidates.
proof fn lemma_every_degree_resolves(m: Mode, d: Degree)
    ensures
        seq_sum(steps()) == 12,
        mode_interval(steps(), m.rotation(), d) is Some,
{
    let s = steps();
    let k = m.rotation();
    lemma_rotated_offset_step(s, 0, 0);
    lemma_rotated_offset_step(s, 0, 1);
    lemma_rotated_offset_step(s, 0, 2);
    lemma_rotated_offset_step(s, 0, 3);
    lemma_rotated_offset_step(s, 0, 4);
    lemma_rotated_offset_step(s, 0, 5);
    lemma_rotated_offset_step(s, 0, 6);
    assert(rotate_left(s, 0).take(7) =~= s);
    assert(rotated_offset(s, 0, 7) == seq_sum(s));
    lemma_rotated_offset_step(s, k, 0);
    lemma_rotated_offset_step(s, k, 1);
    lemma_rotated_offset_step(s, k, 2);
    lemma_rotated_offset_step(s, k, 3);
    lemma_rotated_offset_step(s, k, 4);
    lemma_rotated_offset_step(s, k, 5);
}

} // verus!
