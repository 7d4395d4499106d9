use vstd::prelude::*;

use crate::interval::Interval;

verus! {

/// A degree of a seven-note scale, counted from its root.
#[derive(Clone, Copy, Debug, PartialEq, Eq, Structural)]
pub enum Degree {
    First,
    Second,
    Third,
    Fourth,
    Fifth,
    Sixth,
    Seventh,
}

impl Degree {
    /// The ordinal of the degree, `1..=7`.
    pub open spec fn number(self) -> int {
        match self {
            Degree::First => 1,
            Degree::Second => 2,
            Degree::Third => 3,
            Degree::Fourth => 4,
            Degree::Fifth => 5,
            Degree::Sixth => 6,
            Degree::Seventh => 7,
        }
    }

    /// The seven degrees in ascending order.
    pub open spec fn all() -> Seq<Degree> {
        seq![
            Degree::First,
            Degree::Second,
            Degree::Third,
            Degree::Fourth,
            Degree::Fifth,
            Degree::Sixth,
            Degree::Seventh,
        ]
    }

    /// The intervals that may stand for this degree.
    pub open spec fn candidates(self) -> Set<Interval> {
        match self {
            Degree::First => set![
                Interval::PerfectUnison,
                Interval::AugmentedUnison,
                Interval::DiminishedOctave,
                Interval::PerfectOctave,
            ],
            Degree::Second => set![
                Interval::MinorSecond,
                Interval::MajorSecond,
                Interval::DiminishedSecond,
                Interval::AugmentedSecond,
            ],
            Degree::Third => set![
                Interval::MinorThird,
                Interval::MajorThird,
                Interval::DiminishedThird,
                Interval::AugmentedThird,
            ],
            Degree::Fourth => set![
                Interval::PerfectFourth,
                Interval::DiminishedFourth,
                Interval::AugmentedFourth,
            ],
            Degree::Fifth => set![
                Interval::PerfectFifth,
                Interval::DiminishedFifth,
                Interval::AugmentedFifth,
            ],
            Degree::Sixth => set![
                Interval::MinorSixth,
                Interval::MajorSixth,
                Interval::DiminishedSixth,
                Interval::AugmentedSixth,
            ],
            Degree::Seventh => set![
                Interval::MinorSeventh,
                Interval::MajorSeventh,
                Interval::DiminishedSeventh,
                Interval::AugmentedSeventh,
            ],
        }
    }

    /// The interval that names a distance of `s` half steps from the root
    /// when it stands at this degree, as a table; `None` where no candidate
    /// of the degree has that width.
    pub open spec fn resolve(self, s: int) -> Option<Interval> {
        match self {
            Degree::First => if s == 0 {
                Some(Interval::PerfectUnison)
            } else if s == 1 {
                Some(Interval::AugmentedUnison)
            } else if s == 11 {
                Some(Interval::DiminishedOctave)
            } else if s == 12 {
                Some(Interval::PerfectOctave)
            } else {
                None
            },
            Degree::Second => if s == 0 {
                Some(Interval::DiminishedSecond)
            } else if s == 1 {
                Some(Interval::MinorSecond)
            } else if s == 2 {
                Some(Interval::MajorSecond)
            } else if s == 3 {
                Some(Interval::AugmentedSecond)
            } else {
                None
            },
            Degree::Third => if s == 2 {
                Some(Interval::DiminishedThird)
            } else if s == 3 {
                Some(Interval::MinorThird)
            } else if s == 4 {
                Some(Interval::MajorThird)
            } else if s == 5 {
                Some(Interval::AugmentedThird)
            } else {
                None
            },
            Degree::Fourth => if s == 4 {
                Some(Interval::DiminishedFourth)
            } else if s == 5 {
                Some(Interval::PerfectFourth)
            } else if s == 6 {
                Some(Interval::AugmentedFourth)
            } else {
                None
            },
            Degree::Fifth => if s == 6 {
                Some(Interval::DiminishedFifth)
            } else if s == 7 {
                Some(Interval::PerfectFifth)
            } else if s == 8 {
                Some(Interval::AugmentedFifth)
            } else {
                None
            },
            Degree::Sixth => if s == 7 {
                Some(Interval::DiminishedSixth)
            } else if s == 8 {
                Some(Interval::MinorSixth)
            } else if s == 9 {
                Some(Interval::MajorSixth)
            } else if s == 10 {
                Some(Interval::AugmentedSixth)
            } else {
                None
            },
            Degree::Seventh => if s == 9 {
                Some(Interval::DiminishedSeventh)
            } else if s == 10 {
                Some(Interval::MinorSeventh)
            } else if s == 11 {
                Some(Interval::MajorSeventh)
            } else if s == 12 {
                Some(Interval::AugmentedSeventh)
            } else {
                None
            },
        }
    }

    /// The seven degrees in ascending order.
    pub fn array() -> (r: [Degree; 7])
        ensures
            r@ == Degree::all(),
    {
        let r = [
            Degree::First,
            Degree::Second,
            Degree::Third,
            Degree::Fourth,
            Degree::Fifth,
            Degree::Sixth,
            Degree::Seventh,
        ];
        assert(r@ =~= Degree::all());
        r
    }

    /// The ordinal of the degree, `1..=7`.
    pub fn as_number(&self) -> (r: usize)
        ensures
            r == self.number(),
    {
        match self {
            Degree::First => 1,
            Degree::Second => 2,
            Degree::Third => 3,
            Degree::Fourth => 4,
            Degree::Fifth => 5,
            Degree::Sixth => 6,
            Degree::Seventh => 7,
        }
    }

    /// The candidate of this degree that spans `semitones` half steps, if
    /// there is one.
    pub fn interval(&self, semitones: usize) -> (r: Option<Interval>)
        ensures
            r == self.resolve(semitones as int),
    {
        let candidates = Interval::for_degree(self);
        let mut k: usize = 0;
        while k < candidates.len()
            invariant
                k <= candidates@.len(),
                forall|j: int| 0 <= j < k ==> candidates@[j].spec_semitones() != semitones,
                forall|i: Interval| candidates@.contains(i) <==> self.candidates().contains(i),
            decreases candidates@.len() - k,
        {
            let c = candidates[k];
            if c.semitones() == semitones {
                proof {
                    assert(candidates@.contains(c));
                    lemma_resolve_is_candidate_lookup(*self, semitones as int, c);
                }
                return Some(c);
            }
            k = k + 1;
        }
        proof {
            if let Some(i) = self.resolve(semitones as int) {
                lemma_resolve_is_candidate_lookup(*self, semitones as int, i);
                let j = choose|j: int| 0 <= j < candidates@.len() && candidates@[j] == i;
                assert(candidates@[j].spec_semitones() != semitones);
            }
        }
        None
    }
}

/// The table `resolve` finds, for a degree and a width, exactly the
/// candidate of that degree with that width.
pub proof fn lemma_resolve_is_candidate_lookup(d: Degree, s: int, i: Interval)
    ensures
        d.resolve(s) == Some(i) <==> (d.candidates().contains(i) && i.spec_semitones() == s),
{
}

} // verus!
