use vstd::prelude::*;

use crate::note::Note;
use crate::scales::Degree;

verus! {

/// A named interval. Intervals that span the same number of half steps
/// (a major second and a diminished third, say) are still distinct values,
/// told apart by the scale degree they belong to.
#[derive(Clone, Copy, Debug, PartialEq, Eq, Hash, Structural)]
pub enum Interval {
    PerfectUnison,
    MinorSecond,
    MajorSecond,
    MinorThird,
    MajorThird,
    PerfectFourth,
    PerfectFifth,
    MinorSixth,
    MajorSixth,
    MinorSeventh,
    MajorSeventh,
    PerfectOctave,
    Tritone,
    DiminishedSecond,
    DiminishedThird,
    DiminishedFourth,
    DiminishedFifth,
    DiminishedSixth,
    DiminishedSeventh,
    DiminishedOctave,
    AugmentedUnison,
    AugmentedSecond,
    AugmentedThird,
    AugmentedFourth,
    AugmentedFifth,
    AugmentedSixth,
    AugmentedSeventh,
}

impl Interval {
    /// The width of the interval in half steps, in `0..=12`.
    pub open spec fn spec_semitones(self) -> int {
        match self {
            Interval::PerfectUnison => 0,
            Interval::MinorSecond => 1,
            Interval::MajorSecond => 2,
            Interval::MinorThird => 3,
            Interval::MajorThird => 4,
            Interval::PerfectFourth => 5,
            Interval::DiminishedFifth => 6,
            Interval::PerfectFifth => 7,
            Interval::MinorSixth => 8,
            Interval::MajorSixth => 9,
            Interval::MinorSeventh => 10,
            Interval::MajorSeventh => 11,
            Interval::PerfectOctave => 12,
            Interval::Tritone => 6,
            Interval::DiminishedSecond => 0,
            Interval::DiminishedThird => 2,
            Interval::DiminishedFourth => 4,
            Interval::DiminishedSixth => 7,
            Interval::DiminishedSeventh => 9,
            Interval::DiminishedOctave => 11,
            Interval::AugmentedUnison => 1,
            Interval::AugmentedSecond => 3,
            Interval::AugmentedThird => 5,
            Interval::AugmentedFourth => 6,
            Interval::AugmentedFifth => 8,
            Interval::AugmentedSixth => 10,
            Interval::AugmentedSeventh => 12,
        }
    }

    /// The scale degree whose candidate set holds this interval; the
    /// tritone belongs to none.
    pub open spec fn spec_to_degree(self) -> Option<Degree> {
        match self {
            Interval::PerfectUnison => Some(Degree::First),
            Interval::MinorSecond => Some(Degree::Second),
            Interval::MajorSecond => Some(Degree::Second),
            Interval::MinorThird => Some(Degree::Third),
            Interval::MajorThird => Some(Degree::Third),
            Interval::PerfectFourth => Some(Degree::Fourth),
            Interval::PerfectFifth => Some(Degree::Fifth),
            Interval::MinorSixth => Some(Degree::Sixth),
            Interval::MajorSixth => Some(Degree::Sixth),
            Interval::MinorSeventh => Some(Degree::Seventh),
            Interval::MajorSeventh => Some(Degree::Seventh),
            Interval::PerfectOctave => Some(Degree::First),
            Interval::Tritone => None,
            Interval::DiminishedSecond => Some(Degree::Second),
            Interval::DiminishedThird => Some(Degree::Third),
            Interval::DiminishedFourth => Some(Degree::Fourth),
            Interval::DiminishedFifth => Some(Degree::Fifth),
            Interval::DiminishedSixth => Some(Degree::Sixth),
            Interval::DiminishedSeventh => Some(Degree::Seventh),
            Interval::DiminishedOctave => Some(Degree::First),
            Interval::AugmentedUnison => Some(Degree::First),
            Interval::AugmentedSecond => Some(Degree::Second),
            Interval::AugmentedThird => Some(Degree::Third),
            Interval::AugmentedFourth => Some(Degree::Fourth),
            Interval::AugmentedFifth => Some(Degree::Fifth),
            Interval::AugmentedSixth => Some(Degree::Sixth),
            Interval::AugmentedSeventh => Some(Degree::Seventh),
        }
    }

    /// The note this interval above `note` lands on.
    pub open spec fn spec_apply_to_note(self, note: Note) -> Note {
        note.transposed(self.spec_semitones())
    }

    /// The candidate intervals of `degree`, in no particular order and each
    /// once.
    pub fn for_degree(degree: &Degree) -> (r: Vec<Interval>)
        ensures
            forall|i: Interval| r@.contains(i) <==> degree.candidates().contains(i),
            r@.no_duplicates(),
    {
        let r = match degree {
            Degree::First => vec![
                Interval::PerfectUnison,
                Interval::AugmentedUnison,
                Interval::DiminishedOctave,
                Interval::PerfectOctave,
            ],
            Degree::Second => vec![
                Interval::MinorSecond,
                Interval::MajorSecond,
                Interval::DiminishedSecond,
                Interval::AugmentedSecond,
            ],
            Degree::Third => vec![
                Interval::MinorThird,
                Interval::MajorThird,
                Interval::DiminishedThird,
                Interval::AugmentedThird,
            ],
            Degree::Fourth => vec![
                Interval::PerfectFourth,
                Interval::DiminishedFourth,
                Interval::AugmentedFourth,
            ],
            Degree::Fifth => vec![
                Interval::PerfectFifth,
                Interval::DiminishedFifth,
                Interval::AugmentedFifth,
            ],
            Degree::Sixth => vec![
                Interval::MinorSixth,
                Interval::MajorSixth,
                Interval::DiminishedSixth,
                Interval::AugmentedSixth,
            ],
            Degree::Seventh => vec![
                Interval::MinorSeventh,
                Interval::MajorSeventh,
                Interval::DiminishedSeventh,
                Interval::AugmentedSeventh,
            ],
        };
        assert(forall|i: Interval| r@.contains(i) <==> degree.candidates().contains(i)) by {
            assert forall|i: Interval| degree.candidates().contains(i) implies r@.contains(i) by {
                if r@.len() == 4 {
                    assert(i == r@[0] || i == r@[1] || i == r@[2] || i == r@[3]);
                } else {
                    assert(i == r@[0] || i == r@[1] || i == r@[2]);
                }
            }
        }
        r
    }

    /// The scale degree this interval belongs to, or `None` for the tritone.
    pub fn to_degree(&self) -> (r: Option<Degree>)
        ensures
            r == self.spec_to_degree(),
    {
        match self {
            Interval::PerfectUnison => Some(Degree::First),
            Interval::MinorSecond => Some(Degree::Second),
            Interval::MajorSecond => Some(Degree::Second),
            Interval::MinorThird => Some(Degree::Third),
            Interval::MajorThird => Some(Degree::Third),
            Interval::PerfectFourth => Some(Degree::Fourth),
            Interval::PerfectFifth => Some(Degree::Fifth),
            Interval::MinorSixth => Some(Degree::Sixth),
            Interval::MajorSixth => Some(Degree::Sixth),
            Interval::MinorSeventh => Some(Degree::Seventh),
            Interval::MajorSeventh => Some(Degree::Seventh),
            Interval::PerfectOctave => Some(Degree::First),
            Interval::Tritone => None,
            Interval::DiminishedSecond => Some(Degree::Second),
            Interval::DiminishedThird => Some(Degree::Third),
            Interval::DiminishedFourth => Some(Degree::Fourth),
            Interval::DiminishedFifth => Some(Degree::Fifth),
            Interval::DiminishedSixth => Some(Degree::Sixth),
            Interval::DiminishedSeventh => Some(Degree::Seventh),
            Interval::DiminishedOctave => Some(Degree::First),
            Interval::AugmentedUnison => Some(Degree::First),
            Interval::AugmentedSecond => Some(Degree::Second),
            Interval::AugmentedThird => Some(Degree::Third),
            Interval::AugmentedFourth => Some(Degree::Fourth),
            Interval::AugmentedFifth => Some(Degree::Fifth),
            Interval::AugmentedSixth => Some(Degree::Sixth),
            Interval::AugmentedSeventh => Some(Degree::Seventh),
        }
    }

    /// The width of the interval in half steps.
    pub fn semitones(&self) -> (r: usize)
        ensures
            r == self.spec_semitones(),
    {
        match self {
            Interval::PerfectUnison => 0,
            Interval::MinorSecond => 1,
            Interval::MajorSecond => 2,
            Interval::MinorThird => 3,
            Interval::MajorThird => 4,
            Interval::PerfectFourth => 5,
            Interval::DiminishedFifth => 6,
            Interval::PerfectFifth => 7,
            Interval::MinorSixth => 8,
            Interval::MajorSixth => 9,
            Interval::MinorSeventh => 10,
            Interval::MajorSeventh => 11,
            Interval::PerfectOctave => 12,
            Interval::Tritone => 6,
            Interval::DiminishedSecond => 0,
            Interval::DiminishedThird => 2,
            Interval::DiminishedFourth => 4,
            Interval::DiminishedSixth => 7,
            Interval::DiminishedSeventh => 9,
            Interval::DiminishedOctave => 11,
            Interval::AugmentedUnison => 1,
            Interval::AugmentedSecond => 3,
            Interval::AugmentedThird => 5,
            Interval::AugmentedFourth => 6,
            Interval::AugmentedFifth => 8,
            Interval::AugmentedSixth => 10,
            Interval::AugmentedSeventh => 12,
        }
    }

    /// The note this interval above `note` lands on.
    pub fn apply_to_note(&self, note: &Note) -> (r: Note)
        ensures
            r == self.spec_apply_to_note(*note),
    {
        note.semitones_up(self.semitones())
    }
}

/// The candidate sets of the degrees partition every interval but the
/// tritone: an interval lies in the candidate set of exactly the degree
/// that `to_degree` names.
pub proof fn lemma_candidates_partition(i: Interval, d: Degree)
    ensures
        d.candidates().contains(i) <==> i.spec_to_degree() == Some(d),
{
}

} // verus!
