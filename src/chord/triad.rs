use vstd::prelude::*;

use crate::interval::Interval;

verus! {

/// The qualities of a three-note chord in root position.
#[derive(Clone, Copy, Debug, PartialEq, Eq, Structural)]
pub enum Triad {
    Major,
    Minor,
    Diminished,
    Augmented,
    Sus4,
    Sus2,
}

impl Triad {
    /// The intervals of the chord's notes above its root.
    pub open spec fn spec_intervals(self) -> Seq<Interval> {
        match self {
            Triad::Major => seq![
                Interval::PerfectUnison,
                Interval::MajorThird,
                Interval::PerfectFifth,
            ],
            Triad::Minor => seq![
                Interval::PerfectUnison,
                Interval::MinorThird,
                Interval::PerfectFifth,
            ],
            Triad::Diminished => seq![
                Interval::PerfectUnison,
                Interval::MinorThird,
                Interval::DiminishedFifth,
            ],
            Triad::Augmented => seq![
                Interval::PerfectUnison,
                Interval::MajorThird,
                Interval::AugmentedFifth,
            ],
            Triad::Sus4 => seq![
                Interval::PerfectUnison,
                Interval::AugmentedThird,
                Interval::PerfectFifth,
            ],
            Triad::Sus2 => seq![
                Interval::PerfectUnison,
                Interval::DiminishedThird,
                Interval::PerfectFifth,
            ],
        }
    }

    /// The intervals of the chord's notes above its root, lowest first.
    pub fn intervals(&self) -> (r: [Interval; 3])
        ensures
            r@ == self.spec_intervals(),
    {
        let r = match self {
            Triad::Major => [
                Interval::PerfectUnison,
                Interval::MajorThird,
                Interval::PerfectFifth,
            ],
            Triad::Minor => [
                Interval::PerfectUnison,
                Interval::MinorThird,
                Interval::PerfectFifth,
            ],
            Triad::Diminished => [
                Interval::PerfectUnison,
                Interval::MinorThird,
                Interval::DiminishedFifth,
            ],
            Triad::Augmented => [
                Interval::PerfectUnison,
                Interval::MajorThird,
                Interval::AugmentedFifth,
            ],
            Triad::Sus4 => [
                Interval::PerfectUnison,
                Interval::AugmentedThird,
                Interval::PerfectFifth,
            ],
            Triad::Sus2 => [
                Interval::PerfectUnison,
                Interval::DiminishedThird,
                Interval::PerfectFifth,
            ],
        };
        assert(r@ =~= self.spec_intervals());
        r
    }
}

} // verus!
