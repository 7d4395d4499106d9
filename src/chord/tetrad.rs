use vstd::prelude::*;

use crate::interval::Interval;

verus! {

/// The qualities of a four-note seventh chord in root position.
#[derive(Clone, Copy, Debug, PartialEq, Eq, Structural)]
pub enum Tetrad {
    Major7,
    Dominant,
    Minor7,
    MinorMajor7,
    Minor7Flat5,
    Diminished7,
}

impl Tetrad {
    /// The intervals of the chord's notes above its root.
    pub open spec fn spec_intervals(self) -> Seq<Interval> {
        match self {
            Tetrad::Major7 => seq![
                Interval::PerfectUnison,
                Interval::MajorThird,
                Interval::PerfectFifth,
                Interval::MajorSeventh,
            ],
            Tetrad::Dominant => seq![
                Interval::PerfectUnison,
                Interval::MajorThird,
                Interval::PerfectFifth,
                Interval::MinorSeventh,
            ],
            Tetrad::Minor7 => seq![
                Interval::PerfectUnison,
                Interval::MinorThird,
                Interval::PerfectFifth,
                Interval::MinorSeventh,
            ],
            Tetrad::MinorMajor7 => seq![
                Interval::PerfectUnison,
                Interval::MinorThird,
                Interval::PerfectFifth,
                Interval::MajorSeventh,
            ],
            Tetrad::Minor7Flat5 => seq![
                Interval::PerfectUnison,
                Interval::MinorThird,
                Interval::DiminishedFifth,
                Interval::MinorSeventh,
            ],
            Tetrad::Diminished7 => seq![
                Interval::PerfectUnison,
                Interval::MinorThird,
                Interval::DiminishedFifth,
                Interval::DiminishedSeventh,
            ],
        }
    }

    /// The intervals of the chord's notes above its root, lowest first.
    pub fn intervals(&self) -> (r: [Interval; 4])
        ensures
            r@ == self.spec_intervals(),
    {
        let r = match self {
            Tetrad::Major7 => [
                Interval::PerfectUnison,
                Interval::MajorThird,
                Interval::PerfectFifth,
                Interval::MajorSeventh,
            ],
            Tetrad::Dominant => [
                Interval::PerfectUnison,
                Interval::MajorThird,
                Interval::PerfectFifth,
                Interval::MinorSeventh,
            ],
            Tetrad::Minor7 => [
                Interval::PerfectUnison,
                Interval::MinorThird,
                Interval::PerfectFifth,
                Interval::MinorSeventh,
            ],
            Tetrad::MinorMajor7 => [
                Interval::PerfectUnison,
                Interval::MinorThird,
                Interval::PerfectFifth,
                Interval::MajorSeventh,
            ],
            Tetrad::Minor7Flat5 => [
                Interval::PerfectUnison,
                Interval::MinorThird,
                Interval::DiminishedFifth,
                Interval::MinorSeventh,
            ],
            Tetrad::Diminished7 => [
                Interval::PerfectUnison,
                Interval::MinorThird,
                Interval::DiminishedFifth,
                Interval::DiminishedSeventh,
            ],
        };
        assert(r@ =~= self.spec_intervals());
        r
    }
}

} // verus!
