use music_study::interval::Interval;
use music_study::note::Note::{Ab, Bb, Db, Eb, Gb, A, B, C, D, E, F, G};
use music_study::scales::Degree;

#[test]
fn interval_perfect_unison() {
    assert_eq!(C.semitones_up(Interval::PerfectUnison.semitones()), C);
    assert_eq!(Interval::PerfectUnison.apply_to_note(&C), C);
}

#[test]
fn interval_perfect_octave() {
    assert_eq!(C.semitones_up(Interval::PerfectOctave.semitones()), C);
    assert_eq!(Interval::PerfectOctave.apply_to_note(&C), C);
}

#[test]
fn interval_diminished_second() {
    assert_eq!(C.semitones_up(Interval::DiminishedSecond.semitones()), C);
    assert_eq!(Interval::DiminishedSecond.apply_to_note(&C), C);
}

#[test]
fn interval_augmented_seventh() {
    assert_eq!(C.semitones_up(Interval::AugmentedSeventh.semitones()), C);
    assert_eq!(Interval::AugmentedSeventh.apply_to_note(&C), C);
}

#[test]
fn interval_minor_second() {
    assert_eq!(C.semitones_up(Interval::MinorSecond.semitones()), Db);
    assert_eq!(Interval::MinorSecond.apply_to_note(&C), Db);
}

#[test]
fn interval_augmented_unison() {
    assert_eq!(C.semitones_up(Interval::AugmentedUnison.semitones()), Db);
    assert_eq!(Interval::AugmentedUnison.apply_to_note(&C), Db);
}

#[test]
fn interval_major_second() {
    assert_eq!(C.semitones_up(Interval::MajorSecond.semitones()), D);
    assert_eq!(Interval::MajorSecond.apply_to_note(&C), D);
}

#[test]
fn interval_diminished_third() {
    assert_eq!(C.semitones_up(Interval::DiminishedThird.semitones()), D);
    assert_eq!(Interval::DiminishedThird.apply_to_note(&C), D);
}

#[test]
fn interval_minor_third() {
    assert_eq!(C.semitones_up(Interval::MinorThird.semitones()), Eb);
    assert_eq!(Interval::MinorThird.apply_to_note(&C), Eb);
}

#[test]
fn interval_augmented_second() {
    assert_eq!(C.semitones_up(Interval::AugmentedSecond.semitones()), Eb);
    assert_eq!(Interval::AugmentedSecond.apply_to_note(&C), Eb);
}

#[test]
fn interval_major_third() {
    assert_eq!(C.semitones_up(Interval::MajorThird.semitones()), E);
    assert_eq!(Interval::MajorThird.apply_to_note(&C), E);
}

#[test]
fn interval_diminished_fourth() {
    assert_eq!(C.semitones_up(Interval::DiminishedFourth.semitones()), E);
    assert_eq!(Interval::DiminishedFourth.apply_to_note(&C), E);
}

#[test]
fn interval_perfect_fourth() {
    assert_eq!(C.semitones_up(Interval::PerfectFourth.semitones()), F);
    assert_eq!(Interval::PerfectFourth.apply_to_note(&C), F);
}

#[test]
fn interval_tritone() {
    assert_eq!(C.semitones_up(Interval::Tritone.semitones()), Gb);
    assert_eq!(Interval::Tritone.apply_to_note(&C), Gb);
}

#[test]
fn interval_diminished_fifth() {
    assert_eq!(C.semitones_up(Interval::DiminishedFifth.semitones()), Gb);
    assert_eq!(Interval::DiminishedFifth.apply_to_note(&C), Gb);
}

#[test]
fn interval_augmented_fourth() {
    assert_eq!(C.semitones_up(Interval::AugmentedFourth.semitones()), Gb);
    assert_eq!(Interval::AugmentedFourth.apply_to_note(&C), Gb);
}

#[test]
fn interval_perfect_fifth() {
    assert_eq!(C.semitones_up(Interval::PerfectFifth.semitones()), G);
    assert_eq!(Interval::PerfectFifth.apply_to_note(&C), G);
}

#[test]
fn interval_diminished_sixth() {
    assert_eq!(C.semitones_up(Interval::DiminishedSixth.semitones()), G);
    assert_eq!(Interval::DiminishedSixth.apply_to_note(&C), G);
}

#[test]
fn interval_minor_sixth() {
    assert_eq!(C.semitones_up(Interval::MinorSixth.semitones()), Ab);
    assert_eq!(Interval::MinorSixth.apply_to_note(&C), Ab);
}

#[test]
fn interval_augmented_fifth() {
    assert_eq!(C.semitones_up(Interval::AugmentedFifth.semitones()), Ab);
    assert_eq!(Interval::AugmentedFifth.apply_to_note(&C), Ab);
}

#[test]
fn interval_major_sixth() {
    assert_eq!(C.semitones_up(Interval::MajorSixth.semitones()), A);
    assert_eq!(Interval::MajorSixth.apply_to_note(&C), A);
}

#[test]
fn interval_diminished_seventh() {
    assert_eq!(C.semitones_up(Interval::DiminishedSeventh.semitones()), A);
    assert_eq!(Interval::DiminishedSeventh.apply_to_note(&C), A);
}

#[test]
fn interval_minor_seventh() {
    assert_eq!(C.semitones_up(Interval::MinorSeventh.semitones()), Bb);
    assert_eq!(Interval::MinorSeventh.apply_to_note(&C), Bb);
}

#[test]
fn interval_augmented_sixth() {
    assert_eq!(C.semitones_up(Interval::AugmentedSixth.semitones()), Bb);
    assert_eq!(Interval::AugmentedSixth.apply_to_note(&C), Bb);
}

#[test]
fn interval_major_seventh() {
    assert_eq!(C.semitones_up(Interval::MajorSeventh.semitones()), B);
    assert_eq!(Interval::MajorSeventh.apply_to_note(&C), B);
}

#[test]
fn interval_diminished_octave() {
    assert_eq!(C.semitones_up(Interval::DiminishedOctave.semitones()), B);
    assert_eq!(Interval::DiminishedOctave.apply_to_note(&C), B);
}

#[test]
fn degree_first_0() {
    assert_eq!(Degree::First.interval(0), Some(Interval::PerfectUnison));
    assert_eq!(Interval::PerfectUnison.semitones(), 0);
}

#[test]
fn degree_second_0() {
    assert_eq!(Degree::Second.interval(0), Some(Interval::DiminishedSecond));
    assert_eq!(Interval::DiminishedSecond.semitones(), 0);
}

#[test]
fn degree_second_1() {
    assert_eq!(Degree::Second.interval(1), Some(Interval::MinorSecond));
    assert_eq!(Interval::MinorSecond.semitones(), 1);
}

#[test]
fn degree_second_2() {
    assert_eq!(Degree::Second.interval(2), Some(Interval::MajorSecond));
    assert_eq!(Interval::MajorSecond.semitones(), 2);
}

#[test]
fn degree_second_3() {
    assert_eq!(Degree::Second.interval(3), Some(Interval::AugmentedSecond));
    assert_eq!(Interval::AugmentedSecond.semitones(), 3);
}

#[test]
fn degree_third_2() {
    assert_eq!(Degree::Third.interval(2), Some(Interval::DiminishedThird));
    assert_eq!(Interval::DiminishedThird.semitones(), 2);
}

#[test]
fn degree_third_3() {
    assert_eq!(Degree::Third.interval(3), Some(Interval::MinorThird));
    assert_eq!(Interval::MinorThird.semitones(), 3);
}

#[test]
fn degree_third_4() {
    assert_eq!(Degree::Third.interval(4), Some(Interval::MajorThird));
    assert_eq!(Interval::MajorThird.semitones(), 4);
}

#[test]
fn degree_third_5() {
    assert_eq!(Degree::Third.interval(5), Some(Interval::AugmentedThird));
    assert_eq!(Interval::AugmentedThird.semitones(), 5);
}

#[test]
fn degree_fourth_4() {
    assert_eq!(Degree::Fourth.interval(4), Some(Interval::DiminishedFourth));
    assert_eq!(Interval::DiminishedFourth.semitones(), 4);
}

#[test]
fn degree_fourth_5() {
    assert_eq!(Degree::Fourth.interval(5), Some(Interval::PerfectFourth));
    assert_eq!(Interval::PerfectFourth.semitones(), 5);
}

#[test]
fn degree_fourth_6() {
    assert_eq!(Degree::Fourth.interval(6), Some(Interval::AugmentedFourth));
    assert_eq!(Interval::AugmentedFourth.semitones(), 6);
}

#[test]
fn degree_fifth_6() {
    assert_eq!(Degree::Fifth.interval(6), Some(Interval::DiminishedFifth));
    assert_eq!(Interval::DiminishedFifth.semitones(), 6);
}

#[test]
fn degree_fifth_7() {
    assert_eq!(Degree::Fifth.interval(7), Some(Interval::PerfectFifth));
    assert_eq!(Interval::PerfectFifth.semitones(), 7);
}

#[test]
fn degree_fifth_8() {
    assert_eq!(Degree::Fifth.interval(8), Some(Interval::AugmentedFifth));
    assert_eq!(Interval::AugmentedFifth.semitones(), 8);
}

#[test]
fn degree_sixth_7() {
    assert_eq!(Degree::Sixth.interval(7), Some(Interval::DiminishedSixth));
    assert_eq!(Interval::DiminishedSixth.semitones(), 7);
}

#[test]
fn degree_sixth_8() {
    assert_eq!(Degree::Sixth.interval(8), Some(Interval::MinorSixth));
    assert_eq!(Interval::MinorSixth.semitones(), 8);
}

#[test]
fn degree_sixth_9() {
    assert_eq!(Degree::Sixth.interval(9), Some(Interval::MajorSixth));
    assert_eq!(Interval::MajorSixth.semitones(), 9);
}

#[test]
fn degree_sixth_10() {
    assert_eq!(Degree::Sixth.interval(10), Some(Interval::AugmentedSixth));
    assert_eq!(Interval::AugmentedSixth.semitones(), 10);
}

#[test]
fn degree_seventh_9() {
    assert_eq!(Degree::Seventh.interval(9), Some(Interval::DiminishedSeventh));
    assert_eq!(Interval::DiminishedSeventh.semitones(), 9);
}

#[test]
fn degree_seventh_10() {
    assert_eq!(Degree::Seventh.interval(10), Some(Interval::MinorSeventh));
    assert_eq!(Interval::MinorSeventh.semitones(), 10);
}

#[test]
fn degree_seventh_11() {
    assert_eq!(Degree::Seventh.interval(11), Some(Interval::MajorSeventh));
    assert_eq!(Interval::MajorSeventh.semitones(), 11);
}

#[test]
fn degree_seventh_12() {
    assert_eq!(Degree::Seventh.interval(12), Some(Interval::AugmentedSeventh));
    assert_eq!(Interval::AugmentedSeventh.semitones(), 12);
}

#[test]
fn degree_without_candidate() {
    assert_eq!(Degree::First.interval(2), None);
    assert_eq!(Degree::Second.interval(4), None);
    assert_eq!(Degree::Fourth.interval(7), None);
    assert_eq!(Degree::Fifth.interval(5), None);
    assert_eq!(Degree::Seventh.interval(8), None);
    assert_eq!(Degree::Third.interval(100), None);
}

#[test]
fn tritone_named_by_degree() {
    assert_eq!(Degree::Fourth.interval(6), Some(Interval::AugmentedFourth));
    assert_eq!(Degree::Fifth.interval(6), Some(Interval::DiminishedFifth));
    assert_eq!(Interval::Tritone.to_degree(), None);
}

#[test]
fn first_degree_octave_names() {
    assert_eq!(Degree::First.interval(1), Some(Interval::AugmentedUnison));
    assert_eq!(Degree::First.interval(11), Some(Interval::DiminishedOctave));
    assert_eq!(Degree::First.interval(12), Some(Interval::PerfectOctave));
}

#[test]
fn degree_numbers_and_order() {
    let all = Degree::array();
    assert_eq!(
        all,
        [
            Degree::First,
            Degree::Second,
            Degree::Third,
            Degree::Fourth,
            Degree::Fifth,
            Degree::Sixth,
            Degree::Seventh,
        ]
    );
    for (k, d) in all.iter().enumerate() {
        assert_eq!(d.as_number(), k + 1);
    }
}

const ALL_INTERVALS: [Interval; 27] = [
    Interval::PerfectUnison,
    Interval::MinorSecond,
    Interval::MajorSecond,
    Interval::MinorThird,
    Interval::MajorThird,
    Interval::PerfectFourth,
    Interval::PerfectFifth,
    Interval::MinorSixth,
    Interval::MajorSixth,
    Interval::MinorSeventh,
    Interval::MajorSeventh,
    Interval::PerfectOctave,
    Interval::Tritone,
    Interval::DiminishedSecond,
    Interval::DiminishedThird,
    Interval::DiminishedFourth,
    Interval::DiminishedFifth,
    Interval::DiminishedSixth,
    Interval::DiminishedSeventh,
    Interval::DiminishedOctave,
    Interval::AugmentedUnison,
    Interval::AugmentedSecond,
    Interval::AugmentedThird,
    Interval::AugmentedFourth,
    Interval::AugmentedFifth,
    Interval::AugmentedSixth,
    Interval::AugmentedSeventh,
];

#[test]
fn candidate_sets_partition_intervals() {
    for i in ALL_INTERVALS {
        let owners: Vec<Degree> = Degree::array()
            .into_iter()
            .filter(|d| Interval::for_degree(d).contains(&i))
            .collect();
        match i.to_degree() {
            Some(d) => assert_eq!(owners, vec![d]),
            None => {
                assert_eq!(i, Interval::Tritone);
                assert!(owners.is_empty());
            }
        }
    }
}

#[test]
fn candidates_of_third() {
    let mut third = Interval::for_degree(&Degree::Third);
    third.sort_by_key(|i| i.semitones());
    assert_eq!(
        third,
        vec![
            Interval::DiminishedThird,
            Interval::MinorThird,
            Interval::MajorThird,
            Interval::AugmentedThird,
        ]
    );
}

#[test]
fn to_degree_examples() {
    assert_eq!(Interval::MajorThird.to_degree(), Some(Degree::Third));
    assert_eq!(Interval::DiminishedFifth.to_degree(), Some(Degree::Fifth));
    assert_eq!(Interval::AugmentedFourth.to_degree(), Some(Degree::Fourth));
    assert_eq!(Interval::PerfectOctave.to_degree(), Some(Degree::First));
    assert_eq!(Interval::AugmentedSeventh.to_degree(), Some(Degree::Seventh));
}
