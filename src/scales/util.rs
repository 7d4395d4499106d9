use vstd::prelude::*;

use crate::interval::Interval;
use crate::note::{lemma_transpose_homomorphism, Note};
use crate::scales::diatonic::Mode;

verus! {

/// The notes that `intervals` reach above `key`, in order, followed by
/// `key` again at the octave.
pub open spec fn scale_notes(key: Note, intervals: Seq<Interval>) -> Seq<Note> {
    intervals.map_values(|i: Interval| i.spec_apply_to_note(key)).push(key)
}

/// Applies each interval to `key` in turn and closes the scale on `key`.
pub fn generate_scale(key: Note, intervals: &[Interval]) -> (r: Vec<Note>)
    ensures
        r@ == scale_notes(key, intervals@),
{
    let mut scale: Vec<Note> = Vec::new();
    let mut k: usize = 0;
    while k < intervals.len()
        invariant
            k <= intervals@.len(),
            scale@ == intervals@.take(k as int).map_values(
                |i: Interval| i.spec_apply_to_note(key),
            ),
        decreases intervals@.len() - k,
    {
        scale.push(intervals[k].apply_to_note(&key));
        k = k + 1;
        assert(scale@ =~= intervals@.take(k as int).map_values(
            |i: Interval| i.spec_apply_to_note(key),
        ));
    }
    assert(intervals@.take(k as int) =~= intervals@);
    scale.push(key);
    scale
}

/// The major scale on `key`.
pub fn major(key: Note) -> (r: Vec<Note>)
    ensures
        r@ == scale_notes(key, Mode::Ionian.spec_intervals()),
{
    diatonic_mode(key, Mode::Ionian)
}

/// The natural minor scale on `key`.
pub fn minor(key: Note) -> (r: Vec<Note>)
    ensures
        r@ == scale_notes(key, Mode::Aeolian.spec_intervals()),
{
    diatonic_mode(key, Mode::Aeolian)
}

/// The scale of a mode of the major scale, built on `key`.
pub fn diatonic_mode(key: Note, mode: Mode) -> (r: Vec<Note>)
    ensures
        r@ == scale_notes(key, mode.spec_intervals()),
{
    let intervals = mode.intervals();
    generate_scale(key, intervals.as_slice())
}

/// Stepping each note of a scale back down by the interval that reached it
/// gives the root again, for every degree, and the scale ends on its root.
pub proof fn lemma_scale_round_trip(root: Note, intervals: Seq<Interval>)
    ensures
        scale_notes(root, intervals).len() == intervals.len() + 1,
        scale_notes(root, intervals).last() == root,
        forall|k: int|
            0 <= k < intervals.len() ==> #[trigger] scale_notes(root, intervals)[k].transposed(
                -intervals[k].spec_semitones(),
            ) == root,
{
    assert forall|k: int| 0 <= k < intervals.len() implies #[trigger] scale_notes(
        root,
        intervals,
    )[k].transposed(-intervals[k].spec_semitones()) == root by {
        let s = intervals[k].spec_semitones();
        lemma_transpose_homomorphism(root, s, -s);
    }
}

} // verus!
