use vstd::prelude::*;

use crate::interval::Interval;
use crate::note::Note;
use tetrad::Tetrad;
use triad::Triad;

pub mod tetrad;
pub mod triad;

verus! {

/// The notes that `intervals` reach above `root`, in order.
pub open spec fn chord_notes(root: Note, intervals: Seq<Interval>) -> Seq<Note> {
    intervals.map_values(|i: Interval| i.spec_apply_to_note(root))
}

/// The major triad on `root`.
pub fn major(root: Note) -> (r: [Note; 3])
    ensures
        r@ == chord_notes(root, Triad::Major.spec_intervals()),
{
    triad_notes(Triad::Major, root)
}

/// The minor triad on `root`.
pub fn minor(root: Note) -> (r: [Note; 3])
    ensures
        r@ == chord_notes(root, Triad::Minor.spec_intervals()),
{
    triad_notes(Triad::Minor, root)
}

/// The augmented triad on `root`.
pub fn augmented(root: Note) -> (r: [Note; 3])
    ensures
        r@ == chord_notes(root, Triad::Augmented.spec_intervals()),
{
    triad_notes(Triad::Augmented, root)
}

/// The diminished triad on `root`.
pub fn diminished(root: Note) -> (r: [Note; 3])
    ensures
        r@ == chord_notes(root, Triad::Diminished.spec_intervals()),
{
    triad_notes(Triad::Diminished, root)
}

/// The suspended-second chord on `root`.
pub fn sus2(root: Note) -> (r: [Note; 3])
    ensures
        r@ == chord_notes(root, Triad::Sus2.spec_intervals()),
{
    triad_notes(Triad::Sus2, root)
}

/// The suspended-fourth chord on `root`.
pub fn sus4(root: Note) -> (r: [Note; 3])
    ensures
        r@ == chord_notes(root, Triad::Sus4.spec_intervals()),
{
    triad_notes(Triad::Sus4, root)
}

/// The notes of a triad of the given quality on `root`, lowest first.
pub fn triad_notes(triad: Triad, root: Note) -> (r: [Note; 3])
    ensures
        r@ == chord_notes(root, triad.spec_intervals()),
{
    let ints = triad.intervals();
    let r = [ints[0].apply_to_note(&root), ints[1].apply_to_note(&root), ints[2].apply_to_note(&root)];
    assert(r@ =~= chord_notes(root, triad.spec_intervals()));
    r
}

/// The notes of a seventh chord of the given quality on `root`, lowest
/// first.
pub fn tetrad_notes(tetrad: Tetrad, root: Note) -> (r: [Note; 4])
    ensures
        r@ == chord_notes(root, tetrad.spec_intervals()),
{
    let ints = tetrad.intervals();
    let r = [
        ints[0].apply_to_note(&root),
        ints[1].apply_to_note(&root),
        ints[2].apply_to_note(&root),
        ints[3].apply_to_note(&root),
    ];
    assert(r@ =~= chord_notes(root, tetrad.spec_intervals()));
    r
}

} // verus!
