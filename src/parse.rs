use vstd::prelude::*;
use vstd::string::*;

use crate::interval::Interval;
use crate::note::Note;
use crate::scales::{diatonic, harmonic_minor};

verus! {

/// What `str::to_uppercase` makes of a text.
pub uninterp spec fn upper_of(s: Seq<char>) -> Seq<char>;

/// What `str::to_lowercase` makes of a text.
pub uninterp spec fn lower_of(s: Seq<char>) -> Seq<char>;

/// Relies on `str::to_uppercase`: the upper-case mapping of each character,
/// which depends on the characters alone.
#[verifier::external_body]
fn uppercase(s: &str) -> (r: String)
    ensures
        r@ == upper_of(s@),
{
    s.to_uppercase()
}

/// Relies on `str::to_lowercase`: the lower-case mapping of each character,
/// which depends on the characters alone.
#[verifier::external_body]
fn lowercase(s: &str) -> (r: String)
    ensures
        r@ == lower_of(s@),
{
    s.to_lowercase()
}

/// The note that an upper-case token spells, sharp and flat spellings
/// alike.
pub open spec fn note_named(u: Seq<char>) -> Option<Note> {
    if u == "C"@ {
        Some(Note::C)
    } else if u == "C#"@ || u == "DB"@ {
        Some(Note::Db)
    } else if u == "D"@ {
        Some(Note::D)
    } else if u == "D#"@ || u == "EB"@ {
        Some(Note::Eb)
    } else if u == "E"@ {
        Some(Note::E)
    } else if u == "F"@ {
        Some(Note::F)
    } else if u == "F#"@ || u == "GB"@ {
        Some(Note::Gb)
    } else if u == "G"@ {
        Some(Note::G)
    } else if u == "G#"@ || u == "AB"@ {
        Some(Note::Ab)
    } else if u == "A"@ {
        Some(Note::A)
    } else if u == "A#"@ || u == "BB"@ {
        Some(Note::Bb)
    } else if u == "B"@ {
        Some(Note::B)
    } else {
        None
    }
}

/// The mode of the major scale that a lower-case name denotes.
pub open spec fn diatonic_named(l: Seq<char>) -> Option<diatonic::Mode> {
    if l == "major"@ || l == "ionian"@ {
        Some(diatonic::Mode::Ionian)
    } else if l == "dorian"@ {
        Some(diatonic::Mode::Dorian)
    } else if l == "phrygian"@ {
        Some(diatonic::Mode::Phrygian)
    } else if l == "lydian"@ {
        Some(diatonic::Mode::Lydian)
    } else if l == "mixolydian"@ {
        Some(diatonic::Mode::Mixolydian)
    } else if l == "minor"@ || l == "aeolian"@ {
        Some(diatonic::Mode::Aeolian)
    } else if l == "locrian"@ {
        Some(diatonic::Mode::Locrian)
    } else {
        None
    }
}

/// The mode of the harmonic minor scale that a lower-case name denotes; a
/// space or a hyphen separates the words.
pub open spec fn harmonic_minor_named(l: Seq<char>) -> Option<harmonic_minor::Mode> {
    if l == "harmonic minor"@ || l == "harmonic-minor"@ {
        Some(harmonic_minor::Mode::HarmonicMinor)
    } else if l == "locrian maj6"@ || l == "locrian-maj6"@ || l == "locrian major6"@ || l
        == "locrian-major6"@ {
        Some(harmonic_minor::Mode::LocrianMaj6)
    } else if l == "ionian #5"@ || l == "ionian-#5"@ || l == "ionian aug5"@ || l
        == "ionian-aug5"@ {
        Some(harmonic_minor::Mode::IonianAug5)
    } else if l == "dorian lydian"@ || l == "dorian-lydian"@ || l == "dorian #4"@ || l
        == "dorian-#4"@ {
        Some(harmonic_minor::Mode::DorianLydian)
    } else if l == "phrygian dominant"@ || l == "phrygian-dominant"@ || l == "phrygian maj3"@
        || l == "phrygian-maj3"@ {
        Some(harmonic_minor::Mode::PhrygianDominant)
    } else if l == "lydian #2"@ || l == "lydian-#2"@ || l == "lydian aug2"@ || l
        == "lydian-aug2"@ {
        Some(harmonic_minor::Mode::LydianAug2)
    } else if l == "superlocrian"@ || l == "super locrian"@ || l == "super-locrian"@ {
        Some(harmonic_minor::Mode::SuperLocrian)
    } else {
        None
    }
}

/// The intervals of the scale that a lower-case name denotes.
pub open spec fn scale_named(l: Seq<char>) -> Option<Seq<Interval>> {
    match diatonic_named(l) {
        Some(m) => Some(m.spec_intervals()),
        None => match harmonic_minor_named(l) {
            Some(m) => Some(m.spec_intervals()),
            None => None,
        },
    }
}

/// Whether two texts hold the same characters.
fn same_text(a: &str, b: &str) -> (r: bool)
    ensures
        r == (a@ == b@),
{
    let n = a.unicode_len();
    if n != b.unicode_len() {
        return false;
    }
    let mut k: usize = 0;
    while k < n
        invariant
            n == a@.len(),
            n == b@.len(),
            k <= n,
            forall|j: int| 0 <= j < k ==> a@[j] == b@[j],
        decreases n - k,
    {
        if a.get_char(k) != b.get_char(k) {
            return false;
        }
        k = k + 1;
    }
    assert(a@ =~= b@);
    true
}

/// Reads a note from a token already in upper case; an unknown token gives
/// the message `Invalid note <token>`.
pub fn note_from_upper(u: &str) -> (r: Result<Note, String>)
    ensures
        match note_named(u@) {
            Some(n) => r == Ok::<Note, String>(n),
            None => r matches Err(e) && e@ == "Invalid note "@ + u@,
        },
{
    if same_text(u, "C") {
        Ok(Note::C)
    } else if same_text(u, "C#") || same_text(u, "DB") {
        Ok(Note::Db)
    } else if same_text(u, "D") {
        Ok(Note::D)
    } else if same_text(u, "D#") || same_text(u, "EB") {
        Ok(Note::Eb)
    } else if same_text(u, "E") {
        Ok(Note::E)
    } else if same_text(u, "F") {
        Ok(Note::F)
    } else if same_text(u, "F#") || same_text(u, "GB") {
        Ok(Note::Gb)
    } else if same_text(u, "G") {
        Ok(Note::G)
    } else if same_text(u, "G#") || same_text(u, "AB") {
        Ok(Note::Ab)
    } else if same_text(u, "A") {
        Ok(Note::A)
    } else if same_text(u, "A#") || same_text(u, "BB") {
        Ok(Note::Bb)
    } else if same_text(u, "B") {
        Ok(Note::B)
    } else {
        Err(String::from_str("Invalid note ").concat(u))
    }
}

/// Reads a note token in any letter case, such as `c`, `F#` or `Bb`.
pub fn parse_note(s: &str) -> (r: Result<Note, String>)
    ensures
        match note_named(upper_of(s@)) {
            Some(n) => r == Ok::<Note, String>(n),
            None => r matches Err(e) && e@ == "Invalid note "@ + upper_of(s@),
        },
{
    let u = uppercase(s);
    note_from_upper(u.as_str())
}

fn diatonic_from_lower(l: &str) -> (r: Option<diatonic::Mode>)
    ensures
        r == diatonic_named(l@),
{
    if same_text(l, "major") || same_text(l, "ionian") {
        Some(diatonic::Mode::Ionian)
    } else if same_text(l, "dorian") {
        Some(diatonic::Mode::Dorian)
    } else if same_text(l, "phrygian") {
        Some(diatonic::Mode::Phrygian)
    } else if same_text(l, "lydian") {
        Some(diatonic::Mode::Lydian)
    } else if same_text(l, "mixolydian") {
        Some(diatonic::Mode::Mixolydian)
    } else if same_text(l, "minor") || same_text(l, "aeolian") {
        Some(diatonic::Mode::Aeolian)
    } else if same_text(l, "locrian") {
        Some(diatonic::Mode::Locrian)
    } else {
        None
    }
}

fn harmonic_minor_from_lower(l: &str) -> (r: Option<harmonic_minor::Mode>)
    ensures
        r == harmonic_minor_named(l@),
{
    if same_text(l, "harmonic minor") || same_text(l, "harmonic-minor") {
        Some(harmonic_minor::Mode::HarmonicMinor)
    } else if same_text(l, "locrian maj6") || same_text(l, "locrian-maj6") || same_text(
        l,
        "locrian major6",
    ) || same_text(l, "locrian-major6") {
        Some(harmonic_minor::Mode::LocrianMaj6)
    } else if same_text(l, "ionian #5") || same_text(l, "ionian-#5") || same_text(
        l,
        "ionian aug5",
    ) || same_text(l, "ionian-aug5") {
        Some(harmonic_minor::Mode::IonianAug5)
    } else if same_text(l, "dorian lydian") || same_text(l, "dorian-lydian") || same_text(
        l,
        "dorian #4",
    ) || same_text(l, "dorian-#4") {
        Some(harmonic_minor::Mode::DorianLydian)
    } else if same_text(l, "phrygian dominant") || same_text(l, "phrygian-dominant") || same_text(
        l,
        "phrygian maj3",
    ) || same_text(l, "phrygian-maj3") {
        Some(harmonic_minor::Mode::PhrygianDominant)
    } else if same_text(l, "lydian #2") || same_text(l, "lydian-#2") || same_text(
        l,
        "lydian aug2",
    ) || same_text(l, "lydian-aug2") {
        Some(harmonic_minor::Mode::LydianAug2)
    } else if same_text(l, "superlocrian") || same_text(l, "super locrian") || same_text(
        l,
        "super-locrian",
    ) {
        Some(harmonic_minor::Mode::SuperLocrian)
    } else {
        None
    }
}

fn interval_vec(ints: &[Interval]) -> (r: Vec<Interval>)
    ensures
        r@ == ints@,
{
    let mut r: Vec<Interval> = Vec::new();
    let mut k: usize = 0;
    while k < ints.len()
        invariant
            k <= ints@.len(),
            r@ == ints@.take(k as int),
        decreases ints@.len() - k,
    {
        r.push(ints[k]);
        k = k + 1;
        assert(r@ =~= ints@.take(k as int));
    }
    assert(ints@.take(k as int) =~= ints@);
    r
}

/// Reads a scale name already in lower case and gives the intervals of its
/// seven degrees; an unknown name gives the message
/// `Unrecognizable scale <name>`.
pub fn scale_from_lower(l: &str) -> (r: Result<Vec<Interval>, String>)
    ensures
        match scale_named(l@) {
            Some(ints) => r matches Ok(v) && v@ == ints,
            None => r matches Err(e) && e@ == "Unrecognizable scale "@ + l@,
        },
{
    if let Some(mode) = diatonic_from_lower(l) {
        Ok(interval_vec(mode.intervals().as_slice()))
    } else if let Some(mode) = harmonic_minor_from_lower(l) {
        Ok(interval_vec(mode.intervals().as_slice()))
    } else {
        Err(String::from_str("Unrecognizable scale ").concat(l))
    }
}

/// Reads a scale name in any letter case, such as `major`, `Dorian` or
/// `phrygian-dominant`, and gives the intervals of its seven degrees.
pub fn parse_scale(s: &str) -> (r: Result<Vec<Interval>, String>)
    ensures
        match scale_named(lower_of(s@)) {
            Some(ints) => r matches Ok(v) && v@ == ints,
            None => r matches Err(e) && e@ == "Unrecognizable scale "@ + lower_of(s@),
        },
{
    let l = lowercase(s);
    scale_from_lower(l.as_str())
}

} // verus!
