use vstd::prelude::*;

verus! {

/// A pitch class of the chromatic scale, spelled with the flat name for
/// each black key.
#[derive(Clone, Copy, Debug, PartialEq, Eq, Structural)]
pub enum Note {
    C,
    Db,
    D,
    Eb,
    E,
    F,
    Gb,
    G,
    Ab,
    A,
    Bb,
    B,
}

impl Note {
    /// The number of half steps from C up to this pitch class, in `0..12`.
    pub open spec fn pitch(self) -> int {
        match self {
            Note::C => 0,
            Note::Db => 1,
            Note::D => 2,
            Note::Eb => 3,
            Note::E => 4,
            Note::F => 5,
            Note::Gb => 6,
            Note::G => 7,
            Note::Ab => 8,
            Note::A => 9,
            Note::Bb => 10,
            Note::B => 11,
        }
    }

    /// The pitch class that lies `n` half steps above C, for any integer `n`.
    pub open spec fn from_pitch(n: int) -> Note {
        let p = n % 12;
        if p == 0 {
            Note::C
        } else if p == 1 {
            Note::Db
        } else if p == 2 {
            Note::D
        } else if p == 3 {
            Note::Eb
        } else if p == 4 {
            Note::E
        } else if p == 5 {
            Note::F
        } else if p == 6 {
            Note::Gb
        } else if p == 7 {
            Note::G
        } else if p == 8 {
            Note::Ab
        } else if p == 9 {
            Note::A
        } else if p == 10 {
            Note::Bb
        } else {
            Note::B
        }
    }

    /// This pitch class moved `n` half steps up the chromatic cycle (down
    /// for a negative `n`).
    pub open spec fn transposed(self, n: int) -> Note {
        Note::from_pitch(self.pitch() + n)
    }

    fn semitones_from_c(&self) -> (r: usize)
        ensures
            r == self.pitch(),
    {
        match self {
            Note::C => 0,
            Note::Db => 1,
            Note::D => 2,
            Note::Eb => 3,
            Note::E => 4,
            Note::F => 5,
            Note::Gb => 6,
            Note::G => 7,
            Note::Ab => 8,
            Note::A => 9,
            Note::Bb => 10,
            Note::B => 11,
        }
    }

    /// The pitch class `semitones` half steps above this one.
    pub fn semitones_up(&self, semitones: usize) -> (r: Note)
        ensures
            r == self.transposed(semitones as int),
    {
        let n = semitones_to_c(self.semitones_from_c() + semitones % 12);
        proof {
            lemma_from_pitch_mod(self.pitch() + semitones, self.pitch() + semitones % 12);
        }
        n
    }

    /// The pitch class `semitones` half steps above this one, or below it
    /// when `semitones` is negative.
    pub fn semitones(&self, semitones: isize) -> (r: Note)
        ensures
            r == self.transposed(semitones as int),
    {
        let corrected: usize = (12 + (semitones % 12)) as usize;
        let n = self.semitones_up(corrected);
        proof {
            lemma_from_pitch_mod(self.pitch() + semitones, self.pitch() + corrected);
        }
        n
    }
}

/// Transposition is a group action of the integers on pitch classes:
/// moving by `a` and then by `b` is moving by `a + b`, and moving by zero
/// or by a whole octave changes nothing.
pub proof fn lemma_transpose_homomorphism(p: Note, a: int, b: int)
    ensures
        p.transposed(a).transposed(b) == p.transposed(a + b),
        p.transposed(0) == p,
        p.transposed(12) == p,
{
    lemma_pitch_of_from_pitch(p.pitch() + a);
    lemma_from_pitch_mod(p.transposed(a).pitch() + b, p.pitch() + a + b);
    lemma_from_pitch_of_pitch(p);
    lemma_from_pitch_mod(p.pitch() + 12, p.pitch());
}

/// `from_pitch` reads its argument modulo 12.
proof fn lemma_pitch_of_from_pitch(n: int)
    ensures
        Note::from_pitch(n).pitch() == n % 12,
{
}

proof fn lemma_from_pitch_of_pitch(p: Note)
    ensures
        Note::from_pitch(p.pitch()) == p,
{
}

/// Two integers that agree modulo 12 name the same pitch class.
proof fn lemma_from_pitch_mod(a: int, b: int)
    requires
        (a - b) % 12 == 0,
    ensures
        Note::from_pitch(a) == Note::from_pitch(b),
{
    assert(a % 12 == b % 12) by (nonlinear_arith)
        requires
            (a - b) % 12 == 0,
    ;
}

fn semitones_to_c(semitones: usize) -> (r: Note)
    ensures
        r == Note::from_pitch(semitones as int),
{
    match semitones % 12 {
        0 => Note::C,
        1 => Note::Db,
        2 => Note::D,
        3 => Note::Eb,
        4 => Note::E,
        5 => Note::F,
        6 => Note::Gb,
        7 => Note::G,
        8 => Note::Ab,
        9 => Note::A,
        10 => Note::Bb,
        _ => Note::B,
    }
}

} // verus!
