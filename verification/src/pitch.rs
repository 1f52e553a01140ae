use vstd::arithmetic::div_mod::{lemma_add_mod_noop_right, lemma_small_mod};
use vstd::prelude::*;
use vstd::string::StrSliceExecFns;

use crate::error::MusicError;
use crate::interval::Interval;

verus! {

/// The letter part of a pitch name.
#[derive(Clone, Copy, Debug, PartialEq, Eq, Structural)]
pub enum Letter {
    A,
    B,
    C,
    D,
    E,
    F,
    G,
}

/// An accidental attached to a letter. `Natural` is declared for future
/// extension: the canonical table spells natural pitches with no
/// accidental, so no public constructor ever returns it.
#[derive(Clone, Copy, Debug, PartialEq, Eq, Structural)]
pub enum Accidental {
    Flat,
    Natural,
    Sharp,
}

/// A pitch class, e.g. C, Ab, F#: a letter with an optional accidental.
/// Equality is structural. The twelve canonical spellings are listed by
/// `pitch_at`; only those take part in transposition.
#[derive(Clone, Copy, Debug, PartialEq, Eq, Structural)]
pub struct Pitch {
    pub letter: Letter,
    pub accidental: Option<Accidental>,
}

/// The canonical table of the twelve pitch classes, ordered from A and
/// spelled with flats: A, Bb, B, C, Db, D, Eb, E, F, Gb, G, Ab. The index
/// step is one semitone, so index arithmetic modulo twelve transposes.
pub open spec fn pitch_at(i: int) -> Pitch
    recommends
        0 <= i < 12,
{
    if i == 0 {
        Pitch { letter: Letter::A, accidental: None }
    } else if i == 1 {
        Pitch { letter: Letter::B, accidental: Some(Accidental::Flat) }
    } else if i == 2 {
        Pitch { letter: Letter::B, accidental: None }
    } else if i == 3 {
        Pitch { letter: Letter::C, accidental: None }
    } else if i == 4 {
        Pitch { letter: Letter::D, accidental: Some(Accidental::Flat) }
    } else if i == 5 {
        Pitch { letter: Letter::D, accidental: None }
    } else if i == 6 {
        Pitch { letter: Letter::E, accidental: Some(Accidental::Flat) }
    } else if i == 7 {
        Pitch { letter: Letter::E, accidental: None }
    } else if i == 8 {
        Pitch { letter: Letter::F, accidental: None }
    } else if i == 9 {
        Pitch { letter: Letter::G, accidental: Some(Accidental::Flat) }
    } else if i == 10 {
        Pitch { letter: Letter::G, accidental: None }
    } else {
        Pitch { letter: Letter::A, accidental: Some(Accidental::Flat) }
    }
}

/// The position of a pitch in the canonical table, `None` for a spelling
/// that the table does not hold.
pub open spec fn pitch_index_opt(p: Pitch) -> Option<int> {
    match (p.letter, p.accidental) {
        (Letter::A, None) => Some(0int),
        (Letter::B, Some(Accidental::Flat)) => Some(1int),
        (Letter::B, None) => Some(2int),
        (Letter::C, None) => Some(3int),
        (Letter::D, Some(Accidental::Flat)) => Some(4int),
        (Letter::D, None) => Some(5int),
        (Letter::E, Some(Accidental::Flat)) => Some(6int),
        (Letter::E, None) => Some(7int),
        (Letter::F, None) => Some(8int),
        (Letter::G, Some(Accidental::Flat)) => Some(9int),
        (Letter::G, None) => Some(10int),
        (Letter::A, Some(Accidental::Flat)) => Some(11int),
        _ => None,
    }
}

/// Whether a pitch is one of the twelve canonical spellings.
pub open spec fn in_table(p: Pitch) -> bool {
    pitch_index_opt(p) is Some
}

/// The position of a canonical pitch in the table.
pub open spec fn pitch_index(p: Pitch) -> int
    recommends
        in_table(p),
{
    pitch_index_opt(p)->Some_0
}

/// The canonical pitch that lies `n` semitones above `p` on the twelve-tone
/// circle: index arithmetic modulo twelve in the table.
pub open spec fn transpose(p: Pitch, n: int) -> Pitch
    recommends
        in_table(p),
        0 <= n,
{
    pitch_at((pitch_index(p) + n) % 12)
}

/// The letter a pitch name's first character selects, `None` for any
/// character other than `A`-`G` (case-sensitive).
pub open spec fn letter_of_char(c: char) -> Option<Letter> {
    if c == 'A' {
        Some(Letter::A)
    } else if c == 'B' {
        Some(Letter::B)
    } else if c == 'C' {
        Some(Letter::C)
    } else if c == 'D' {
        Some(Letter::D)
    } else if c == 'E' {
        Some(Letter::E)
    } else if c == 'F' {
        Some(Letter::F)
    } else if c == 'G' {
        Some(Letter::G)
    } else {
        None
    }
}

/// The accidental a pitch name's second character selects: `b` or the flat
/// sign give flat, `#` or the sharp sign give sharp, anything else none.
pub open spec fn accidental_of_char(c: char) -> Option<Accidental> {
    if c == 'b' || c == '♭' {
        Some(Accidental::Flat)
    } else if c == '#' || c == '♯' {
        Some(Accidental::Sharp)
    } else {
        None
    }
}

/// What `Pitch::from_string` returns on a name with the given characters:
/// the first character must select a letter; a second character, if any,
/// selects the accidental. No further characters are inspected, and the
/// spelling is not checked against the canonical table.
pub open spec fn parse_pitch(s: Seq<char>) -> Result<Pitch, MusicError> {
    if s.len() == 0 {
        Err(MusicError::InvalidLetter)
    } else {
        match letter_of_char(s[0]) {
            None => Err(MusicError::InvalidLetter),
            Some(letter) => Ok(
                Pitch {
                    letter,
                    accidental: if s.len() >= 2 {
                        accidental_of_char(s[1])
                    } else {
                        None
                    },
                },
            ),
        }
    }
}

/// The canonical table entry at a given index: the executable reading of
/// `pitch_at`.
pub fn pitch_at_index(i: usize) -> (r: Pitch)
    requires
        i < 12,
    ensures
        r == pitch_at(i as int),
{
    match i {
        0 => Pitch { letter: Letter::A, accidental: None },
        1 => Pitch { letter: Letter::B, accidental: Some(Accidental::Flat) },
        2 => Pitch { letter: Letter::B, accidental: None },
        3 => Pitch { letter: Letter::C, accidental: None },
        4 => Pitch { letter: Letter::D, accidental: Some(Accidental::Flat) },
        5 => Pitch { letter: Letter::D, accidental: None },
        6 => Pitch { letter: Letter::E, accidental: Some(Accidental::Flat) },
        7 => Pitch { letter: Letter::E, accidental: None },
        8 => Pitch { letter: Letter::F, accidental: None },
        9 => Pitch { letter: Letter::G, accidental: Some(Accidental::Flat) },
        10 => Pitch { letter: Letter::G, accidental: None },
        _ => Pitch { letter: Letter::A, accidental: Some(Accidental::Flat) },
    }
}

/// The position of a pitch in the table, `None` for a spelling outside it.
fn table_index(p: &Pitch) -> (r: Option<usize>)
    ensures
        in_table(*p) ==> r == Some(pitch_index(*p) as usize),
        !in_table(*p) ==> r is None,
{
    match (p.letter, p.accidental) {
        (Letter::A, None) => Some(0),
        (Letter::B, Some(Accidental::Flat)) => Some(1),
        (Letter::B, None) => Some(2),
        (Letter::C, None) => Some(3),
        (Letter::D, Some(Accidental::Flat)) => Some(4),
        (Letter::D, None) => Some(5),
        (Letter::E, Some(Accidental::Flat)) => Some(6),
        (Letter::E, None) => Some(7),
        (Letter::F, None) => Some(8),
        (Letter::G, Some(Accidental::Flat)) => Some(9),
        (Letter::G, None) => Some(10),
        (Letter::A, Some(Accidental::Flat)) => Some(11),
        _ => None,
    }
}

impl Pitch {
    /// Reads a pitch from a short textual name: the first character selects
    /// the letter `A`-`G` (anything else is rejected), an optional second
    /// character selects the accidental. The spelling is not checked against
    /// the canonical table, so e.g. `E#` parses and only a later
    /// transposition rejects it.
    pub fn from_string(string: String) -> (r: Result<Pitch, MusicError>)
        ensures
            r == parse_pitch(string@),
    {
        let s = string.as_str();
        let n = s.unicode_len();
        if n == 0 {
            return Err(MusicError::InvalidLetter);
        }
        let letter = match s.get_char(0) {
            'A' => Letter::A,
            'B' => Letter::B,
            'C' => Letter::C,
            'D' => Letter::D,
            'E' => Letter::E,
            'F' => Letter::F,
            'G' => Letter::G,
            _ => {
                return Err(MusicError::InvalidLetter);
            },
        };
        let accidental = if n >= 2 {
            match s.get_char(1) {
                'b' | '♭' => Some(Accidental::Flat),
                '#' | '♯' => Some(Accidental::Sharp),
                _ => None,
            }
        } else {
            None
        };
        Ok(Pitch { letter, accidental })
    }

    /// Transposes a canonical pitch up by an interval's semitone distance;
    /// a pitch outside the canonical table is rejected.
    pub fn from_interval(pitch: Pitch, interval: Interval) -> (r: Result<Pitch, MusicError>)
        ensures
            in_table(pitch) ==> r == Ok::<Pitch, MusicError>(
                transpose(pitch, interval.semitones as int),
            ),
            !in_table(pitch) ==> r == Err::<Pitch, MusicError>(MusicError::PitchNotInTable),
    {
        Self::from_semitones(pitch, interval.semitones)
    }

    /// Transposes a canonical pitch up by a number of semitones, landing on
    /// the canonical spelling at the new table index (so three semitones
    /// above G is Bb, never A#); a pitch outside the table is rejected.
    pub fn from_semitones(pitch: Pitch, semitones: u8) -> (r: Result<Pitch, MusicError>)
        ensures
            in_table(pitch) ==> r == Ok::<Pitch, MusicError>(transpose(pitch, semitones as int)),
            !in_table(pitch) ==> r == Err::<Pitch, MusicError>(MusicError::PitchNotInTable),
    {
        let start_index: usize = match table_index(&pitch) {
            Some(i) => i,
            None => {
                return Err(MusicError::PitchNotInTable);
            },
        };
        let new_pitch_index: usize = (start_index + semitones as usize) % 12;
        Ok(pitch_at_index(new_pitch_index))
    }
}

/// Every table entry is canonical and sits at its own index.
proof fn lemma_pitch_at_index(j: int)
    requires
        0 <= j < 12,
    ensures
        in_table(pitch_at(j)),
        pitch_index(pitch_at(j)) == j,
{
}

/// A canonical pitch has an index inside the table and is the entry there.
proof fn lemma_index_of_canonical(p: Pitch)
    requires
        in_table(p),
    ensures
        0 <= pitch_index(p) < 12,
        pitch_at(pitch_index(p)) == p,
{
}

/// Octave equivalence: transposing a canonical pitch by `n` semitones is
/// transposing it by `n` modulo twelve, and transposing by a full octave
/// returns the pitch unchanged.
pub proof fn lemma_transpose_cycle(p: Pitch, n: int)
    requires
        in_table(p),
        0 <= n,
    ensures
        transpose(p, n) == transpose(p, n % 12),
        transpose(p, 12) == p,
{
    lemma_index_of_canonical(p);
    let i = pitch_index(p);
    lemma_add_mod_noop_right(i, n, 12);
    lemma_add_mod_noop_right(i, 12, 12);
    lemma_small_mod(i as nat, 12);
}

/// Composition: transposing a canonical pitch by `a` and then by `b`
/// semitones lands on a canonical pitch and equals one transposition by
/// `a + b` reduced modulo twelve.
pub proof fn lemma_transpose_compose(p: Pitch, a: int, b: int)
    requires
        in_table(p),
        0 <= a,
        0 <= b,
    ensures
        in_table(transpose(p, a)),
        transpose(transpose(p, a), b) == transpose(p, (a + b) % 12),
{
    lemma_index_of_canonical(p);
    let i = pitch_index(p);
    let j = (i + a) % 12;
    lemma_pitch_at_index(j);
    lemma_add_mod_noop_right(b, i + a, 12);
    lemma_add_mod_noop_right(i, a + b, 12);
    assert((j + b) % 12 == (i + (a + b) % 12) % 12);
}

} // verus!
