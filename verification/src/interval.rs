use vstd::prelude::*;

use crate::error::MusicError;

verus! {

/// Quality of a diatonic interval. `Augmented` is declared for future
/// extension: no entry of the semitone table uses it, so no public
/// constructor ever returns it.
#[derive(Clone, Copy, Debug, PartialEq, Eq, Structural)]
pub enum IntervalQuality {
    Perfect,
    Major,
    Minor,
    Augmented,
    Diminished,
}

/// Ordinal size of a simple diatonic interval, up to one octave.
#[derive(Clone, Copy, Debug, PartialEq, Eq, Structural)]
pub enum IntervalSize {
    Unison,
    Second,
    Third,
    Fourth,
    Fifth,
    Sixth,
    Seventh,
    Octave,
}

/// A diatonic interval: a size/quality pair together with its semitone
/// distance. The constructors only return well-formed values, in which
/// `semitones` is the distance the table assigns to the pair.
#[derive(Clone, Copy, Debug, PartialEq, Eq, Structural)]
pub struct Interval {
    pub size: IntervalSize,
    pub quality: IntervalQuality,
    pub semitones: u8,
}

/// The fixed table of simple diatonic intervals: the semitone distance of
/// each of the thirteen valid size/quality pairs, `None` for every other pair.
pub open spec fn pair_semitones_opt(size: IntervalSize, quality: IntervalQuality) -> Option<int> {
    match (size, quality) {
        (IntervalSize::Unison, IntervalQuality::Perfect) => Some(0int),
        (IntervalSize::Second, IntervalQuality::Minor) => Some(1int),
        (IntervalSize::Second, IntervalQuality::Major) => Some(2int),
        (IntervalSize::Third, IntervalQuality::Minor) => Some(3int),
        (IntervalSize::Third, IntervalQuality::Major) => Some(4int),
        (IntervalSize::Fourth, IntervalQuality::Perfect) => Some(5int),
        (IntervalSize::Fifth, IntervalQuality::Diminished) => Some(6int),
        (IntervalSize::Fifth, IntervalQuality::Perfect) => Some(7int),
        (IntervalSize::Sixth, IntervalQuality::Minor) => Some(8int),
        (IntervalSize::Sixth, IntervalQuality::Major) => Some(9int),
        (IntervalSize::Seventh, IntervalQuality::Minor) => Some(10int),
        (IntervalSize::Seventh, IntervalQuality::Major) => Some(11int),
        (IntervalSize::Octave, IntervalQuality::Perfect) => Some(12int),
        _ => None,
    }
}

/// Whether a size/quality pair stands in the table.
pub open spec fn valid_pair(size: IntervalSize, quality: IntervalQuality) -> bool {
    pair_semitones_opt(size, quality) is Some
}

/// The semitone distance of a valid pair.
pub open spec fn pair_semitones(size: IntervalSize, quality: IntervalQuality) -> int
    recommends
        valid_pair(size, quality),
{
    pair_semitones_opt(size, quality)->Some_0
}

/// The interval that `Interval::new` builds for a valid pair.
pub open spec fn interval_of_pair(size: IntervalSize, quality: IntervalQuality) -> Interval
    recommends
        valid_pair(size, quality),
{
    Interval { size, quality, semitones: pair_semitones(size, quality) as u8 }
}

impl Interval {
    /// A well-formed interval: its pair stands in the table and its stored
    /// semitone count is the one the table assigns.
    pub open spec fn wf(self) -> bool {
        &&& valid_pair(self.size, self.quality)
        &&& self.semitones as int == pair_semitones(self.size, self.quality)
    }

    /// Builds the interval of a size/quality pair from the table; a pair
    /// outside the table is rejected.
    pub fn new(size: IntervalSize, quality: IntervalQuality) -> (r: Result<Interval, MusicError>)
        ensures
            valid_pair(size, quality) ==> r == Ok::<Interval, MusicError>(
                interval_of_pair(size, quality),
            ),
            !valid_pair(size, quality) ==> r == Err::<Interval, MusicError>(
                MusicError::InvalidIntervalPair,
            ),
            r matches Ok(i) ==> i.wf(),
    {
        let semitones: u8 = match (size, quality) {
            (IntervalSize::Unison, IntervalQuality::Perfect) => 0,
            (IntervalSize::Second, IntervalQuality::Minor) => 1,
            (IntervalSize::Second, IntervalQuality::Major) => 2,
            (IntervalSize::Third, IntervalQuality::Minor) => 3,
            (IntervalSize::Third, IntervalQuality::Major) => 4,
            (IntervalSize::Fourth, IntervalQuality::Perfect) => 5,
            (IntervalSize::Fifth, IntervalQuality::Diminished) => 6,
            (IntervalSize::Fifth, IntervalQuality::Perfect) => 7,
            (IntervalSize::Sixth, IntervalQuality::Minor) => 8,
            (IntervalSize::Sixth, IntervalQuality::Major) => 9,
            (IntervalSize::Seventh, IntervalQuality::Minor) => 10,
            (IntervalSize::Seventh, IntervalQuality::Major) => 11,
            (IntervalSize::Octave, IntervalQuality::Perfect) => 12,
            _ => {
                return Err(MusicError::InvalidIntervalPair);
            },
        };
        Ok(Interval { size, quality, semitones })
    }

    /// Builds the interval whose semitone distance is `num_semitones`: the
    /// inverse reading of the table. Each count in 0..=12 names exactly one
    /// pair (6 gives the diminished fifth); a count above 12 is rejected.
    pub fn from_semitones(num_semitones: u8) -> (r: Result<Interval, MusicError>)
        ensures
            num_semitones <= 12 ==> {
                &&& r == Ok::<Interval, MusicError>(
                    interval_of_pair(
                        canonical_size(num_semitones as int),
                        canonical_quality(num_semitones as int),
                    ),
                )
                &&& r matches Ok(i) && i.semitones == num_semitones && i.wf()
            },
            num_semitones > 12 ==> r == Err::<Interval, MusicError>(
                MusicError::SemitoneOutOfRange,
            ),
    {
        let (size, quality): (IntervalSize, IntervalQuality) = match num_semitones {
            0 => (IntervalSize::Unison, IntervalQuality::Perfect),
            1 => (IntervalSize::Second, IntervalQuality::Minor),
            2 => (IntervalSize::Second, IntervalQuality::Major),
            3 => (IntervalSize::Third, IntervalQuality::Minor),
            4 => (IntervalSize::Third, IntervalQuality::Major),
            5 => (IntervalSize::Fourth, IntervalQuality::Perfect),
            6 => (IntervalSize::Fifth, IntervalQuality::Diminished),
            7 => (IntervalSize::Fifth, IntervalQuality::Perfect),
            8 => (IntervalSize::Sixth, IntervalQuality::Minor),
            9 => (IntervalSize::Sixth, IntervalQuality::Major),
            10 => (IntervalSize::Seventh, IntervalQuality::Minor),
            11 => (IntervalSize::Seventh, IntervalQuality::Major),
            12 => (IntervalSize::Octave, IntervalQuality::Perfect),
            _ => {
                return Err(MusicError::SemitoneOutOfRange);
            },
        };
        Ok(Interval { size, quality, semitones: num_semitones })
    }

    /// Recomputes the semitone distance of this interval's size/quality pair
    /// from the table, independent of the stored `semitones` field; a pair
    /// outside the table is rejected.
    pub fn to_semitones(&self) -> (r: Result<u8, MusicError>)
        ensures
            valid_pair(self.size, self.quality) ==> (r matches Ok(n) && n as int == pair_semitones(
                self.size,
                self.quality,
            )),
            !valid_pair(self.size, self.quality) ==> r == Err::<u8, MusicError>(
                MusicError::InvalidIntervalPair,
            ),
    {
        match (self.size, self.quality) {
            (IntervalSize::Unison, IntervalQuality::Perfect) => Ok(0),
            (IntervalSize::Second, IntervalQuality::Minor) => Ok(1),
            (IntervalSize::Second, IntervalQuality::Major) => Ok(2),
            (IntervalSize::Third, IntervalQuality::Minor) => Ok(3),
            (IntervalSize::Third, IntervalQuality::Major) => Ok(4),
            (IntervalSize::Fourth, IntervalQuality::Perfect) => Ok(5),
            (IntervalSize::Fifth, IntervalQuality::Diminished) => Ok(6),
            (IntervalSize::Fifth, IntervalQuality::Perfect) => Ok(7),
            (IntervalSize::Sixth, IntervalQuality::Minor) => Ok(8),
            (IntervalSize::Sixth, IntervalQuality::Major) => Ok(9),
            (IntervalSize::Seventh, IntervalQuality::Minor) => Ok(10),
            (IntervalSize::Seventh, IntervalQuality::Major) => Ok(11),
            (IntervalSize::Octave, IntervalQuality::Perfect) => Ok(12),
            _ => Err(MusicError::InvalidIntervalPair),
        }
    }
}

/// The size of the canonical interval of a semitone count in 0..=12: the
/// inverse reading of the table.
pub open spec fn canonical_size(n: int) -> IntervalSize
    recommends
        0 <= n <= 12,
{
    if n == 0 {
        IntervalSize::Unison
    } else if n == 1 || n == 2 {
        IntervalSize::Second
    } else if n == 3 || n == 4 {
        IntervalSize::Third
    } else if n == 5 {
        IntervalSize::Fourth
    } else if n == 6 || n == 7 {
        IntervalSize::Fifth
    } else if n == 8 || n == 9 {
        IntervalSize::Sixth
    } else if n == 10 || n == 11 {
        IntervalSize::Seventh
    } else {
        IntervalSize::Octave
    }
}

/// The quality of the canonical interval of a semitone count in 0..=12: the
/// inverse reading of the table.
pub open spec fn canonical_quality(n: int) -> IntervalQuality
    recommends
        0 <= n <= 12,
{
    if n == 0 || n == 5 || n == 7 || n == 12 {
        IntervalQuality::Perfect
    } else if n == 2 || n == 4 || n == 9 || n == 11 {
        IntervalQuality::Major
    } else if n == 6 {
        IntervalQuality::Diminished
    } else {
        IntervalQuality::Minor
    }
}

/// Round trip: for every semitone count in 0..=12, the canonical pair read
/// from the table is valid and maps back to the same count, so an interval
/// built from a count converts back to that count.
pub proof fn lemma_semitone_round_trip(s: int)
    requires
        0 <= s <= 12,
    ensures
        valid_pair(canonical_size(s), canonical_quality(s)),
        pair_semitones(canonical_size(s), canonical_quality(s)) == s,
{
}

/// Table agreement: for every valid size/quality pair, the interval built
/// from the pair stores the same semitone count that the table derives from
/// the built interval's own size and quality.
pub proof fn lemma_table_agreement(size: IntervalSize, quality: IntervalQuality)
    requires
        valid_pair(size, quality),
    ensures
        interval_of_pair(size, quality).wf(),
        interval_of_pair(size, quality).semitones as int == pair_semitones(
            interval_of_pair(size, quality).size,
            interval_of_pair(size, quality).quality,
        ),
{
}

} // verus!
