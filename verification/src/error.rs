use vstd::prelude::*;

verus! {

/// The recoverable failures of this crate, one per class of rejected input.
#[derive(Clone, Copy, Debug, PartialEq, Eq, Structural)]
pub enum MusicError {
    /// The first character of a pitch name is not one of the letters `A`-`G`.
    InvalidLetter,
    /// An interval size/quality pair that the thirteen-entry table does not hold.
    InvalidIntervalPair,
    /// A semitone count outside the range 0..=12.
    SemitoneOutOfRange,
    /// A pitch that is not one of the twelve canonical spellings.
    PitchNotInTable,
}

} // verus!
