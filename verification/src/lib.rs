//! Music-theory primitives: the twelve chromatic pitch classes, the simple
//! diatonic intervals within an octave, and transposition of a pitch along
//! the fixed twelve-tone circle.

mod error;
mod interval;
mod note;
mod pitch;

pub use error::MusicError;
pub use interval::{Interval, IntervalQuality, IntervalSize};
pub use interval::{
    canonical_quality, canonical_size, interval_of_pair, lemma_semitone_round_trip,
    lemma_table_agreement, pair_semitones, pair_semitones_opt, valid_pair,
};
pub use note::Note;
pub use pitch::{Accidental, Letter, Pitch};
pub use pitch::{
    accidental_of_char, in_table, lemma_transpose_compose, lemma_transpose_cycle, letter_of_char,
    parse_pitch, pitch_at, pitch_at_index, pitch_index, pitch_index_opt, transpose,
};
