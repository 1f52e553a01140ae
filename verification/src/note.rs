use vstd::prelude::*;

use crate::pitch::Pitch;

verus! {

/// A pitch placed in an octave register. A plain labelled pair: no
/// invariant restricts the octave, and equality is field by field.
#[derive(Clone, Copy, Debug, PartialEq, Eq, Structural)]
pub struct Note {
    pub pitch: Pitch,
    pub octave: u8,
}

} // verus!
