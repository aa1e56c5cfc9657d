//! Layout of the tone stack: which sections it has, where each one sits in
//! the spectrum, and the order in which a sample runs through them.
//!
//! The filters themselves work on floating-point samples outside this
//! library; they take their shape, corner frequency and place in the cascade
//! from here.

use vstd::prelude::*;

verus! {

/// Corner frequency of the bass section, in hertz.
pub const BASS_FREQ: u32 = 500;

/// Centre frequency of the mid section, in hertz.
pub const MID_FREQ: u32 = 1500;

/// Corner frequency of the treble section, in hertz.
pub const TREBLE_FREQ: u32 = 3000;

/// One section of the tone stack.
#[derive(Clone, Copy, PartialEq, Eq, Structural, Debug)]
pub enum Band {
    Bass,
    Mid,
    Treble,
}

/// Response of a second-order section.
#[derive(Clone, Copy, PartialEq, Eq, Structural, Debug)]
pub enum Shape {
    LowShelf,
    PeakingEq,
    HighShelf,
}

impl Band {
    pub open spec fn spec_shape(self) -> Shape {
        match self {
            Band::Bass => Shape::LowShelf,
            Band::Mid => Shape::PeakingEq,
            Band::Treble => Shape::HighShelf,
        }
    }

    pub open spec fn spec_corner_hz(self) -> u32 {
        match self {
            Band::Bass => BASS_FREQ,
            Band::Mid => MID_FREQ,
            Band::Treble => TREBLE_FREQ,
        }
    }

    /// The response that shapes this band.
    #[verifier::when_used_as_spec(spec_shape)]
    pub fn shape(self) -> (shape: Shape)
        ensures
            shape == self.spec_shape(),
    {
        match self {
            Band::Bass => Shape::LowShelf,
            Band::Mid => Shape::PeakingEq,
            Band::Treble => Shape::HighShelf,
        }
    }

    /// The fixed frequency around which this band acts, in hertz.
    #[verifier::when_used_as_spec(spec_corner_hz)]
    pub fn corner_hz(self) -> (hz: u32)
        ensures
            hz == self.spec_corner_hz(),
    {
        match self {
            Band::Bass => BASS_FREQ,
            Band::Mid => MID_FREQ,
            Band::Treble => TREBLE_FREQ,
        }
    }
}

/// The sections in the order a sample passes them.
pub open spec fn cascade_order() -> Seq<Band> {
    seq![Band::Bass, Band::Mid, Band::Treble]
}

/// The sections in the order a sample passes them: low shelf, then peak,
/// then high shelf.
pub fn cascade() -> (sections: [Band; 3])
    ensures
        sections@ == cascade_order(),
{
    [Band::Bass, Band::Mid, Band::Treble]
}

} // verus!
