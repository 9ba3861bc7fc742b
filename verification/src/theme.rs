//! The status tones of the interface's badges and the colors they are drawn
//! in.
use vstd::prelude::*;

verus! {

/// The tone of a status badge.
#[derive(Clone, Copy, Debug, PartialEq, Eq, Structural)]
pub enum BadgeTone {
    Neutral,
    Success,
    Warning,
    Danger,
}

impl BadgeTone {
    /// The red, green and blue components of the tone's color.
    pub open spec fn spec_rgb(self) -> (u8, u8, u8) {
        match self {
            BadgeTone::Neutral => (190, 176, 190),
            BadgeTone::Success => (150, 224, 183),
            BadgeTone::Warning => (245, 199, 137),
            BadgeTone::Danger => (240, 140, 158),
        }
    }

    /// The red, green and blue components of the tone's color: a dusty
    /// lilac, a mint green, a peach and a soft coral.
    pub fn rgb(self) -> (r: (u8, u8, u8))
        ensures
            r == self.spec_rgb(),
    {
        match self {
            BadgeTone::Neutral => (190, 176, 190),
            BadgeTone::Success => (150, 224, 183),
            BadgeTone::Warning => (245, 199, 137),
            BadgeTone::Danger => (240, 140, 158),
        }
    }
}

} // verus!
