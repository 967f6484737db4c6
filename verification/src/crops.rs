//! The fixed crop catalogue: kinds, growth durations and display names.
//!
//! Crop kinds are fixed data, not user-authored content. Durations are in
//! integer milliseconds; the display color of a kind is a concern of the
//! rendering front end and does not live here.

use vstd::prelude::*;

verus! {

#[derive(Clone, Copy, PartialEq, Eq, Structural, Debug)]
pub enum CropType {
    Potato,
    Onion,
}

/// How long a planted crop of this kind takes to mature, in milliseconds.
pub open spec fn spec_grow_duration(crop: CropType) -> int {
    match crop {
        CropType::Potato => 5000,
        CropType::Onion => 8000,
    }
}

impl CropType {
    /// Growth duration in milliseconds; positive for every kind.
    pub fn grow_duration(self) -> (d: u64)
        ensures
            d == spec_grow_duration(self),
            0 < d <= 8000,
    {
        match self {
            CropType::Potato => 5000,
            CropType::Onion => 8000,
        }
    }

    /// The display name of the kind.
    pub fn name(self) -> (n: &'static str)
        ensures
            n@ == self.spec_name(),
    {
        match self {
            CropType::Potato => "Potato",
            CropType::Onion => "Onion",
        }
    }

    pub open spec fn spec_name(self) -> Seq<char> {
        match self {
            CropType::Potato => "Potato"@,
            CropType::Onion => "Onion"@,
        }
    }
}

} // verus!
