//! The rendering choices that are the product's rather than the prototype's.

use vstd::prelude::*;

verus! {

/// The prototype's density setting, which drives every dimension that scales.
#[derive(Debug, Clone, Copy, PartialEq, Eq, Hash, Structural)]
pub enum Density {
    Compact,
    Default,
    Roomy,
}

impl Density {
    /// Every density, from the tightest to the loosest.
    pub const ALL: [Density; 3] = [Density::Compact, Density::Default, Density::Roomy];
}

} // verus!
