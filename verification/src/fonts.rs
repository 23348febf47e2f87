//! The prototype's typefaces, by the family names they declare. The renderer
//! loads the vendored faces themselves: nothing is fetched, so the interface
//! renders correctly with no network.

use vstd::prelude::*;

verus! {

/// Inter, the prototype's interface typeface.
pub const UI_FAMILY: &'static str = "Inter";
/// Inter at weight 500, which the prototype uses for headings and labels.
pub const UI_MEDIUM_FAMILY: &'static str = "Inter Medium";
/// Phosphor, the icon font the prototype draws all of its glyphs from.
pub const ICON_FAMILY: &'static str = "Phosphor";

/// The prototype's code stack is `'JetBrains Mono', ui-monospace, Menlo,
/// monospace`. The face is vendored, so the first entry always resolves and the
/// fallbacks never come into play, which is what makes the exact comparison
/// reproducible across platforms.
pub const CODE_FAMILY: &'static str = "JetBrains Mono";

} // verus!
