//! The routing rule that picks a translation style from profile attributes.

use vstd::prelude::*;
use crate::text::str_eq;

verus! {

/// The two styles the upstream translation source offers.
#[derive(Clone, Copy, Debug, PartialEq, Eq, Structural)]
pub enum Style {
    Yoda,
    Shakespeare,
}

/// The routing rule: Yoda for cave dwellers and legendary creatures,
/// Shakespeare for everything else.
pub open spec fn spec_select_style(habitat: Seq<char>, is_legendary: bool) -> Style {
    if habitat == "cave"@ || is_legendary {
        Style::Yoda
    } else {
        Style::Shakespeare
    }
}

/// Law: a legendary creature is routed to the Yoda style whatever its habitat.
pub proof fn lemma_legendary_routes_to_yoda(habitat: Seq<char>)
    ensures
        spec_select_style(habitat, true) == Style::Yoda,
{
}

/// Selects the translation style for a profile. Total and deterministic:
/// Yoda exactly when the habitat is "cave" or the creature is legendary.
pub fn select_style(habitat: &str, is_legendary: bool) -> (s: Style)
    ensures
        s == spec_select_style(habitat@, is_legendary),
{
    if is_legendary || str_eq(habitat, "cave") {
        Style::Yoda
    } else {
        Style::Shakespeare
    }
}

} // verus!
