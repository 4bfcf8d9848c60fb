//! The display language of the client's system messages, and the two text
//! patterns each language derives: the literal prefix of a "map finished"
//! announcement and the marker of a "maps selected" announcement.

use vstd::prelude::*;

verus! {

/// The display language the client writes its system messages in.
#[derive(Clone, Copy, PartialEq, Eq, Structural, Debug)]
pub enum Locale {
    English,
    Spanish,
}

/// The literal prefix that marks a "map finished" message.
pub open spec fn finish_prefix(l: Locale) -> Seq<char> {
    match l {
        Locale::English => "You finished Map "@,
        Locale::Spanish => "\u{00a1}Terminaste el Mapa "@,
    }
}

/// The literal marker that a "maps selected" announcement carries just
/// before the captured map-name list.
pub open spec fn selection_marker(l: Locale) -> Seq<char> {
    match l {
        Locale::English => "Selected Maps: "@,
        Locale::Spanish => "Mapas Seleccionados: "@,
    }
}

/// Both patterns of every locale are non-empty.
pub proof fn lemma_pattern_lens(l: Locale)
    ensures
        finish_prefix(l).len() > 0,
        selection_marker(l).len() > 0,
{
    reveal_strlit("You finished Map ");
    reveal_strlit("\u{00a1}Terminaste el Mapa ");
    reveal_strlit("Selected Maps: ");
    reveal_strlit("Mapas Seleccionados: ");
}

impl Locale {
    /// The literal prefix that marks a "map finished" message.
    pub fn finish_prefix(&self) -> (r: &'static str)
        ensures
            r@ == finish_prefix(*self),
    {
        match self {
            Locale::English => "You finished Map ",
            Locale::Spanish => "\u{00a1}Terminaste el Mapa ",
        }
    }

    /// The literal marker of a "maps selected" announcement.
    pub fn selection_marker(&self) -> (r: &'static str)
        ensures
            r@ == selection_marker(*self),
    {
        match self {
            Locale::English => "Selected Maps: ",
            Locale::Spanish => "Mapas Seleccionados: ",
        }
    }
}

} // verus!
