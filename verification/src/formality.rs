//! The formality option: a translation-service setting controlling the
//! register (formal/informal) of the output text, and its wire encoding.

use vstd::prelude::*;

verus! {

/// Formality preference for translated text. `PreferMore` and `PreferLess`
/// fall back to the default register for languages without a formality
/// distinction, where `More` and `Less` would be rejected by the service.
#[derive(Debug, Clone, Copy, PartialEq, Eq, Structural)]
pub enum Formality {
    Default,
    More,
    Less,
    PreferMore,
    PreferLess,
}

impl Formality {
    /// The exact string sent on the wire for this option.
    pub open spec fn wire(self) -> Seq<char> {
        match self {
            Formality::Default => "default"@,
            Formality::More => "more"@,
            Formality::Less => "less"@,
            Formality::PreferMore => "prefer_more"@,
            Formality::PreferLess => "prefer_less"@,
        }
    }

    /// Borrowed wire form of the option.
    pub fn as_ref(&self) -> (r: &str)
        ensures
            r@ == self.wire(),
    {
        match self {
            Formality::Default => "default",
            Formality::More => "more",
            Formality::Less => "less",
            Formality::PreferMore => "prefer_more",
            Formality::PreferLess => "prefer_less",
        }
    }

    /// Owned wire form of the option.
    pub fn to_string(&self) -> (r: String)
        ensures
            r@ == self.wire(),
    {
        self.as_ref().to_owned()
    }
}

} // verus!
