//! Derivation strategies of an HD wallet, addressed by a small integer code.

use vstd::prelude::*;

verus! {

/// The way an address is derived from a public key.
///
/// The set is closed: a code that no variant carries maps to nothing.
#[derive(Clone, Copy, Debug, PartialEq, Eq, Structural)]
pub enum Derivation {
    /// Default derivation.
    Default,
}

impl Derivation {
    /// The code that stands for this variant.
    pub open spec fn spec_raw(self) -> u32 {
        match self {
            Derivation::Default => 0,
        }
    }

    /// The variant that a code stands for, if any.
    pub open spec fn spec_from_raw(derivation: u32) -> Option<Derivation> {
        if derivation == 0 {
            Some(Derivation::Default)
        } else {
            None
        }
    }

    /// Looks a code up. Unknown codes give `None`; none is coerced to a default.
    pub fn from_raw(derivation: u32) -> (res: Option<Derivation>)
        ensures
            res == Self::spec_from_raw(derivation),
            res is Some <==> derivation == 0,
            res matches Some(d) ==> d.spec_raw() == derivation,
    {
        match derivation {
            0 => Some(Derivation::Default),
            _ => None,
        }
    }

    /// The code of this variant.
    pub fn raw(self) -> (code: u32)
        ensures
            code == self.spec_raw(),
            Self::spec_from_raw(code) == Some(self),
    {
        match self {
            Derivation::Default => 0,
        }
    }
}

/// Every variant is found again under its own code.
pub proof fn lemma_derivation_from_raw_of_raw(d: Derivation)
    ensures
        Derivation::spec_from_raw(d.spec_raw()) == Some(d),
{
}

/// A code that is recognised is the code of the variant it gives, so two
/// different codes never give the same variant; every other code gives nothing.
pub proof fn lemma_derivation_raw_of_from_raw(code: u32)
    ensures
        match Derivation::spec_from_raw(code) {
            Some(d) => d.spec_raw() == code,
            None => forall|d: Derivation| d.spec_raw() != code,
        },
{
}

} // verus!
