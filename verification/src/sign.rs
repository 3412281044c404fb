//! The sign carried by every piece of text.
use core::ops::Neg;
use vstd::prelude::*;
use vstd::std_specs::ops::NegSpecImpl;

verus! {

/// Whether a piece of text is an addition (`No`) or a removal (`Negated`).
#[derive(Clone, Copy, Debug, PartialEq, Eq, Structural)]
pub enum Negation {
    Negated,
    No,
}

impl Negation {
    /// The other sign.
    pub open spec fn flipped(self) -> Negation {
        match self {
            Negation::No => Negation::Negated,
            Negation::Negated => Negation::No,
        }
    }
}

impl Neg for Negation {
    type Output = Negation;

    fn neg(self) -> (res: Negation)
        ensures
            res == self.flipped(),
    {
        match self {
            Negation::No => Negation::Negated,
            Negation::Negated => Negation::No,
        }
    }
}

impl NegSpecImpl for Negation {
    open spec fn obeys_neg_spec() -> bool {
        true
    }

    open spec fn neg_req(self) -> bool {
        true
    }

    open spec fn neg_spec(self) -> Negation {
        self.flipped()
    }
}

} // verus!
