//! The operators: `+` appends, `-` appends as a removal, unary `-` negates.
//!
//! The right-hand side of `+` and `-` may be a chain or plain text, and
//! chains may be taken by value or by reference. Where the right-hand side
//! is a `&str`, the result holds a fresh copy of it, so the result is stated
//! by its fragments alone; in every other form it is also stated node by
//! node.
use crate::chain::{literal, negate_fragments, sub_fragments, Switchstring};
use core::ops::{Add, Neg, Sub};
use vstd::prelude::*;
use vstd::std_specs::ops::{AddSpecImpl, NegSpecImpl, SubSpecImpl};

verus! {

impl Neg for Switchstring {
    type Output = Switchstring;

    /// Flips the sign of the newest fragment.
    fn neg(self) -> (res: Switchstring)
        ensures
            res@ == negate_fragments(self@),
    {
        self.negated()
    }
}

impl NegSpecImpl for Switchstring {
    open spec fn obeys_neg_spec() -> bool {
        true
    }

    open spec fn neg_req(self) -> bool {
        true
    }

    open spec fn neg_spec(self) -> Switchstring {
        self.flipped()
    }
}

impl<'a> Neg for &'a Switchstring {
    type Output = Switchstring;

    /// Flips the sign of the newest fragment.
    fn neg(self) -> (res: Switchstring)
        ensures
            res@ == negate_fragments(self@),
    {
        self.negated()
    }
}

impl<'a> NegSpecImpl for &'a Switchstring {
    open spec fn obeys_neg_spec() -> bool {
        true
    }

    open spec fn neg_req(self) -> bool {
        true
    }

    open spec fn neg_spec(self) -> Switchstring {
        (*self).flipped()
    }
}

impl<'b> Add<&'b str> for Switchstring {
    type Output = Switchstring;

    /// Appends the text as one additive fragment.
    fn add(self, rhs: &'b str) -> (res: Switchstring)
        ensures
            res@ == self@ + literal(rhs@),
    {
        Switchstring::from(rhs).prepend(&self)
    }
}

impl<'b> AddSpecImpl<&'b str> for Switchstring {
    open spec fn obeys_add_spec() -> bool {
        false
    }

    open spec fn add_req(self, rhs: &'b str) -> bool {
        true
    }

    open spec fn add_spec(self, rhs: &'b str) -> Switchstring {
        arbitrary()
    }
}

impl Add<String> for Switchstring {
    type Output = Switchstring;

    /// Appends the text as one additive fragment.
    fn add(self, rhs: String) -> (res: Switchstring)
        ensures
            res@ == self@ + literal(rhs@),
    {
        Switchstring::from(rhs).prepend(&self)
    }
}

impl AddSpecImpl<String> for Switchstring {
    open spec fn obeys_add_spec() -> bool {
        true
    }

    open spec fn add_req(self, rhs: String) -> bool {
        true
    }

    open spec fn add_spec(self, rhs: String) -> Switchstring {
        Switchstring::single(rhs).spliced(self)
    }
}

impl<'a, 'b> Add<&'b str> for &'a Switchstring {
    type Output = Switchstring;

    /// Appends the text as one additive fragment.
    fn add(self, rhs: &'b str) -> (res: Switchstring)
        ensures
            res@ == self@ + literal(rhs@),
    {
        Switchstring::from(rhs).prepend(self)
    }
}

impl<'a, 'b> AddSpecImpl<&'b str> for &'a Switchstring {
    open spec fn obeys_add_spec() -> bool {
        false
    }

    open spec fn add_req(self, rhs: &'b str) -> bool {
        true
    }

    open spec fn add_spec(self, rhs: &'b str) -> Switchstring {
        arbitrary()
    }
}

impl<'a> Add<String> for &'a Switchstring {
    type Output = Switchstring;

    /// Appends the text as one additive fragment.
    fn add(self, rhs: String) -> (res: Switchstring)
        ensures
            res@ == self@ + literal(rhs@),
    {
        Switchstring::from(rhs).prepend(self)
    }
}

impl<'a> AddSpecImpl<String> for &'a Switchstring {
    open spec fn obeys_add_spec() -> bool {
        true
    }

    open spec fn add_req(self, rhs: String) -> bool {
        true
    }

    open spec fn add_spec(self, rhs: String) -> Switchstring {
        Switchstring::single(rhs).spliced(*self)
    }
}

impl Add<Switchstring> for Switchstring {
    type Output = Switchstring;

    /// Appends the fragments of `rhs`.
    fn add(self, rhs: Switchstring) -> (res: Switchstring)
        ensures
            res@ == self@ + rhs@,
    {
        rhs.prepend(&self)
    }
}

impl AddSpecImpl<Switchstring> for Switchstring {
    open spec fn obeys_add_spec() -> bool {
        true
    }

    open spec fn add_req(self, rhs: Switchstring) -> bool {
        true
    }

    open spec fn add_spec(self, rhs: Switchstring) -> Switchstring {
        rhs.spliced(self)
    }
}

impl<'b> Add<&'b Switchstring> for Switchstring {
    type Output = Switchstring;

    /// Appends the fragments of `rhs`.
    fn add(self, rhs: &'b Switchstring) -> (res: Switchstring)
        ensures
            res@ == self@ + rhs@,
    {
        rhs.prepend(&self)
    }
}

impl<'b> AddSpecImpl<&'b Switchstring> for Switchstring {
    open spec fn obeys_add_spec() -> bool {
        true
    }

    open spec fn add_req(self, rhs: &'b Switchstring) -> bool {
        true
    }

    open spec fn add_spec(self, rhs: &'b Switchstring) -> Switchstring {
        (*rhs).spliced(self)
    }
}

impl<'a> Add<Switchstring> for &'a Switchstring {
    type Output = Switchstring;

    /// Appends the fragments of `rhs`.
    fn add(self, rhs: Switchstring) -> (res: Switchstring)
        ensures
            res@ == self@ + rhs@,
    {
        rhs.prepend(self)
    }
}

impl<'a> AddSpecImpl<Switchstring> for &'a Switchstring {
    open spec fn obeys_add_spec() -> bool {
        true
    }

    open spec fn add_req(self, rhs: Switchstring) -> bool {
        true
    }

    open spec fn add_spec(self, rhs: Switchstring) -> Switchstring {
        rhs.spliced(*self)
    }
}

impl<'a, 'b> Add<&'b Switchstring> for &'a Switchstring {
    type Output = Switchstring;

    /// Appends the fragments of `rhs`.
    fn add(self, rhs: &'b Switchstring) -> (res: Switchstring)
        ensures
            res@ == self@ + rhs@,
    {
        rhs.prepend(self)
    }
}

impl<'a, 'b> AddSpecImpl<&'b Switchstring> for &'a Switchstring {
    open spec fn obeys_add_spec() -> bool {
        true
    }

    open spec fn add_req(self, rhs: &'b Switchstring) -> bool {
        true
    }

    open spec fn add_spec(self, rhs: &'b Switchstring) -> Switchstring {
        (*rhs).spliced(*self)
    }
}

impl Sub<Switchstring> for Switchstring {
    type Output = Switchstring;

    /// Appends the fragments of `rhs`, the newest of them negated.
    fn sub(self, rhs: Switchstring) -> (res: Switchstring)
        ensures
            res@ == sub_fragments(self@, rhs@),
    {
        rhs.negated().prepend(&self)
    }
}

impl SubSpecImpl<Switchstring> for Switchstring {
    open spec fn obeys_sub_spec() -> bool {
        true
    }

    open spec fn sub_req(self, rhs: Switchstring) -> bool {
        true
    }

    open spec fn sub_spec(self, rhs: Switchstring) -> Switchstring {
        rhs.flipped().spliced(self)
    }
}

impl<'b> Sub<&'b Switchstring> for Switchstring {
    type Output = Switchstring;

    /// Appends the fragments of `rhs`, the newest of them negated.
    fn sub(self, rhs: &'b Switchstring) -> (res: Switchstring)
        ensures
            res@ == sub_fragments(self@, rhs@),
    {
        rhs.negated().prepend(&self)
    }
}

impl<'b> SubSpecImpl<&'b Switchstring> for Switchstring {
    open spec fn obeys_sub_spec() -> bool {
        true
    }

    open spec fn sub_req(self, rhs: &'b Switchstring) -> bool {
        true
    }

    open spec fn sub_spec(self, rhs: &'b Switchstring) -> Switchstring {
        (*rhs).flipped().spliced(self)
    }
}

impl Sub<String> for Switchstring {
    type Output = Switchstring;

    /// Appends the text as one removal.
    fn sub(self, rhs: String) -> (res: Switchstring)
        ensures
            res@ == sub_fragments(self@, literal(rhs@)),
    {
        Switchstring::from(rhs).negated().prepend(&self)
    }
}

impl SubSpecImpl<String> for Switchstring {
    open spec fn obeys_sub_spec() -> bool {
        true
    }

    open spec fn sub_req(self, rhs: String) -> bool {
        true
    }

    open spec fn sub_spec(self, rhs: String) -> Switchstring {
        Switchstring::single(rhs).flipped().spliced(self)
    }
}

impl<'b> Sub<&'b str> for Switchstring {
    type Output = Switchstring;

    /// Appends the text as one removal.
    fn sub(self, rhs: &'b str) -> (res: Switchstring)
        ensures
            res@ == sub_fragments(self@, literal(rhs@)),
    {
        Switchstring::from(rhs).negated().prepend(&self)
    }
}

impl<'b> SubSpecImpl<&'b str> for Switchstring {
    open spec fn obeys_sub_spec() -> bool {
        false
    }

    open spec fn sub_req(self, rhs: &'b str) -> bool {
        true
    }

    open spec fn sub_spec(self, rhs: &'b str) -> Switchstring {
        arbitrary()
    }
}

impl<'a, 'b> Sub<&'b str> for &'a Switchstring {
    type Output = Switchstring;

    /// Appends the text as one removal.
    fn sub(self, rhs: &'b str) -> (res: Switchstring)
        ensures
            res@ == sub_fragments(self@, literal(rhs@)),
    {
        Switchstring::from(rhs).negated().prepend(self)
    }
}

impl<'a, 'b> SubSpecImpl<&'b str> for &'a Switchstring {
    open spec fn obeys_sub_spec() -> bool {
        false
    }

    open spec fn sub_req(self, rhs: &'b str) -> bool {
        true
    }

    open spec fn sub_spec(self, rhs: &'b str) -> Switchstring {
        arbitrary()
    }
}

impl<'a> Sub<Switchstring> for &'a Switchstring {
    type Output = Switchstring;

    /// Appends the fragments of `rhs`, the newest of them negated.
    fn sub(self, rhs: Switchstring) -> (res: Switchstring)
        ensures
            res@ == sub_fragments(self@, rhs@),
    {
        rhs.negated().prepend(self)
    }
}

impl<'a> SubSpecImpl<Switchstring> for &'a Switchstring {
    open spec fn obeys_sub_spec() -> bool {
        true
    }

    open spec fn sub_req(self, rhs: Switchstring) -> bool {
        true
    }

    open spec fn sub_spec(self, rhs: Switchstring) -> Switchstring {
        rhs.flipped().spliced(*self)
    }
}

impl<'a, 'b> Sub<&'b Switchstring> for &'a Switchstring {
    type Output = Switchstring;

    /// Appends the fragments of `rhs`, the newest of them negated.
    fn sub(self, rhs: &'b Switchstring) -> (res: Switchstring)
        ensures
            res@ == sub_fragments(self@, rhs@),
    {
        rhs.negated().prepend(self)
    }
}

impl<'a, 'b> SubSpecImpl<&'b Switchstring> for &'a Switchstring {
    open spec fn obeys_sub_spec() -> bool {
        true
    }

    open spec fn sub_req(self, rhs: &'b Switchstring) -> bool {
        true
    }

    open spec fn sub_spec(self, rhs: &'b Switchstring) -> Switchstring {
        (*rhs).flipped().spliced(*self)
    }
}

} // verus!
