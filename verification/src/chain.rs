//! The chain of fragments and its evaluation.
use crate::fragment::{Fragment, Inner};
use crate::sign::Negation;
use core::ops::Neg;
use std::sync::Arc;
use vstd::prelude::*;
use vstd::std_specs::cmp::PartialEqSpecImpl;

verus! {

/// The single fragment that a sequence of fragments folds into, taken from
/// the oldest to the newest: each fragment is joined, as the suffix, to what
/// all the fragments before it have folded into.
pub open spec fn eval_fragments(frags: Seq<Fragment>) -> Fragment
    recommends
        frags.len() > 0,
    decreases frags.len(),
{
    if frags.len() <= 1 {
        frags.last()
    } else {
        eval_fragments(frags.drop_last()).join(frags.last())
    }
}

/// The same fragments with the sign of the newest one flipped.
pub open spec fn negate_fragments(frags: Seq<Fragment>) -> Seq<Fragment>
    recommends
        frags.len() > 0,
{
    frags.update(frags.len() - 1, frags.last().flipped())
}

/// The chain that a piece of text starts as: one additive fragment.
pub open spec fn literal(text: Seq<char>) -> Seq<Fragment> {
    seq![Fragment::plain(text)]
}

/// The fragments of a difference: those of `a`, then those of `b` negated.
pub open spec fn sub_fragments(a: Seq<Fragment>, b: Seq<Fragment>) -> Seq<Fragment>
    recommends
        b.len() > 0,
{
    a + negate_fragments(b)
}

/// The text that a sequence of fragments stands for.
pub open spec fn text_of(frags: Seq<Fragment>) -> Seq<char>
    recommends
        frags.len() > 0,
{
    eval_fragments(frags).output()
}

/// One more fragment after a non-empty sequence is joined to what the
/// sequence folds into.
pub proof fn lemma_eval_push(frags: Seq<Fragment>, newest: Fragment)
    requires
        frags.len() > 0,
    ensures
        eval_fragments(frags.push(newest)) == eval_fragments(frags).join(newest),
{
    assert(frags.push(newest).drop_last() =~= frags);
}

/// A string you can subtract from: a linked list of signed fragments, the
/// newest in front. A chain is never changed once built; chains built from
/// it share it.
#[derive(Debug)]
pub struct Switchstring {
    /// The newest fragment.
    pub this: Inner,
    /// Everything that came before it, if anything did.
    pub prev: Option<Arc<Switchstring>>,
}

impl View for Switchstring {
    type V = Seq<Fragment>;

    /// The fragments of the chain, oldest first.
    open spec fn view(&self) -> Seq<Fragment> {
        self.fragments()
    }
}

/// `Arc::clone`: a second handle to the same chain.
#[verifier::external_body]
fn share(chain: &Arc<Switchstring>) -> (res: Arc<Switchstring>)
    ensures
        *res == **chain,
{
    Arc::clone(chain)
}

impl Switchstring {
    /// The fragments of the chain, oldest first: those of `prev`, then `this`.
    pub open spec fn fragments(&self) -> Seq<Fragment>
        decreases self,
    {
        match self.prev {
            Some(prev) => (*prev).fragments().push(self.this@),
            None => seq![self.this@],
        }
    }

    /// The chain of one additive fragment that holds `s`.
    pub open spec fn single(s: String) -> Switchstring {
        Switchstring { this: Inner { s, neg: Negation::No }, prev: None }
    }

    /// `self` with `other` spliced in behind its oldest node: every node of
    /// `self` anew, down to the one without a tail, which gets `other` as
    /// its tail.
    pub open spec fn spliced(self, other: Switchstring) -> Switchstring
        decreases self,
    {
        Switchstring {
            this: self.this,
            prev: Some(
                Arc::new(
                    match self.prev {
                        Some(prev) => (*prev).spliced(other),
                        None => other,
                    },
                ),
            ),
        }
    }

    /// The chain that differs from `self` in the sign of `this` alone.
    pub open spec fn flipped(self) -> Switchstring {
        Switchstring {
            this: Inner { s: self.this.s, neg: self.this.neg.flipped() },
            prev: self.prev,
        }
    }

    /// A chain is never empty, and its newest fragment is `this`.
    pub proof fn lemma_newest(&self)
        ensures
            self@.len() >= 1,
            self@.last() == self.this@,
            self.prev is None <==> self@.len() == 1,
            self.prev matches Some(prev) ==> self@.drop_last() == prev@,
        decreases self,
    {
        match self.prev {
            Some(prev) => {
                (*prev).lemma_newest();
                assert(self@.drop_last() =~= prev@);
            },
            None => {},
        }
    }

    /// Splicing puts the fragments of `other` before those of `self`.
    pub proof fn lemma_spliced_fragments(&self, other: Switchstring)
        ensures
            self.spliced(other)@ == other@ + self@,
        decreases self,
    {
        match self.prev {
            Some(prev) => {
                prev.lemma_spliced_fragments(other);
            },
            None => {},
        }
        assert(self.spliced(other)@ =~= other@ + self@);
    }

    /// Prepends the given chain to `self`, returning a new chain: the
    /// fragments of `other`, then those of `self`. Only the spine of `self`
    /// is rebuilt; what lies behind the head of `other` is shared.
    pub fn prepend(&self, other: &Switchstring) -> (res: Switchstring)
        ensures
            res == self.spliced(*other),
            res@ == other@ + self@,
        decreases self,
    {
        proof {
            self.lemma_spliced_fragments(*other);
        }
        // base case: self is the end of a list and other is an arbitrary chain
        let prev = match &self.prev {
            Some(prev) => prev.prepend(other),
            None => other.clone(),
        };
        Switchstring { this: self.this.clone(), prev: Some(Arc::new(prev)) }
    }

    /// Evaluates the chain into a single fragment, which may be negative.
    pub fn eval(&self) -> (res: Inner)
        ensures
            res@ == eval_fragments(self@),
        decreases self,
    {
        proof {
            self.lemma_newest();
        }
        // base case: end of the list
        // recursive case: evaluate what came before, then join this to it
        match &self.prev {
            Some(prev) => {
                let prefix = prev.eval();
                Inner::combine(prefix, &self.this)
            },
            None => self.this.clone(),
        }
    }

    /// The same chain with the sign of its newest fragment flipped. The
    /// fragments before it are shared, not copied.
    pub fn negated(&self) -> (res: Switchstring)
        ensures
            res == self.flipped(),
            res@ == negate_fragments(self@),
    {
        proof {
            self.lemma_newest();
        }
        let res = Switchstring {
            this: Inner { s: self.this.s.clone(), neg: self.this.neg.neg() },
            prev: match &self.prev {
                Some(prev) => Some(share(prev)),
                None => None,
            },
        };
        assert(res@ =~= negate_fragments(self@));
        res
    }

    /// Whether two chains hold the same fragments in the same order.
    pub fn same(&self, other: &Switchstring) -> (res: bool)
        ensures
            res == (self@ == other@),
        decreases self,
    {
        proof {
            self.lemma_newest();
            other.lemma_newest();
        }
        if !(self.this == other.this) {
            return false;
        }
        match (&self.prev, &other.prev) {
            (Some(a), Some(b)) => a.same(b),
            (None, None) => {
                assert(self@ =~= other@);
                true
            },
            _ => false,
        }
    }
}

impl Clone for Switchstring {
    /// A new head node over the same shared tail.
    fn clone(&self) -> (res: Switchstring)
        ensures
            res == *self,
    {
        Switchstring {
            this: self.this.clone(),
            prev: match &self.prev {
                Some(prev) => Some(share(prev)),
                None => None,
            },
        }
    }
}

impl PartialEq for Switchstring {
    fn eq(&self, other: &Switchstring) -> (res: bool) {
        self.same(other)
    }
}

impl PartialEqSpecImpl for Switchstring {
    open spec fn obeys_eq_spec() -> bool {
        true
    }

    open spec fn eq_spec(&self, other: &Switchstring) -> bool {
        self@ == other@
    }
}

impl Eq for Switchstring {

}

} // verus!
