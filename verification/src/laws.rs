//! What holds of every chain, stated over the fragments and proved.
use crate::chain::{
    eval_fragments, lemma_eval_push, negate_fragments, sub_fragments, text_of,
    Switchstring,
};
use crate::fragment::{strip_end, Fragment};
use crate::sign::Negation;
use vstd::prelude::*;

verus! {

/// Adding one additive fragment to another gives the first text followed by
/// the second.
pub proof fn law_add_concatenates(x: Fragment, y: Fragment)
    requires
        x.neg == Negation::No,
        y.neg == Negation::No,
    ensures
        text_of(seq![x] + seq![y]) == x.text + y.text,
{
    assert(seq![x] + seq![y] =~= seq![x].push(y));
    lemma_eval_push(seq![x], y);
}

/// Subtracting an additive fragment from one that ends with its text removes
/// that ending, once.
pub proof fn law_sub_strips_matching_end(x: Fragment, y: Fragment)
    requires
        x.neg == Negation::No,
        y.neg == Negation::No,
        y.text.is_suffix_of(x.text),
    ensures
        text_of(sub_fragments(seq![x], seq![y])) == x.text.subrange(
            0,
            x.text.len() - y.text.len(),
        ),
        text_of(sub_fragments(seq![x], seq![y])) + y.text == x.text,
{
    assert(sub_fragments(seq![x], seq![y]) =~= seq![x].push(y.flipped()));
    lemma_eval_push(seq![x], y.flipped());
    assert(x.text.subrange(0, x.text.len() - y.text.len()) + y.text =~= x.text);
}

/// Subtracting an additive fragment from one that does not end with its text
/// changes nothing.
pub proof fn law_sub_keeps_without_match(x: Fragment, y: Fragment)
    requires
        x.neg == Negation::No,
        y.neg == Negation::No,
        !y.text.is_suffix_of(x.text),
    ensures
        text_of(sub_fragments(seq![x], seq![y])) == x.text,
{
    assert(sub_fragments(seq![x], seq![y]) =~= seq![x].push(y.flipped()));
    lemma_eval_push(seq![x], y.flipped());
}

/// Whatever the second text is, subtracting it from an additive fragment
/// gives the first text with that ending stripped where it is there.
pub proof fn law_sub_strips_or_keeps(x: Fragment, y: Fragment)
    requires
        x.neg == Negation::No,
        y.neg == Negation::No,
    ensures
        text_of(sub_fragments(seq![x], seq![y])) == strip_end(x.text, y.text),
{
    assert(sub_fragments(seq![x], seq![y]) =~= seq![x].push(y.flipped()));
    lemma_eval_push(seq![x], y.flipped());
}

/// Flipping a sign twice gives it back.
pub proof fn law_sign_flips_back(sign: Negation)
    ensures
        sign.flipped().flipped() == sign,
{
}

/// Negating a chain twice gives back the chain itself, its fragments, and
/// so its text.
pub proof fn law_double_negation(chain: Switchstring)
    ensures
        chain.flipped().flipped() == chain,
        chain.flipped()@ == negate_fragments(chain@),
        negate_fragments(negate_fragments(chain@)) == chain@,
        text_of(negate_fragments(negate_fragments(chain@))) == text_of(chain@),
{
    chain.lemma_newest();
    assert(chain.flipped()@ =~= negate_fragments(chain@));
    assert(negate_fragments(negate_fragments(chain@)) =~= chain@);
}

/// An additive fragment that is negated and meets nothing else collapses to
/// the empty text.
pub proof fn law_negated_alone_is_empty(x: Fragment)
    requires
        x.neg == Negation::No,
    ensures
        text_of(negate_fragments(seq![x])) == Seq::<char>::empty(),
{
}

/// A chain used in two combinations stands whole and unaltered at the start
/// of both, and each second operand stands whole after it: combining reads
/// its operands and changes neither.
pub proof fn law_combining_keeps_operands(a: Switchstring, b: Switchstring, c: Switchstring)
    ensures
        (a@ + b@).take(a@.len() as int) == a@,
        (a@ + b@).skip(a@.len() as int) == b@,
        (a@ + c@).take(a@.len() as int) == a@,
        (a@ + c@).skip(a@.len() as int) == c@,
{
    assert((a@ + b@).take(a@.len() as int) =~= a@);
    assert((a@ + b@).skip(a@.len() as int) =~= b@);
    assert((a@ + c@).take(a@.len() as int) =~= a@);
    assert((a@ + c@).skip(a@.len() as int) =~= c@);
}

/// Whatever is added to a chain, the result folds to the chain's own fold
/// joined with the new fragment: evaluation goes from the oldest fragment to
/// the newest, one join per fragment.
pub proof fn law_eval_is_a_left_fold(chain: Switchstring, newest: Fragment)
    ensures
        eval_fragments(chain@.push(newest)) == eval_fragments(chain@).join(newest),
{
    chain.lemma_newest();
    lemma_eval_push(chain@, newest);
}

} // verus!
