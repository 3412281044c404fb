//! A signed piece of text, and the rule that folds two of them into one.
use crate::sign::Negation;
use vstd::prelude::*;
use vstd::std_specs::cmp::PartialEqSpecImpl;
use vstd::string::StringExecFns;

verus! {

/// The mathematical value of an [`Inner`]: its characters and its sign.
pub ghost struct Fragment {
    pub text: Seq<char>,
    pub neg: Negation,
}

/// `text` without `pattern` at its end, or `text` itself where it does not
/// end with `pattern`.
pub open spec fn strip_end(text: Seq<char>, pattern: Seq<char>) -> Seq<char> {
    if pattern.is_suffix_of(text) {
        text.subrange(0, text.len() - pattern.len())
    } else {
        text
    }
}

/// `text` without `pattern` at its start, or `text` itself where it does not
/// start with `pattern`.
pub open spec fn strip_start(text: Seq<char>, pattern: Seq<char>) -> Seq<char> {
    if pattern.is_prefix_of(text) {
        text.subrange(pattern.len() as int, text.len() as int)
    } else {
        text
    }
}

impl Fragment {
    /// An additive fragment.
    pub open spec fn plain(text: Seq<char>) -> Fragment {
        Fragment { text, neg: Negation::No }
    }

    /// The same text under the other sign.
    pub open spec fn flipped(self) -> Fragment {
        Fragment { text: self.text, neg: self.neg.flipped() }
    }

    /// What `self`, as everything accumulated so far, becomes when `suffix`
    /// comes after it.
    ///
    /// Equal signs concatenate and keep the sign. A removal after an addition
    /// strips itself from the end; an addition after a removal has the
    /// removal stripped from its start. Both mixed cases give an addition,
    /// and leave the text alone where there is nothing to strip.
    pub open spec fn join(self, suffix: Fragment) -> Fragment {
        match (self.neg, suffix.neg) {
            (Negation::No, Negation::No) => Fragment {
                text: self.text + suffix.text,
                neg: Negation::No,
            },
            (Negation::No, Negation::Negated) => Fragment {
                text: strip_end(self.text, suffix.text),
                neg: Negation::No,
            },
            (Negation::Negated, Negation::No) => Fragment {
                text: strip_start(suffix.text, self.text),
                neg: Negation::No,
            },
            (Negation::Negated, Negation::Negated) => Fragment {
                text: self.text + suffix.text,
                neg: Negation::Negated,
            },
        }
    }

    /// The text a fully folded fragment stands for: its own text if it is an
    /// addition, nothing if it is a removal that never met anything.
    pub open spec fn output(self) -> Seq<char> {
        match self.neg {
            Negation::No => self.text,
            Negation::Negated => Seq::empty(),
        }
    }
}

/// A string that can be negative.
#[derive(Debug)]
pub struct Inner {
    pub s: String,
    pub neg: Negation,
}

impl View for Inner {
    type V = Fragment;

    open spec fn view(&self) -> Fragment {
        Fragment { text: self.s@, neg: self.neg }
    }
}

impl Clone for Inner {
    fn clone(&self) -> (res: Inner)
        ensures
            res == *self,
    {
        Inner { s: self.s.clone(), neg: self.neg }
    }
}

impl PartialEq for Inner {
    fn eq(&self, other: &Inner) -> (res: bool) {
        self.s == other.s && self.neg == other.neg
    }
}

impl PartialEqSpecImpl for Inner {
    open spec fn obeys_eq_spec() -> bool {
        true
    }

    open spec fn eq_spec(&self, other: &Inner) -> bool {
        self@ == other@
    }
}

impl Eq for Inner {

}

/// `str::strip_suffix` with a string pattern: `Some` exactly when `text`
/// ends with `pattern`, and then what stands before that ending.
#[verifier::external_body]
fn strip_suffix<'a>(text: &'a str, pattern: &str) -> (res: Option<&'a str>)
    ensures
        res is Some <==> pattern@.is_suffix_of(text@),
        res matches Some(rest) ==> rest@ == text@.subrange(0, text@.len() - pattern@.len()),
{
    text.strip_suffix(pattern)
}

/// `str::strip_prefix` with a string pattern: `Some` exactly when `text`
/// starts with `pattern`, and then what stands after that start.
#[verifier::external_body]
fn strip_prefix<'a>(text: &'a str, pattern: &str) -> (res: Option<&'a str>)
    ensures
        res is Some <==> pattern@.is_prefix_of(text@),
        res matches Some(rest) ==> rest@ == text@.subrange(
            pattern@.len() as int,
            text@.len() as int,
        ),
{
    text.strip_prefix(pattern)
}

impl Inner {
    /// A fragment holding `s`, negated or not.
    pub fn new(s: String, negated: bool) -> (res: Inner)
        ensures
            res.s == s,
            res@.text == s@,
            res@.neg == (if negated { Negation::Negated } else { Negation::No }),
    {
        Inner {
            s,
            neg: match negated {
                true => Negation::Negated,
                false => Negation::No,
            },
        }
    }

    /// Folds `suffix` into `prefix`, which stands for everything before it.
    pub fn combine(prefix: Inner, suffix: &Inner) -> (res: Inner)
        ensures
            res@ == prefix@.join(suffix@),
    {
        match (prefix.neg, suffix.neg) {
            (Negation::No, Negation::No) => Inner {
                s: prefix.s.concat(suffix.s.as_str()),
                neg: Negation::No,
            },
            (Negation::No, Negation::Negated) => {
                match strip_suffix(prefix.s.as_str(), suffix.s.as_str()) {
                    Some(rest) => Inner { s: rest.to_owned(), neg: Negation::No },
                    None => Inner { s: prefix.s, neg: Negation::No },
                }
            },
            // a later addition wins over an earlier removal
            (Negation::Negated, Negation::No) => {
                match strip_prefix(suffix.s.as_str(), prefix.s.as_str()) {
                    Some(rest) => Inner { s: rest.to_owned(), neg: Negation::No },
                    None => Inner { s: suffix.s.clone(), neg: Negation::No },
                }
            },
            (Negation::Negated, Negation::Negated) => Inner {
                s: prefix.s.concat(suffix.s.as_str()),
                neg: Negation::Negated,
            },
        }
    }

    /// The plain string this fragment stands for once nothing more follows.
    pub fn into_text(self) -> (res: String)
        ensures
            res@ == self@.output(),
    {
        match self.neg {
            Negation::No => self.s,
            Negation::Negated => String::new(),
        }
    }
}

} // verus!
