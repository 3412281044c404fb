//! Into a chain from plain text, and back.
use crate::chain::{literal, text_of, Switchstring};
use crate::fragment::Inner;
use crate::sign::Negation;
use vstd::prelude::*;
use vstd::std_specs::convert::FromSpecImpl;

verus! {

impl From<String> for Switchstring {
    /// The chain of one additive fragment that holds `s`.
    fn from(s: String) -> (res: Switchstring)
        ensures
            res == Switchstring::single(s),
            res@ == literal(s@),
    {
        Switchstring { this: Inner { s, neg: Negation::No }, prev: None }
    }
}

impl FromSpecImpl<String> for Switchstring {
    open spec fn obeys_from_spec() -> bool {
        true
    }

    open spec fn from_spec(s: String) -> Switchstring {
        Switchstring::single(s)
    }
}

impl<'a> From<&'a str> for Switchstring {
    /// The chain of one additive fragment that holds a copy of `s`.
    fn from(s: &'a str) -> (res: Switchstring)
        ensures
            res@ == literal(s@),
    {
        Switchstring::from(s.to_owned())
    }
}

impl<'a> FromSpecImpl<&'a str> for Switchstring {
    open spec fn obeys_from_spec() -> bool {
        false
    }

    open spec fn from_spec(s: &'a str) -> Switchstring {
        arbitrary()
    }
}

impl From<Switchstring> for String {
    /// Collapses the chain: evaluates it and keeps the text of an additive
    /// result; a result that is still negative collapses to nothing.
    fn from(s: Switchstring) -> (res: String)
        ensures
            res@ == text_of(s@),
    {
        s.eval().into_text()
    }
}

impl FromSpecImpl<Switchstring> for String {
    open spec fn obeys_from_spec() -> bool {
        false
    }

    open spec fn from_spec(s: Switchstring) -> String {
        arbitrary()
    }
}

} // verus!
