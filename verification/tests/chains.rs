use std::sync::Arc;

use switchstring::{Inner, Negation, Switchstring};

fn plain(text: &str) -> Switchstring {
    Switchstring {
        this: Inner::new(text.to_string(), false),
        prev: None,
    }
}

#[test]
fn exprs() {
    let a: Switchstring = "aa".into();
    let b = "bb";
    let c = "cc";
    let s: String = (&a + b - c + c + &a - &a - b).into();
    assert_eq!("aabbcc", &s);
}

#[test]
fn concat() {
    let a = Switchstring {
        this: Inner::new("aa".to_string(), false),
        prev: None,
    };

    let b = Switchstring {
        this: Inner::new("bb".to_string(), true),
        prev: None,
    };

    let exp = Switchstring {
        this: Inner::new("aa".to_string(), false),
        prev: Some(Arc::new(Switchstring {
            this: Inner::new("bb".to_string(), true),
            prev: None,
        })),
    };

    let res = a.prepend(&b);

    assert_eq!(&exp, &res);

    let exp2 = Switchstring {
        this: Inner::new("cc".to_string(), false),
        prev: Some(Arc::new(exp)),
    };

    let c = Switchstring {
        this: Inner::new("cc".to_string(), false),
        prev: None,
    };

    let res = c.prepend(&res);

    assert_eq!(&exp2, &res);
}

#[test]
fn promise_example() {
    let a = "I promise I love maths";
    let b = "maths";
    let c = "cute rustaceans such as ferris";
    let d: Switchstring = "I promise ".into();
    let improved = String::from(-d + a - b + c);
    assert_eq!("I love cute rustaceans such as ferris", improved);
}

#[test]
fn promise_example_step_by_step() {
    let d: Switchstring = "I promise ".into();
    let without_promise = -d + "I promise I love maths";
    assert_eq!(String::from(without_promise.clone()), "I love maths");
    let without_maths = without_promise - "maths";
    assert_eq!(String::from(without_maths.clone()), "I love ");
    let with_ferris = without_maths + "cute rustaceans such as ferris";
    assert_eq!(String::from(with_ferris), "I love cute rustaceans such as ferris");
}

#[test]
fn adding_two_plain_fragments_concatenates() {
    let s: String = (plain("foo") + plain("bar")).into();
    assert_eq!(s, "foobar");
    let s: String = (plain("") + plain("bar")).into();
    assert_eq!(s, "bar");
    let s: String = (plain("foo") + plain("")).into();
    assert_eq!(s, "foo");
    let s: String = (plain("") + plain("")).into();
    assert_eq!(s, "");
}

#[test]
fn subtracting_a_matching_ending_strips_it_once() {
    let s: String = (plain("I love maths") - plain("maths")).into();
    assert_eq!(s, "I love ");
    let s: String = (plain("abab") - plain("ab")).into();
    assert_eq!(s, "ab");
    let s: String = (plain("ab") - plain("ab")).into();
    assert_eq!(s, "");
    let s: String = (plain("ab") - plain("")).into();
    assert_eq!(s, "ab");
}

#[test]
fn subtracting_without_a_match_changes_nothing() {
    let s: String = (plain("I love maths") - plain("math")).into();
    assert_eq!(s, "I love maths");
    let s: String = (plain("maths") - plain("I love maths")).into();
    assert_eq!(s, "maths");
    let s: String = (plain("abc") - plain("ab")).into();
    assert_eq!(s, "abc");
    let s: String = (plain("Maths") - plain("maths")).into();
    assert_eq!(s, "Maths");
    let s: String = (plain("") - plain("a")).into();
    assert_eq!(s, "");
}

#[test]
fn double_negation_is_identity() {
    let chain = plain("aa") + "bb" - "cc";
    let twice = -(-chain.clone());
    assert_eq!(twice, chain);
    assert_eq!(String::from(twice), String::from(chain));

    let single = plain("x");
    let twice = -(-&single);
    assert_eq!(twice, single);
    assert_eq!(String::from(twice), "x");
}

#[test]
fn negated_alone_collapses_to_empty() {
    let s: String = (-plain("anything")).into();
    assert_eq!(s, "");
    let s: String = (-plain("")).into();
    assert_eq!(s, "");
}

#[test]
fn combining_leaves_operands_as_they_were() {
    let a = plain("aa") + "bb";
    let before = a.clone();
    let b = plain("cc");
    let c = plain("dd");

    let ab = &a + &b;
    let ac = &a - &c;
    let ca = &c + &a;

    assert_eq!(a, before);
    assert_eq!(a.eval(), Inner::new("aabb".to_string(), false));
    assert_eq!(b, plain("cc"));
    assert_eq!(c, plain("dd"));
    assert_eq!(String::from(ab), "aabbcc");
    assert_eq!(String::from(ac), "aabb");
    assert_eq!(String::from(ca), "ddaabb");
    assert_eq!(String::from(a), "aabb");
}

#[test]
fn prepend_puts_the_other_chain_first() {
    let a = plain("a");
    let b = plain("b");
    let ba = a.prepend(&b);
    assert_eq!(String::from(ba.clone()), "ba");
    assert_eq!(ba.this, Inner::new("a".to_string(), false));
    let prev = ba.prev.expect("a combined chain has a tail");
    assert_eq!(*prev, b);

    let c = plain("c");
    let cba = a.prepend(&b).prepend(&c);
    assert_eq!(String::from(cba), "cba");
}

#[test]
fn prepend_onto_a_longer_chain_rebuilds_its_spine() {
    let left = plain("1") + "2";
    let right = plain("3") + "4";
    let all = right.prepend(&left);
    let expected = plain("1") + "2" + "3" + "4";
    assert_eq!(all, expected);
    assert_eq!(String::from(all), "1234");
}

#[test]
fn join_plain_plain_concatenates() {
    let res = Inner::combine(
        Inner::new("ab".to_string(), false),
        &Inner::new("cd".to_string(), false),
    );
    assert_eq!(res, Inner::new("abcd".to_string(), false));
}

#[test]
fn join_plain_negated_strips_the_end() {
    let res = Inner::combine(
        Inner::new("abcd".to_string(), false),
        &Inner::new("cd".to_string(), true),
    );
    assert_eq!(res, Inner::new("ab".to_string(), false));

    let res = Inner::combine(
        Inner::new("abcd".to_string(), false),
        &Inner::new("ab".to_string(), true),
    );
    assert_eq!(res, Inner::new("abcd".to_string(), false));
}

#[test]
fn join_negated_plain_strips_the_start() {
    let res = Inner::combine(
        Inner::new("ab".to_string(), true),
        &Inner::new("abcd".to_string(), false),
    );
    assert_eq!(res, Inner::new("cd".to_string(), false));

    let res = Inner::combine(
        Inner::new("cd".to_string(), true),
        &Inner::new("abcd".to_string(), false),
    );
    assert_eq!(res, Inner::new("abcd".to_string(), false));
}

#[test]
fn join_negated_negated_concatenates_and_stays_negated() {
    let res = Inner::combine(
        Inner::new("ab".to_string(), true),
        &Inner::new("cd".to_string(), true),
    );
    assert_eq!(res, Inner::new("abcd".to_string(), true));
}

#[test]
fn mixed_signs_always_give_an_addition() {
    let stripped = (plain("abc") - "c").eval();
    assert_eq!(stripped.neg, Negation::No);
    let kept = (plain("abc") - "x").eval();
    assert_eq!(kept.neg, Negation::No);
    let stripped = (-plain("a") + "abc").eval();
    assert_eq!(stripped, Inner::new("bc".to_string(), false));
    let kept = (-plain("x") + "abc").eval();
    assert_eq!(kept, Inner::new("abc".to_string(), false));
}

#[test]
fn a_later_addition_wins_over_an_earlier_removal() {
    let s: String = (-plain("a") + "b").into();
    assert_eq!(s, "b");
}

#[test]
fn negated_fragments_accumulate() {
    let both = -plain("ab") - "cd";
    assert_eq!(both.eval(), Inner::new("abcd".to_string(), true));
    assert_eq!(String::from(both.clone()), "");
    let s: String = (both + "abcdef").into();
    assert_eq!(s, "ef");
}

#[test]
fn negation_flips_only_the_newest_fragment() {
    let chain = -(plain("ab") + "b");
    let expected = Switchstring {
        this: Inner::new("b".to_string(), true),
        prev: Some(Arc::new(plain("ab"))),
    };
    assert_eq!(chain, expected);
    assert_eq!(String::from(chain), "a");
}

#[test]
fn eval_of_a_single_fragment_is_that_fragment() {
    assert_eq!(plain("abc").eval(), Inner::new("abc".to_string(), false));
    assert_eq!((-plain("abc")).eval(), Inner::new("abc".to_string(), true));
}

#[test]
fn stripping_works_on_characters_beyond_ascii() {
    let s: String = (plain("h\u{e9}llo w\u{f6}rld") - "w\u{f6}rld").into();
    assert_eq!(s, "h\u{e9}llo ");
    let s: String = (-plain("h\u{e9}") + "h\u{e9}llo").into();
    assert_eq!(s, "llo");
    let s: String = (plain("\u{1f980}\u{1f980}") - "\u{1f980}").into();
    assert_eq!(s, "\u{1f980}");
}

#[test]
fn sign_negation_flips() {
    assert_eq!(-Negation::No, Negation::Negated);
    assert_eq!(-Negation::Negated, Negation::No);
    assert_eq!(-(-Negation::No), Negation::No);
}

#[test]
fn new_fragment_holds_text_and_sign() {
    let f = Inner::new("abc".to_string(), true);
    assert_eq!(f.s, "abc");
    assert_eq!(f.neg, Negation::Negated);
    let g = Inner::new(String::new(), false);
    assert_eq!(g.s, "");
    assert_eq!(g.neg, Negation::No);
}

#[test]
fn into_text_drops_a_negative_result() {
    assert_eq!(Inner::new("abc".to_string(), false).into_text(), "abc");
    assert_eq!(Inner::new("abc".to_string(), true).into_text(), "");
}

#[test]
fn from_text_is_a_single_plain_fragment() {
    let a: Switchstring = "abc".into();
    let b: Switchstring = "abc".to_string().into();
    assert_eq!(a, plain("abc"));
    assert_eq!(b, plain("abc"));
    assert!(a.prev.is_none());
}

#[test]
fn equality_is_structural() {
    let joined = plain("a") + "b";
    let whole = plain("ab");
    assert_ne!(joined, whole);
    assert_eq!(String::from(joined.clone()), String::from(whole.clone()));
    assert!(joined.same(&(plain("a") + "b")));
    assert!(!joined.same(&whole));
    assert!(!whole.same(&joined));
    assert_ne!(plain("a"), -plain("a"));
    assert_ne!(plain("a"), plain("b"));
    assert_ne!(plain("a") + "b", plain("c") + "b");
}

#[test]
fn clone_shares_the_tail() {
    let chain = plain("a") + "b" + "c";
    let copy = chain.clone();
    assert_eq!(copy, chain);
    let tail = chain.prev.as_ref().expect("tail");
    let copied_tail = copy.prev.as_ref().expect("tail");
    assert!(Arc::ptr_eq(tail, copied_tail));
}

#[test]
fn negation_shares_the_tail() {
    let chain = plain("a") + "b";
    let negated = chain.negated();
    let tail = chain.prev.as_ref().expect("tail");
    let negated_tail = negated.prev.as_ref().expect("tail");
    assert!(Arc::ptr_eq(tail, negated_tail));
    assert_eq!(negated.this, Inner::new("b".to_string(), true));
}

#[test]
fn prepend_shares_what_lies_behind_the_other_head() {
    let other = plain("a") + "b";
    let res = plain("c").prepend(&other);
    let spliced = res.prev.as_ref().expect("tail");
    let shared = spliced.prev.as_ref().expect("tail");
    assert!(Arc::ptr_eq(shared, other.prev.as_ref().expect("tail")));
}

#[test]
fn every_operand_form_of_add() {
    let a = plain("a");
    let b = plain("b");
    assert_eq!(String::from(a.clone() + "b"), "ab");
    assert_eq!(String::from(a.clone() + "b".to_string()), "ab");
    assert_eq!(String::from(&a + "b"), "ab");
    assert_eq!(String::from(&a + "b".to_string()), "ab");
    assert_eq!(String::from(a.clone() + b.clone()), "ab");
    assert_eq!(String::from(a.clone() + &b), "ab");
    assert_eq!(String::from(&a + b.clone()), "ab");
    assert_eq!(String::from(&a + &b), "ab");
}

#[test]
fn every_operand_form_of_sub() {
    let ab = plain("ab");
    let b = plain("b");
    assert_eq!(String::from(ab.clone() - b.clone()), "a");
    assert_eq!(String::from(ab.clone() - &b), "a");
    assert_eq!(String::from(ab.clone() - "b".to_string()), "a");
    assert_eq!(String::from(ab.clone() - "b"), "a");
    assert_eq!(String::from(&ab - "b"), "a");
    assert_eq!(String::from(&ab - b.clone()), "a");
    assert_eq!(String::from(&ab - &b), "a");
}

#[test]
fn sub_is_add_of_the_negation() {
    let a = plain("aa") + "bb";
    let b = plain("b") + "b";
    assert_eq!(&a - &b, &a + -&b);
    assert_eq!(String::from(&a - &b), "aabb");
}

#[test]
fn subtracting_a_chain_negates_only_its_newest_fragment() {
    let a = plain("xyz");
    let b = plain("y") + "z";
    let res = &a - &b;
    let expected = plain("xyz") + "y" - "z";
    assert_eq!(res, expected);
    assert_eq!(String::from(res), "xyzy");
}

#[test]
fn no_input_fails() {
    let texts = ["", "a", "ab", "ba", "aba", "\u{e9}", " "];
    for x in texts {
        for y in texts {
            let added: String = (plain(x) + y).into();
            assert_eq!(added, format!("{}{}", x, y));
            let subbed: String = (plain(x) - y).into();
            let expected = match x.strip_suffix(y) {
                Some(rest) => rest.to_string(),
                None => x.to_string(),
            };
            assert_eq!(subbed, expected);
            let led: String = (-plain(x) + y).into();
            let expected = match y.strip_prefix(x) {
                Some(rest) => rest.to_string(),
                None => y.to_string(),
            };
            assert_eq!(led, expected);
            let gone: String = (-plain(x) - y).into();
            assert_eq!(gone, "");
        }
    }
}
