//! Strings you can subtract.
//!
//! A [`Switchstring`] is a chain of signed pieces of text. Adding a chain
//! appends its pieces; subtracting one appends them with the last piece
//! marked as a removal. Nothing is concatenated or stripped until the chain
//! is turned back into a `String`, at which point the pieces are folded
//! together from the oldest to the newest.
pub mod sign;
pub mod fragment;
pub mod chain;
pub mod ops;
pub mod convert;
pub mod laws;

pub use chain::Switchstring;
pub use fragment::{Fragment, Inner};
pub use sign::Negation;
