//! Pairing of raw command-line tokens.
//!
//! The command line is consumed as an ordered sequence of pairs: each token
//! together with the token that follows it, if any. A flag that expects a
//! value reads it from the second component of its pair.

use vstd::prelude::*;

verus! {

/// One command-line token together with the token right after it, if any.
#[derive(Clone, Debug, PartialEq, Eq)]
pub struct ArgPair {
    pub token: String,
    pub follow: Option<String>,
}

/// The mathematical model of an `ArgPair`.
#[verifier::ext_equal]
pub struct ArgPairV {
    pub token: Seq<char>,
    pub follow: Option<Seq<char>>,
}

impl View for ArgPair {
    type V = ArgPairV;

    open spec fn view(&self) -> ArgPairV {
        ArgPairV { token: self.token@, follow: crate::options::opt_view(self.follow) }
    }
}

/// Turns the raw token list (program name first) into the pair sequence that
/// the resolver consumes: pair `i` holds token `i` and, when one exists,
/// token `i + 1`.
pub fn parse_args(tokens: &Vec<String>) -> (r: Vec<ArgPair>)
    ensures
        r@.len() == tokens@.len(),
        forall|i: int|
            0 <= i < r@.len() ==> #[trigger] r@[i]@.token == tokens@[i]@,
        forall|i: int|
            0 <= i < r@.len() - 1 ==> #[trigger] r@[i]@.follow == Some(tokens@[i + 1]@),
        r@.len() > 0 ==> r@[r@.len() - 1]@.follow is None,
{
    let mut pairs: Vec<ArgPair> = Vec::new();
    let n: usize = tokens.len();
    let mut i: usize = 0;
    while i < n
        invariant
            n == tokens@.len(),
            0 <= i <= n,
            pairs@.len() == i,
            forall|k: int|
                0 <= k < i ==> #[trigger] pairs@[k]@.token == tokens@[k]@,
            forall|k: int|
                0 <= k < i && k < n - 1 ==> #[trigger] pairs@[k]@.follow == Some(tokens@[k + 1]@),
            forall|k: int|
                0 <= k < i && k == n - 1 ==> #[trigger] pairs@[k]@.follow is None,
        decreases n - i,
    {
        let follow = if i + 1 < n {
            Some(tokens[i + 1].clone())
        } else {
            None
        };
        pairs.push(ArgPair { token: tokens[i].clone(), follow });
        i = i + 1;
    }
    pairs
}

} // verus!
