//! Things that can be read as an ordered list of tokens: one token, a list, a string.
use vstd::prelude::*;

verus! {

/// A finite, ordered, repeatable list of tokens.
pub trait TokenSeq {
    /// The tokens, in order.
    spec fn tokens(&self) -> Seq<char>;

    /// The tokens, in order, as a list.
    fn to_tokens(&self) -> (r: Vec<char>)
        ensures
            r@ == self.tokens(),
    ;
}

impl TokenSeq for char {
    open spec fn tokens(&self) -> Seq<char> {
        seq![*self]
    }

    fn to_tokens(&self) -> (r: Vec<char>) {
        let mut r: Vec<char> = Vec::new();
        r.push(*self);
        assert(r@ =~= seq![*self]);
        r
    }
}

impl TokenSeq for Vec<char> {
    open spec fn tokens(&self) -> Seq<char> {
        self@
    }

    fn to_tokens(&self) -> (r: Vec<char>) {
        let mut r: Vec<char> = Vec::new();
        let mut i: usize = 0;
        while i < self.len()
            invariant
                i <= self@.len(),
                r@ == self@.subrange(0, i as int),
            decreases self@.len() - i,
        {
            r.push(self[i]);
            i = i + 1;
        }
        assert(r@ =~= self@);
        r
    }
}

/// Relies on `str::chars` and `Vec`'s `FromIterator`: the chars of `s`, in order.
#[verifier::external_body]
fn chars_of(s: &str) -> (r: Vec<char>)
    ensures
        r@ == s@,
{
    s.chars().collect()
}

impl<'a> TokenSeq for &'a str {
    open spec fn tokens(&self) -> Seq<char> {
        (*self)@
    }

    fn to_tokens(&self) -> (r: Vec<char>) {
        chars_of(*self)
    }
}

impl TokenSeq for String {
    open spec fn tokens(&self) -> Seq<char> {
        self@
    }

    fn to_tokens(&self) -> (r: Vec<char>) {
        chars_of(self.as_str())
    }
}

} // verus!
