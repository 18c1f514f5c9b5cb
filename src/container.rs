//! Sinks that start empty and take tokens one at a time: a list, a string, or one that keeps
//! nothing, so that a parse that does not need the tokens does not allocate for them.
use vstd::prelude::*;
use crate::mode::Value;
use crate::parser::{Sink, sink_value};

verus! {

/// A sink for tokens.
pub trait Container: Sized {
    /// Which kind of sink this is.
    spec fn sink() -> Sink;

    /// The tokens kept so far, in order.
    spec fn kept(&self) -> Seq<char>;

    /// An empty sink.
    fn default() -> (r: Self)
        ensures
            r.kept() == Seq::<char>::empty(),
    ;

    /// Takes one token: kept at the end, unless the sink discards.
    fn push(&mut self, t: char)
        ensures
            final(self).kept() == (if Self::sink() == Sink::Discard {
                old(self).kept()
            } else {
                old(self).kept().push(t)
            }),
    ;

    /// The output made of the kept tokens.
    fn into_value(self) -> (r: Value)
        ensures
            r@ == sink_value(Self::sink(), self.kept()),
    ;
}

/// A sink that keeps nothing.
#[derive(Clone, Copy, Debug, PartialEq, Eq, Structural)]
pub struct Discard;

impl Container for Discard {
    open spec fn sink() -> Sink {
        Sink::Discard
    }

    open spec fn kept(&self) -> Seq<char> {
        Seq::empty()
    }

    fn default() -> (r: Self) {
        Discard
    }

    fn push(&mut self, t: char) {
    }

    fn into_value(self) -> (r: Value) {
        Value::Unit
    }
}

impl Container for Vec<char> {
    open spec fn sink() -> Sink {
        Sink::List
    }

    open spec fn kept(&self) -> Seq<char> {
        self@
    }

    fn default() -> (r: Self) {
        Vec::new()
    }

    fn push(&mut self, t: char) {
        Vec::push(self, t);
    }

    fn into_value(self) -> (r: Value) {
        Value::Tokens(self)
    }
}

/// Relies on `String::push`: appends `c` to the string.
#[verifier::external_body]
fn push_char(s: &mut String, c: char)
    ensures
        final(s)@ == old(s)@.push(c),
{
    s.push(c)
}

impl Container for String {
    open spec fn sink() -> Sink {
        Sink::Text
    }

    open spec fn kept(&self) -> Seq<char> {
        self@
    }

    fn default() -> (r: Self) {
        String::new()
    }

    fn push(&mut self, t: char) {
        push_char(self, t);
    }

    fn into_value(self) -> (r: Value) {
        Value::Text(self)
    }
}

} // verus!
