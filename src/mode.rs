//! Parser outputs and the two evaluation modes that either build them or skip building them.
use vstd::prelude::*;

verus! {

/// What a parser produces.
#[derive(Debug, PartialEq)]
pub enum Value {
    Unit,
    Token(char),
    Tokens(Vec<char>),
    Text(String),
    Pair(Box<Value>, Box<Value>),
    Tuple(Vec<Value>),
}

/// The mathematical value of a [`Value`].
pub enum ValueView {
    Unit,
    Token(char),
    Tokens(Seq<char>),
    Text(Seq<char>),
    Pair(Box<ValueView>, Box<ValueView>),
    Tuple(Seq<ValueView>),
}

/// The mathematical value of an output.
pub open spec fn value_view(v: Value) -> ValueView
    decreases v,
{
    proof {
        broadcast use vstd::std_specs::vec::axiom_vec_index_decreases;

    }
    match v {
        Value::Unit => ValueView::Unit,
        Value::Token(c) => ValueView::Token(c),
        Value::Tokens(cs) => ValueView::Tokens(cs@),
        Value::Text(s) => ValueView::Text(s@),
        Value::Pair(a, b) => ValueView::Pair(Box::new(value_view(*a)), Box::new(value_view(*b))),
        Value::Tuple(vs) => ValueView::Tuple(
            Seq::new(
                vs@.len(),
                |i: int|
                    if 0 <= i < vs@.len() {
                        value_view(vs[i])
                    } else {
                        ValueView::Unit
                    },
            ),
        ),
    }
}

impl View for Value {
    type V = ValueView;

    open spec fn view(&self) -> ValueView {
        value_view(*self)
    }
}

/// The evaluation strategy of one parse: `Emit` builds every output, `Check` only validates
/// and builds none, while consuming input exactly as `Emit` does.
#[derive(Clone, Copy, Debug, PartialEq, Eq, Structural)]
pub enum Mode {
    Emit,
    Check,
}

/// What a parse in `mode` hands back for an output whose value is `v`.
pub open spec fn wrapped(mode: Mode, v: ValueView) -> Option<ValueView> {
    match mode {
        Mode::Emit => Some(v),
        Mode::Check => None,
    }
}

/// The view of a wrapped output.
pub open spec fn wrapped_view(o: Option<Value>) -> Option<ValueView> {
    match o {
        Some(v) => Some(v@),
        None => None,
    }
}

impl Mode {
    /// Whether outputs are built.
    pub fn emits(self) -> (r: bool)
        ensures
            r == (self == Mode::Emit),
    {
        match self {
            Mode::Emit => true,
            Mode::Check => false,
        }
    }

    /// Builds an output with `f` in `Emit` mode; calls nothing in `Check` mode.
    pub fn bind<F: FnOnce() -> Value>(self, f: F) -> (r: Option<Value>)
        requires
            f.requires(()),
        ensures
            self == Mode::Emit ==> r is Some && f.ensures((), r->0),
            self == Mode::Check ==> r is None,
    {
        match self {
            Mode::Emit => Some(f()),
            Mode::Check => None,
        }
    }

    /// Applies `g` to a built output; passes nothing on in `Check` mode.
    pub fn map<G: FnOnce(Value) -> Value>(self, o: Option<Value>, g: G) -> (r: Option<Value>)
        requires
            self == Mode::Emit ==> o is Some && g.requires((o->0,)),
            self == Mode::Check ==> o is None,
        ensures
            self == Mode::Emit ==> r is Some && g.ensures((o->0,), r->0),
            self == Mode::Check ==> r is None,
    {
        match self {
            Mode::Emit => match o {
                Some(v) => Some(g(v)),
                None => None,
            },
            Mode::Check => None,
        }
    }

    /// Pairs two built outputs; passes nothing on in `Check` mode.
    pub fn combine(self, a: Option<Value>, b: Option<Value>) -> (r: Option<Value>)
        requires
            self == Mode::Emit ==> a is Some && b is Some,
            self == Mode::Check ==> a is None && b is None,
        ensures
            r == (match (a, b) {
                (Some(x), Some(y)) => Some(Value::Pair(Box::new(x), Box::new(y))),
                _ => None,
            }),
            self == Mode::Emit ==> wrapped_view(r) == Some(
                ValueView::Pair(Box::new(a->0@), Box::new(b->0@)),
            ),
            self == Mode::Check ==> r is None,
    {
        match (a, b) {
            (Some(x), Some(y)) => Some(Value::Pair(Box::new(x), Box::new(y))),
            _ => None,
        }
    }
}

} // verus!
