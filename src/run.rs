//! Running parsers on a cursor, in either mode, as `parse` states.
use vstd::prelude::*;
use crate::container::{Container, Discard};
use crate::cursor::Cursor;
use crate::tokens::TokenSeq;
use crate::error::{ErrorView, ParseError};
use crate::mode::{Mode, Value, ValueView, value_view, wrapped, wrapped_view};
use crate::parser::{
    Any, Choice, Empty, End, Group, Just, NoneOf, OneOf, Outcome, Parser, Sink, TakeUntil, Todo,
    expectations, parse, parse_any, parse_choice, parse_empty, parse_end, parse_group, parse_just,
    parse_none_of, parse_one_of, parse_take_until, parse_todo,
};

verus! {

broadcast use vstd::std_specs::vec::axiom_vec_index_decreases;

/// Whether a run in `mode` that returned `r` and left the cursor at `pos` did what `o` says.
pub open spec fn produced(
    o: Outcome,
    mode: Mode,
    r: Result<Option<Value>, ParseError>,
    pos: nat,
) -> bool {
    match o {
        Outcome::Success { value, pos: q } => r is Ok && wrapped_view(r->Ok_0) == wrapped(
            mode,
            value,
        ) && pos == q,
        Outcome::Failure { error, pos: q } => r is Err && r->Err_0@ == error && pos == q,
        Outcome::Unimplemented => false,
    }
}

/// Whether `t` is among `set`.
fn member(set: &Vec<char>, t: char) -> (r: bool)
    ensures
        r == set@.contains(t),
{
    let mut i: usize = 0;
    while i < set.len()
        invariant
            i <= set@.len(),
            forall|j: int| 0 <= j < i ==> set@[j] != t,
        decreases set@.len() - i,
    {
        if set[i] == t {
            assert(set@[i as int] == t);
            return true;
        }
        i = i + 1;
    }
    false
}

/// Each token of `set` as an expectation.
fn expectation_list(set: &Vec<char>) -> (r: Vec<Option<char>>)
    ensures
        r@ == expectations(set@),
{
    let mut r: Vec<Option<char>> = Vec::new();
    let mut i: usize = 0;
    while i < set.len()
        invariant
            i <= set@.len(),
            r@ == expectations(set@.subrange(0, i as int)),
        decreases set@.len() - i,
    {
        r.push(Some(set[i]));
        i = i + 1;
        assert(r@ =~= expectations(set@.subrange(0, i as int)));
    }
    assert(set@.subrange(0, set@.len() as int) =~= set@);
    r
}

/// A list holding one expectation.
fn expect_one(t: char) -> (r: Vec<Option<char>>)
    ensures
        r@ == seq![Some(t)],
{
    let mut r: Vec<Option<char>> = Vec::new();
    r.push(Some(t));
    assert(r@ =~= seq![Some(t)]);
    r
}

impl End {
    /// Succeeds at the end of input; elsewhere fails without consuming.
    pub fn go(&self, inp: &mut Cursor, mode: Mode) -> (r: Result<Option<Value>, ParseError>)
        requires
            old(inp).wf(),
        ensures
            final(inp).wf(),
            final(inp)@.tokens == old(inp)@.tokens,
            produced(parse_end(old(inp)@.tokens, old(inp)@.pos), mode, r, final(inp)@.pos),
    {
        let before = inp.save();
        let (_, found) = inp.next();
        match found {
            None => Ok(mode.bind(|| -> (v: Value) ensures v == Value::Unit { Value::Unit })),
            Some(tok) => {
                let span = inp.span_since(before);
                inp.rewind(before);
                Err(ParseError::expected_found(Vec::new(), Some(tok), span))
            },
        }
    }
}

impl Empty {
    /// Succeeds without consuming.
    pub fn go(&self, inp: &mut Cursor, mode: Mode) -> (r: Result<Option<Value>, ParseError>)
        requires
            old(inp).wf(),
        ensures
            final(inp).wf(),
            final(inp)@ == old(inp)@,
            produced(parse_empty(old(inp)@.tokens, old(inp)@.pos), mode, r, final(inp)@.pos),
    {
        Ok(mode.bind(|| -> (v: Value) ensures v == Value::Unit { Value::Unit }))
    }
}

impl Just {
    /// Matches the tokens of `seq` one by one, failing at the first mismatch.
    pub fn go(&self, inp: &mut Cursor, mode: Mode) -> (r: Result<Option<Value>, ParseError>)
        requires
            old(inp).wf(),
        ensures
            final(inp).wf(),
            final(inp)@.tokens == old(inp)@.tokens,
            produced(
                parse_just(self.seq@, old(inp)@.tokens, old(inp)@.pos, 0),
                mode,
                r,
                final(inp)@.pos,
            ),
    {
        let ghost input = inp@.tokens;
        let ghost start = inp@.pos;
        let mut i: usize = 0;
        while i < self.seq.len()
            invariant
                inp.wf(),
                inp@.tokens == input,
                input == old(inp)@.tokens,
                start == old(inp)@.pos,
                i <= self.seq@.len(),
                inp@.pos == start + i,
                parse_just(self.seq@, input, start, i as nat) == parse_just(
                    self.seq@,
                    input,
                    start,
                    0,
                ),
            decreases self.seq@.len() - i,
        {
            let expected = self.seq[i];
            let before = inp.save();
            let (_, found) = inp.next();
            let matched = match found {
                Some(tok) => tok == expected,
                None => false,
            };
            if !matched {
                let span = inp.span_since(before);
                return Err(ParseError::expected_found(expect_one(expected), found, span));
            }
            i = i + 1;
        }
        if mode.emits() {
            Ok(Some(Value::Tokens(self.seq.to_tokens())))
        } else {
            Ok(None)
        }
    }
}

impl OneOf {
    /// Consumes one token, and succeeds if it is in `set`.
    pub fn go(&self, inp: &mut Cursor, mode: Mode) -> (r: Result<Option<Value>, ParseError>)
        requires
            old(inp).wf(),
        ensures
            final(inp).wf(),
            final(inp)@.tokens == old(inp)@.tokens,
            produced(
                parse_one_of(self.set@, old(inp)@.tokens, old(inp)@.pos),
                mode,
                r,
                final(inp)@.pos,
            ),
    {
        let before = inp.save();
        let (_, found) = inp.next();
        if let Some(tok) = found {
            if member(&self.set, tok) {
                return Ok(
                    mode.bind(|| -> (v: Value) ensures v == Value::Token(tok) { Value::Token(tok) }),
                );
            }
        }
        Err(ParseError::expected_found(expectation_list(&self.set), found, inp.span_since(before)))
    }
}

impl NoneOf {
    /// Consumes one token, and succeeds if it is not in `set`.
    pub fn go(&self, inp: &mut Cursor, mode: Mode) -> (r: Result<Option<Value>, ParseError>)
        requires
            old(inp).wf(),
        ensures
            final(inp).wf(),
            final(inp)@.tokens == old(inp)@.tokens,
            produced(
                parse_none_of(self.set@, old(inp)@.tokens, old(inp)@.pos),
                mode,
                r,
                final(inp)@.pos,
            ),
    {
        let before = inp.save();
        let (_, found) = inp.next();
        if let Some(tok) = found {
            if !member(&self.set, tok) {
                return Ok(
                    mode.bind(|| -> (v: Value) ensures v == Value::Token(tok) { Value::Token(tok) }),
                );
            }
        }
        Err(ParseError::expected_found(Vec::new(), found, inp.span_since(before)))
    }
}

impl Any {
    /// Consumes one token, failing only at the end of input.
    pub fn go(&self, inp: &mut Cursor, mode: Mode) -> (r: Result<Option<Value>, ParseError>)
        requires
            old(inp).wf(),
        ensures
            final(inp).wf(),
            final(inp)@.tokens == old(inp)@.tokens,
            produced(parse_any(old(inp)@.tokens, old(inp)@.pos), mode, r, final(inp)@.pos),
    {
        let before = inp.save();
        let (_, found) = inp.next();
        match found {
            Some(tok) => Ok(
                mode.bind(|| -> (v: Value) ensures v == Value::Token(tok) { Value::Token(tok) }),
            ),
            None => Err(ParseError::expected_found(Vec::new(), None, inp.span_since(before))),
        }
    }
}

impl Todo {
    /// Never runs: any input on which a `Todo` would run is left out by `requires`. Where a
    /// caller outside the verifier reaches it anyway, it aborts with a message that names it.
    pub fn go(&self, inp: &mut Cursor, mode: Mode) -> (r: Result<Option<Value>, ParseError>)
        requires
            old(inp).wf(),
            !(parse_todo(old(inp)@.tokens, old(inp)@.pos) is Unimplemented),
        ensures
            produced(parse_todo(old(inp)@.tokens, old(inp)@.pos), mode, r, final(inp)@.pos),
    {
        let none: Option<Result<Option<Value>, ParseError>> = None;
        none.expect("attempted to use an unimplemented parser")
    }
}

impl TakeUntil {
    /// Tries `until` at each offset, rewinding after each failure and skipping one token, and
    /// fails with the last error of `until` where the input ends first. The skipped tokens go
    /// to the container that `sink` names, or, in `Check` mode, to one that keeps nothing.
    pub fn go(&self, inp: &mut Cursor, mode: Mode) -> (r: Result<Option<Value>, ParseError>)
        requires
            old(inp).wf(),
            !(parse_take_until(*self, old(inp)@.tokens, old(inp)@.pos, seq![]) is Unimplemented),
        ensures
            final(inp).wf(),
            final(inp)@.tokens == old(inp)@.tokens,
            produced(
                parse_take_until(*self, old(inp)@.tokens, old(inp)@.pos, seq![]),
                mode,
                r,
                final(inp)@.pos,
            ),
        decreases self, 1int,
    {
        match (mode, self.sink) {
            (Mode::Check, _) | (_, Sink::Discard) => self.go_into::<Discard>(inp, mode),
            (Mode::Emit, Sink::List) => self.go_into::<Vec<char>>(inp, mode),
            (Mode::Emit, Sink::Text) => self.go_into::<String>(inp, mode),
        }
    }

    /// `go`, keeping the skipped tokens in a container of type `C`.
    fn go_into<C: Container>(&self, inp: &mut Cursor, mode: Mode) -> (r: Result<
        Option<Value>,
        ParseError,
    >)
        requires
            old(inp).wf(),
            !(parse_take_until(*self, old(inp)@.tokens, old(inp)@.pos, seq![]) is Unimplemented),
            mode == Mode::Emit ==> C::sink() == self.sink,
        ensures
            final(inp).wf(),
            final(inp)@.tokens == old(inp)@.tokens,
            produced(
                parse_take_until(*self, old(inp)@.tokens, old(inp)@.pos, seq![]),
                mode,
                r,
                final(inp)@.pos,
            ),
        decreases self, 0int,
    {
        let ghost input = inp@.tokens;
        let ghost goal = parse_take_until(*self, input, inp@.pos, seq![]);
        let ghost mut skipped: Seq<char> = seq![];
        let mut acc = C::default();
        loop
            invariant
                inp.wf(),
                inp@.tokens == input,
                input == old(inp)@.tokens,
                goal == parse_take_until(*self, old(inp)@.tokens, old(inp)@.pos, seq![]),
                parse_take_until(*self, input, inp@.pos, skipped) == goal,
                !(goal is Unimplemented),
                mode == Mode::Emit ==> C::sink() == self.sink,
                C::sink() != Sink::Discard ==> acc.kept() == skipped,
            decreases input.len() - inp@.pos,
        {
            let start = inp.save();
            match self.until.go(inp, mode) {
                Ok(out) => {
                    let kept = if mode.emits() {
                        Some(acc.into_value())
                    } else {
                        None
                    };
                    return Ok(mode.combine(kept, out));
                },
                Err(e) => {
                    inp.rewind(start);
                    let (_, found) = inp.next();
                    match found {
                        Some(tok) => {
                            acc.push(tok);
                            proof {
                                skipped = skipped.push(tok);
                            }
                        },
                        None => {
                            return Err(e);
                        },
                    }
                },
            }
        }
    }
}

impl Choice {
    /// Tries each parser from the same start, rewinding after each failure; returns the first
    /// success, or the prioritized errors of all of them.
    pub fn go(&self, inp: &mut Cursor, mode: Mode) -> (r: Result<Option<Value>, ParseError>)
        requires
            old(inp).wf(),
            !(parse_choice(*self, 0, old(inp)@.tokens, old(inp)@.pos, None) is Unimplemented),
        ensures
            final(inp).wf(),
            final(inp)@.tokens == old(inp)@.tokens,
            produced(
                parse_choice(*self, 0, old(inp)@.tokens, old(inp)@.pos, None),
                mode,
                r,
                final(inp)@.pos,
            ),
        decreases self, 0int,
    {
        let ghost input = inp@.tokens;
        let ghost start = inp@.pos;
        let before = inp.save();
        let mut err: Option<ParseError> = None;
        let mut i: usize = 0;
        while i < self.parsers.len()
            invariant
                inp.wf(),
                inp@.tokens == input,
                input == old(inp)@.tokens,
                start == old(inp)@.pos,
                inp@.pos == start,
                before.offset() == start,
                i <= self.parsers@.len(),
                parse_choice(*self, i as nat, input, start, error_views(err)) == parse_choice(
                    *self,
                    0,
                    input,
                    start,
                    None,
                ),
                !(parse_choice(*self, 0, input, start, None) is Unimplemented),
            decreases self.parsers@.len() - i,
        {
            match self.parsers[i].go(inp, mode) {
                Ok(out) => {
                    return Ok(out);
                },
                Err(e) => {
                    err = match err {
                        Some(e0) => Some(e0.prioritize(e, ParseError::merge)),
                        None => Some(e),
                    };
                    inp.rewind(before);
                },
            }
            i = i + 1;
        }
        match err {
            Some(e) => Err(e),
            None => Err(ParseError::expected_found(Vec::new(), None, inp.span_since(before))),
        }
    }
}

/// The view of an optional error.
pub open spec fn error_views(e: Option<ParseError>) -> Option<ErrorView> {
    match e {
        Some(x) => Some(x@),
        None => None,
    }
}

/// The views of a list of outputs.
pub open spec fn value_views(vs: Seq<Value>) -> Seq<ValueView> {
    vs.map_values(|v: Value| v@)
}

impl Group {
    /// Runs each parser where the previous one stopped; passes on the first error as it is,
    /// without rewinding.
    pub fn go(&self, inp: &mut Cursor, mode: Mode) -> (r: Result<Option<Value>, ParseError>)
        requires
            old(inp).wf(),
            !(parse_group(*self, 0, old(inp)@.tokens, old(inp)@.pos, seq![]) is Unimplemented),
        ensures
            final(inp).wf(),
            final(inp)@.tokens == old(inp)@.tokens,
            produced(
                parse_group(*self, 0, old(inp)@.tokens, old(inp)@.pos, seq![]),
                mode,
                r,
                final(inp)@.pos,
            ),
        decreases self, 0int,
    {
        let ghost input = inp@.tokens;
        let ghost goal = parse_group(*self, 0, input, inp@.pos, seq![]);
        let ghost mut acc: Seq<ValueView> = seq![];
        let mut outs: Vec<Value> = Vec::new();
        let mut i: usize = 0;
        while i < self.parsers.len()
            invariant
                inp.wf(),
                inp@.tokens == input,
                input == old(inp)@.tokens,
                goal == parse_group(*self, 0, old(inp)@.tokens, old(inp)@.pos, seq![]),
                !(goal is Unimplemented),
                i <= self.parsers@.len(),
                parse_group(*self, i as nat, input, inp@.pos, acc) == goal,
                mode == Mode::Emit ==> value_views(outs@) == acc,
            decreases self.parsers@.len() - i,
        {
            let ghost pos = inp@.pos;
            match self.parsers[i].go(inp, mode) {
                Ok(out) => {
                    proof {
                        acc = acc.push(parse(self.parsers@[i as int], input, pos)->value);
                    }
                    if let Some(v) = out {
                        outs.push(v);
                    }
                    assert(mode == Mode::Emit ==> value_views(outs@) =~= acc);
                },
                Err(e) => {
                    return Err(e);
                },
            }
            i = i + 1;
        }
        if mode.emits() {
            let tuple = Value::Tuple(outs);
            assert(tuple@ == ValueView::Tuple(acc)) by {
                assert(value_view(tuple) is Tuple);
                assert(value_view(tuple)->Tuple_0 =~= value_views(outs@));
            }
            Ok(Some(tuple))
        } else {
            Ok(None)
        }
    }
}

impl Parser {
    /// Runs the parser on `inp` in `mode`: in `Emit` mode with its output, in `Check` mode
    /// without, consuming input in the same way in both.
    pub fn go(&self, inp: &mut Cursor, mode: Mode) -> (r: Result<Option<Value>, ParseError>)
        requires
            old(inp).wf(),
            !(parse(*self, old(inp)@.tokens, old(inp)@.pos) is Unimplemented),
        ensures
            final(inp).wf(),
            final(inp)@.tokens == old(inp)@.tokens,
            produced(parse(*self, old(inp)@.tokens, old(inp)@.pos), mode, r, final(inp)@.pos),
        decreases self, 0int,
    {
        match self {
            Parser::End(p) => p.go(inp, mode),
            Parser::Empty(p) => p.go(inp, mode),
            Parser::Just(p) => p.go(inp, mode),
            Parser::OneOf(p) => p.go(inp, mode),
            Parser::NoneOf(p) => p.go(inp, mode),
            Parser::Any(p) => p.go(inp, mode),
            Parser::TakeUntil(p) => p.go(inp, mode),
            Parser::Todo(p) => p.go(inp, mode),
            Parser::Choice(p) => p.go(inp, mode),
            Parser::Group(p) => p.go(inp, mode),
        }
    }
}

} // verus!
