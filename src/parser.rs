//! The parsers and what each of them does to a cursor, stated by `parse`.
use vstd::prelude::*;
use crate::cursor::{Span, token_at, step, read_span};
use crate::error::{ErrorView, prioritized};
use crate::mode::ValueView;
use crate::tokens::TokenSeq;

verus! {

broadcast use vstd::std_specs::vec::axiom_vec_index_decreases;

/// Where `TakeUntil` keeps the tokens it skips.
#[derive(Clone, Copy, Debug, PartialEq, Eq, Structural)]
pub enum Sink {
    /// Keeps nothing: the skipped tokens are dropped as they are read.
    Discard,
    /// Keeps them in a list.
    List,
    /// Keeps them in a string.
    Text,
}

/// Accepts only the end of input.
#[derive(Debug)]
pub struct End;

/// Accepts without reading anything.
#[derive(Debug)]
pub struct Empty;

/// Accepts exactly the tokens of `seq`, in order.
#[derive(Debug)]
pub struct Just {
    pub seq: Vec<char>,
}

/// Accepts one token that is in `set`.
#[derive(Debug)]
pub struct OneOf {
    pub set: Vec<char>,
}

/// Accepts one token that is not in `set`.
#[derive(Debug)]
pub struct NoneOf {
    pub set: Vec<char>,
}

/// Accepts any one token.
#[derive(Debug)]
pub struct Any;

/// Skips tokens until `until` succeeds.
#[derive(Debug)]
pub struct TakeUntil {
    pub until: Box<Parser>,
    pub sink: Sink,
}

/// Stands for a parser not written yet: using it is a mistake in the grammar.
#[derive(Debug)]
pub struct Todo;

/// Tries each parser from the same start; the first success wins.
#[derive(Debug)]
pub struct Choice {
    pub parsers: Vec<Parser>,
}

/// Runs each parser after the previous one; the outputs form one tuple.
#[derive(Debug)]
pub struct Group {
    pub parsers: Vec<Parser>,
}

/// Any parser of this library.
#[derive(Debug)]
pub enum Parser {
    End(End),
    Empty(Empty),
    Just(Just),
    OneOf(OneOf),
    NoneOf(NoneOf),
    Any(Any),
    TakeUntil(TakeUntil),
    Todo(Todo),
    Choice(Choice),
    Group(Group),
}

/// The result of running a parser from an offset: an output and the offset after it, or an
/// error and the offset the cursor is left at; or a use of `Todo`.
pub enum Outcome {
    Success { value: ValueView, pos: nat },
    Failure { error: ErrorView, pos: nat },
    Unimplemented,
}

/// The error of one read at `pos` that expected `expected`.
pub open spec fn fail_at(input: Seq<char>, pos: nat, expected: Seq<Option<char>>) -> ErrorView {
    ErrorView { expected, found: token_at(input, pos), span: read_span(input, pos) }
}

/// Each token of `set` as an expectation.
pub open spec fn expectations(set: Seq<char>) -> Seq<Option<char>> {
    set.map_values(|t: char| Some(t))
}

pub open spec fn parse_end(input: Seq<char>, pos: nat) -> Outcome {
    if pos < input.len() {
        Outcome::Failure { error: fail_at(input, pos, seq![]), pos }
    } else {
        Outcome::Success { value: ValueView::Unit, pos }
    }
}

pub open spec fn parse_empty(input: Seq<char>, pos: nat) -> Outcome {
    Outcome::Success { value: ValueView::Unit, pos }
}

/// `Just` from offset `start`, the first `i` tokens of `seq` already matched.
pub open spec fn parse_just(seq: Seq<char>, input: Seq<char>, start: nat, i: nat) -> Outcome
    decreases seq.len() - i,
{
    if i >= seq.len() {
        Outcome::Success { value: ValueView::Tokens(seq), pos: start + seq.len() }
    } else if start + i < input.len() && input[(start + i) as int] == seq[i as int] {
        parse_just(seq, input, start, i + 1)
    } else {
        Outcome::Failure {
            error: fail_at(input, start + i, seq![Some(seq[i as int])]),
            pos: step(input, start + i),
        }
    }
}

pub open spec fn parse_one_of(set: Seq<char>, input: Seq<char>, pos: nat) -> Outcome {
    if pos < input.len() && set.contains(input[pos as int]) {
        Outcome::Success { value: ValueView::Token(input[pos as int]), pos: pos + 1 }
    } else {
        Outcome::Failure { error: fail_at(input, pos, expectations(set)), pos: step(input, pos) }
    }
}

pub open spec fn parse_none_of(set: Seq<char>, input: Seq<char>, pos: nat) -> Outcome {
    if pos < input.len() && !set.contains(input[pos as int]) {
        Outcome::Success { value: ValueView::Token(input[pos as int]), pos: pos + 1 }
    } else {
        Outcome::Failure { error: fail_at(input, pos, seq![]), pos: step(input, pos) }
    }
}

pub open spec fn parse_any(input: Seq<char>, pos: nat) -> Outcome {
    if pos < input.len() {
        Outcome::Success { value: ValueView::Token(input[pos as int]), pos: pos + 1 }
    } else {
        Outcome::Failure { error: fail_at(input, pos, seq![]), pos }
    }
}

/// `Todo` never produces an outcome: running it is a mistake in the grammar.
pub open spec fn parse_todo(input: Seq<char>, pos: nat) -> Outcome {
    Outcome::Unimplemented
}

/// The output that `sink` makes of the skipped tokens `acc`.
pub open spec fn sink_value(sink: Sink, acc: Seq<char>) -> ValueView {
    match sink {
        Sink::Discard => ValueView::Unit,
        Sink::List => ValueView::Tokens(acc),
        Sink::Text => ValueView::Text(acc),
    }
}

/// What a parser does from offset `pos` of `input`.
pub open spec fn parse(p: Parser, input: Seq<char>, pos: nat) -> Outcome
    decreases p, 0int,
{
    match p {
        Parser::End(_) => parse_end(input, pos),
        Parser::Empty(_) => parse_empty(input, pos),
        Parser::Just(j) => parse_just(j.seq@, input, pos, 0),
        Parser::OneOf(o) => parse_one_of(o.set@, input, pos),
        Parser::NoneOf(o) => parse_none_of(o.set@, input, pos),
        Parser::Any(_) => parse_any(input, pos),
        Parser::TakeUntil(t) => parse_take_until(t, input, pos, seq![]),
        Parser::Todo(_) => parse_todo(input, pos),
        Parser::Choice(c) => parse_choice(c, 0, input, pos, None),
        Parser::Group(g) => parse_group(g, 0, input, pos, seq![]),
    }
}

/// `TakeUntil` at offset `pos`, having skipped `acc`: the terminator is tried at each offset
/// and, where it fails, one token is skipped.
pub open spec fn parse_take_until(t: TakeUntil, input: Seq<char>, pos: nat, acc: Seq<char>) -> Outcome
    decreases t, input.len() - pos,
{
    match parse(*t.until, input, pos) {
        Outcome::Success { value, pos: q } => Outcome::Success {
            value: ValueView::Pair(Box::new(sink_value(t.sink, acc)), Box::new(value)),
            pos: q,
        },
        Outcome::Failure { error, pos: _ } => if pos < input.len() {
            parse_take_until(t, input, pos + 1, acc.push(input[pos as int]))
        } else {
            Outcome::Failure { error, pos }
        },
        Outcome::Unimplemented => Outcome::Unimplemented,
    }
}

/// The error of a `Choice` whose branches have all failed, `err` their prioritized errors.
pub open spec fn choice_error(err: Option<ErrorView>, start: nat) -> ErrorView {
    match err {
        Some(e) => e,
        None => ErrorView {
            expected: seq![],
            found: None,
            span: Span { start: start as usize, end: start as usize },
        },
    }
}

/// `err` with one more failed branch folded in.
pub open spec fn fold_error(err: Option<ErrorView>, e: ErrorView) -> ErrorView {
    match err {
        Some(e0) => prioritized(e0, e),
        None => e,
    }
}

/// `Choice` from `start`, branches before `i` having failed with the errors folded in `err`.
pub open spec fn parse_choice(
    c: Choice,
    i: nat,
    input: Seq<char>,
    start: nat,
    err: Option<ErrorView>,
) -> Outcome
    decreases c, c.parsers@.len() - i,
{
    if i >= c.parsers@.len() {
        Outcome::Failure { error: choice_error(err, start), pos: start }
    } else {
        match parse(c.parsers@[i as int], input, start) {
            Outcome::Success { value, pos } => Outcome::Success { value, pos },
            Outcome::Failure { error, pos: _ } => parse_choice(
                c,
                i + 1,
                input,
                start,
                Some(fold_error(err, error)),
            ),
            Outcome::Unimplemented => Outcome::Unimplemented,
        }
    }
}

/// `Group` at offset `pos`, the parsers before `i` having produced `acc`.
pub open spec fn parse_group(
    g: Group,
    i: nat,
    input: Seq<char>,
    pos: nat,
    acc: Seq<ValueView>,
) -> Outcome
    decreases g, g.parsers@.len() - i,
{
    if i >= g.parsers@.len() {
        Outcome::Success { value: ValueView::Tuple(acc), pos }
    } else {
        match parse(g.parsers@[i as int], input, pos) {
            Outcome::Success { value, pos: q } => parse_group(g, i + 1, input, q, acc.push(value)),
            Outcome::Failure { error, pos: q } => Outcome::Failure { error, pos: q },
            Outcome::Unimplemented => Outcome::Unimplemented,
        }
    }
}

} // verus!

verus! {

/// A parser that accepts only the end of input; its output is `Unit`.
pub fn end() -> (r: End) {
    End
}

/// A parser that reads nothing and always succeeds; its output is `Unit`.
pub fn empty() -> (r: Empty) {
    Empty
}

/// A parser that accepts exactly the tokens of `seq`; its output is those tokens.
pub fn just<T: TokenSeq>(seq: T) -> (r: Just)
    ensures
        r.seq@ == seq.tokens(),
{
    Just { seq: seq.to_tokens() }
}

/// A parser that accepts one token of `set`; its output is that token.
pub fn one_of<T: TokenSeq>(set: T) -> (r: OneOf)
    ensures
        r.set@ == set.tokens(),
{
    OneOf { set: set.to_tokens() }
}

/// A parser that accepts one token not in `set`; its output is that token.
pub fn none_of<T: TokenSeq>(set: T) -> (r: NoneOf)
    ensures
        r.set@ == set.tokens(),
{
    NoneOf { set: set.to_tokens() }
}

/// A parser that accepts any one token; its output is that token.
pub fn any() -> (r: Any) {
    Any
}

/// A parser that skips tokens until `until` succeeds, dropping them; its output pairs what it
/// kept of them with the output of `until`.
pub fn take_until(until: Parser) -> (r: TakeUntil)
    ensures
        *r.until == until,
        r.sink == Sink::Discard,
{
    TakeUntil { until: Box::new(until), sink: Sink::Discard }
}

impl TakeUntil {
    /// The same parser, keeping the skipped tokens in `sink`.
    pub fn collect(self, sink: Sink) -> (r: TakeUntil)
        ensures
            *r.until == *self.until,
            r.sink == sink,
    {
        TakeUntil { until: self.until, sink }
    }
}

/// A placeholder for a parser to be written later; running it is a mistake in the grammar.
pub fn todo() -> (r: Todo) {
    Todo
}

/// A parser that tries `parsers` in order from the same start and takes the first success.
pub fn choice(parsers: Vec<Parser>) -> (r: Choice)
    ensures
        r.parsers == parsers,
{
    Choice { parsers }
}

/// A parser that runs `parsers` one after another and gathers their outputs in one tuple.
pub fn group(parsers: Vec<Parser>) -> (r: Group)
    ensures
        r.parsers == parsers,
{
    Group { parsers }
}

} // verus!
