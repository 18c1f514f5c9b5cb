use chumsky::cursor::{Cursor, Span};
use chumsky::error::ParseError;
use chumsky::mode::{Mode, Value};
use chumsky::parser::{any, empty, end, just, none_of, one_of, Parser};

fn cursor(s: &str) -> Cursor {
    Cursor::new(s.chars().collect())
}

fn run(p: &Parser, s: &str) -> (Result<Option<Value>, ParseError>, usize) {
    let mut inp = cursor(s);
    let r = p.go(&mut inp, Mode::Emit);
    (r, inp.offset())
}

#[test]
fn just_matches_whole_sequence() {
    let p = Parser::Just(just("abc"));
    let (r, at) = run(&p, "abc");
    assert_eq!(r, Ok(Some(Value::Tokens(vec!['a', 'b', 'c']))));
    assert_eq!(at, 3);
}

#[test]
fn just_fails_at_first_mismatch() {
    let p = Parser::Just(just("abc"));
    let (r, at) = run(&p, "abd");
    let e = r.unwrap_err();
    assert_eq!(e.expected, vec![Some('c')]);
    assert_eq!(e.found, Some('d'));
    assert_eq!(e.span, Span { start: 2, end: 3 });
    assert_eq!(at, 3);
}

#[test]
fn just_fails_at_end_of_input() {
    let p = Parser::Just(just("abc"));
    let (r, at) = run(&p, "ab");
    let e = r.unwrap_err();
    assert_eq!(e.expected, vec![Some('c')]);
    assert_eq!(e.found, None);
    assert_eq!(e.span, Span { start: 2, end: 2 });
    assert_eq!(at, 2);
}

#[test]
fn just_single_token_and_list() {
    let (r, at) = run(&Parser::Just(just('?')), "?!");
    assert_eq!(r, Ok(Some(Value::Tokens(vec!['?']))));
    assert_eq!(at, 1);
    let (r, _) = run(&Parser::Just(just(vec!['x', 'y'])), "xy");
    assert_eq!(r, Ok(Some(Value::Tokens(vec!['x', 'y']))));
    let (r, _) = run(&Parser::Just(just(String::from("hi"))), "hi");
    assert_eq!(r, Ok(Some(Value::Tokens(vec!['h', 'i']))));
}

#[test]
fn just_empty_sequence_consumes_nothing() {
    let (r, at) = run(&Parser::Just(just("")), "abc");
    assert_eq!(r, Ok(Some(Value::Tokens(vec![]))));
    assert_eq!(at, 0);
}

#[test]
fn end_on_empty_input() {
    let (r, at) = run(&Parser::End(end()), "");
    assert_eq!(r, Ok(Some(Value::Unit)));
    assert_eq!(at, 0);
}

#[test]
fn end_on_remaining_input_fails_without_consuming() {
    let (r, at) = run(&Parser::End(end()), "hello");
    let e = r.unwrap_err();
    assert_eq!(e.found, Some('h'));
    assert_eq!(e.expected, vec![]);
    assert_eq!(e.span, Span { start: 0, end: 1 });
    assert_eq!(at, 0);
}

#[test]
fn empty_always_succeeds() {
    for s in ["", "x", "xyz"] {
        let (r, at) = run(&Parser::Empty(empty()), s);
        assert_eq!(r, Ok(Some(Value::Unit)));
        assert_eq!(at, 0);
    }
}

#[test]
fn one_of_accepts_member() {
    let (r, at) = run(&Parser::OneOf(one_of("0123456789")), "7a");
    assert_eq!(r, Ok(Some(Value::Token('7'))));
    assert_eq!(at, 1);
}

#[test]
fn one_of_rejects_non_member_with_all_expectations() {
    let (r, at) = run(&Parser::OneOf(one_of("ab")), "z");
    let e = r.unwrap_err();
    assert_eq!(e.expected, vec![Some('a'), Some('b')]);
    assert_eq!(e.found, Some('z'));
    assert_eq!(at, 1);
    let (r, at) = run(&Parser::OneOf(one_of("ab")), "");
    assert_eq!(r.unwrap_err().found, None);
    assert_eq!(at, 0);
}

#[test]
fn none_of_accepts_non_member() {
    let (r, at) = run(&Parser::NoneOf(none_of("\"'")), "h'");
    assert_eq!(r, Ok(Some(Value::Token('h'))));
    assert_eq!(at, 1);
}

#[test]
fn none_of_rejects_member_without_expectations() {
    let (r, at) = run(&Parser::NoneOf(none_of("\"'")), "'h");
    let e = r.unwrap_err();
    assert_eq!(e.expected, vec![]);
    assert_eq!(e.found, Some('\''));
    assert_eq!(at, 1);
}

#[test]
fn one_of_and_none_of_are_complementary() {
    for s in ["a", "b", "c", "x", " "] {
        let (one, one_at) = run(&Parser::OneOf(one_of("abc")), s);
        let (none, none_at) = run(&Parser::NoneOf(none_of("abc")), s);
        assert_ne!(one.is_ok(), none.is_ok());
        assert_eq!(one.is_ok(), "abc".contains(s));
        assert_eq!(one_at, 1);
        assert_eq!(none_at, 1);
    }
}

#[test]
fn any_reads_one_token() {
    let (r, at) = run(&Parser::Any(any()), "\tx");
    assert_eq!(r, Ok(Some(Value::Token('\t'))));
    assert_eq!(at, 1);
}

#[test]
fn any_fails_on_empty_input() {
    let (r, at) = run(&Parser::Any(any()), "");
    let e = r.unwrap_err();
    assert_eq!(e.found, None);
    assert_eq!(e.span, Span { start: 0, end: 0 });
    assert_eq!(at, 0);
}
