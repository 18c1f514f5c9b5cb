use chumsky::cursor::{Cursor, Span};
use chumsky::error::ParseError;
use chumsky::mode::{Mode, Value};
use chumsky::parser::{any, choice, empty, end, group, just, none_of, one_of, take_until, Parser, Sink};

fn run_in(p: &Parser, s: &str, mode: Mode) -> (Result<Option<Value>, ParseError>, usize) {
    let mut inp = Cursor::new(s.chars().collect());
    let r = p.go(&mut inp, mode);
    (r, inp.offset())
}

fn run(p: &Parser, s: &str) -> (Result<Option<Value>, ParseError>, usize) {
    run_in(p, s, Mode::Emit)
}

fn toks(s: &str) -> Value {
    Value::Tokens(s.chars().collect())
}

#[test]
fn choice_prefers_earlier_alternative() {
    let p = Parser::Choice(choice(vec![Parser::Just(just("a")), Parser::Just(just("ab"))]));
    let (r, at) = run(&p, "ab");
    assert_eq!(r, Ok(Some(toks("a"))));
    assert_eq!(at, 1);
}

#[test]
fn choice_does_not_leak_failed_branch() {
    let p = Parser::Choice(choice(vec![Parser::Just(just("abcx")), Parser::Just(just("abcd"))]));
    let (r, at) = run(&p, "abcd");
    assert_eq!(r, Ok(Some(toks("abcd"))));
    assert_eq!(at, 4);
}

#[test]
fn choice_rewinds_when_all_fail() {
    let p = Parser::Choice(choice(vec![Parser::Just(just("abcx")), Parser::Just(just("b"))]));
    let (r, at) = run(&p, "abcd");
    let e = r.unwrap_err();
    // the deeper failure, at offset 3, wins over the one at offset 0
    assert_eq!(e.expected, vec![Some('x')]);
    assert_eq!(e.found, Some('d'));
    assert_eq!(e.span, Span { start: 3, end: 4 });
    assert_eq!(at, 0);
}

#[test]
fn choice_merges_errors_at_same_offset() {
    let p = Parser::Choice(choice(vec![Parser::Just(just('a')), Parser::OneOf(one_of("bc"))]));
    let (r, at) = run(&p, "z");
    let e = r.unwrap_err();
    assert_eq!(e.expected, vec![Some('a'), Some('b'), Some('c')]);
    assert_eq!(e.found, Some('z'));
    assert_eq!(at, 0);
}

#[test]
fn empty_choice_fails_at_start() {
    let p = Parser::Choice(choice(vec![]));
    let (r, at) = run(&p, "abc");
    let e = r.unwrap_err();
    assert_eq!(e.expected, vec![]);
    assert_eq!(e.found, None);
    assert_eq!(e.span, Span { start: 0, end: 0 });
    assert_eq!(at, 0);
}

#[test]
fn group_collects_outputs_in_order() {
    let p = Parser::Group(group(vec![
        Parser::Just(just("ab")),
        Parser::Any(any()),
        Parser::End(end()),
    ]));
    let (r, at) = run(&p, "abz");
    assert_eq!(r, Ok(Some(Value::Tuple(vec![toks("ab"), Value::Token('z'), Value::Unit]))));
    assert_eq!(at, 3);
}

#[test]
fn group_stops_at_failure_without_rewinding() {
    let p = Parser::Group(group(vec![Parser::Just(just("ab")), Parser::Just(just("cd"))]));
    let (r, at) = run(&p, "abxd");
    let e = r.unwrap_err();
    assert_eq!(e.expected, vec![Some('c')]);
    assert_eq!(e.found, Some('x'));
    assert_eq!(e.span, Span { start: 2, end: 3 });
    assert_eq!(at, 3);
}

#[test]
fn take_until_collects_skipped_tokens() {
    let p = Parser::TakeUntil(take_until(Parser::Just(just("*/"))).collect(Sink::List));
    let (r, at) = run(&p, "a b*/c");
    assert_eq!(
        r,
        Ok(Some(Value::Pair(Box::new(Value::Tokens(vec!['a', ' ', 'b'])), Box::new(toks("*/")))))
    );
    assert_eq!(at, 5);
}

#[test]
fn take_until_fails_with_last_terminator_error() {
    let p = Parser::TakeUntil(take_until(Parser::Just(just("*/"))).collect(Sink::List));
    let (r, at) = run(&p, "a b");
    let e = r.unwrap_err();
    assert_eq!(e.expected, vec![Some('*')]);
    assert_eq!(e.found, None);
    assert_eq!(e.span, Span { start: 3, end: 3 });
    assert_eq!(at, 3);
}

#[test]
fn take_until_discards_by_default() {
    let p = Parser::TakeUntil(take_until(Parser::Just(just('!'))));
    let (r, at) = run(&p, "hey!");
    assert_eq!(r, Ok(Some(Value::Pair(Box::new(Value::Unit), Box::new(toks("!"))))));
    assert_eq!(at, 4);
}

#[test]
fn take_until_into_text() {
    let p = Parser::TakeUntil(take_until(Parser::Just(just('!'))).collect(Sink::Text));
    let (r, at) = run(&p, "hey!x");
    assert_eq!(
        r,
        Ok(Some(Value::Pair(Box::new(Value::Text(String::from("hey"))), Box::new(toks("!")))))
    );
    assert_eq!(at, 4);
}

#[test]
fn take_until_immediate_terminator() {
    let p = Parser::TakeUntil(take_until(Parser::End(end())).collect(Sink::List));
    let (r, at) = run(&p, "");
    assert_eq!(r, Ok(Some(Value::Pair(Box::new(Value::Tokens(vec![])), Box::new(Value::Unit)))));
    assert_eq!(at, 0);
}

#[test]
fn check_mode_agrees_with_emit_mode() {
    let parsers = vec![
        Parser::Just(just("ab")),
        Parser::OneOf(one_of("xa")),
        Parser::NoneOf(none_of("a")),
        Parser::Empty(empty()),
        Parser::End(end()),
        Parser::Choice(choice(vec![Parser::Just(just("abx")), Parser::Any(any())])),
        Parser::Group(group(vec![Parser::Any(any()), Parser::Just(just("c"))])),
        Parser::TakeUntil(take_until(Parser::Just(just("b"))).collect(Sink::List)),
    ];
    for p in &parsers {
        for s in ["", "a", "ab", "abc", "ba"] {
            let (emitted, emit_at) = run_in(p, s, Mode::Emit);
            let (checked, check_at) = run_in(p, s, Mode::Check);
            assert_eq!(emitted.is_ok(), checked.is_ok());
            assert_eq!(emit_at, check_at);
            match (emitted, checked) {
                (Ok(v), Ok(w)) => {
                    assert!(v.is_some());
                    assert!(w.is_none());
                }
                (Err(e), Err(f)) => assert_eq!(e, f),
                _ => unreachable!(),
            }
        }
    }
}
