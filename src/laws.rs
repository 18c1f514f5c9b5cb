//! Properties that hold of every input, stated over the models that the contracts use.
use vstd::prelude::*;
use crate::cursor::{Checkpoint, Cursor};
use crate::error::{ErrorView, ParseError, prioritized};
use crate::mode::{Mode, Value, ValueView};
use crate::parser::{
    Choice, Empty, End, Group, NoneOf, OneOf, Outcome, Parser, parse, parse_choice, parse_group,
};
use crate::run::produced;

verus! {

/// Rewinding to a checkpoint restores the cursor exactly, whatever was read after it was
/// taken: the same input and the same offset, hence the same next read and the same spans.
pub proof fn rewind_restores(saved: Cursor, cp: Checkpoint, moved: Cursor, restored: Cursor)
    requires
        saved.wf(),
        cp.offset() == saved@.pos,
        moved@.tokens == saved@.tokens,
        restored@.tokens == moved@.tokens,
        restored@.pos == cp.offset(),
    ensures
        restored@ == saved@,
{
}

/// A parser run in `Emit` mode and in `Check` mode on the same input agrees on success or
/// failure, on the error, and on where it leaves the cursor.
pub proof fn modes_agree(
    p: Parser,
    input: Seq<char>,
    pos: nat,
    emitted: Result<Option<Value>, ParseError>,
    emit_end: nat,
    checked: Result<Option<Value>, ParseError>,
    check_end: nat,
)
    requires
        produced(parse(p, input, pos), Mode::Emit, emitted, emit_end),
        produced(parse(p, input, pos), Mode::Check, checked, check_end),
    ensures
        emitted is Ok <==> checked is Ok,
        emit_end == check_end,
        emitted is Err ==> emitted->Err_0@ == checked->Err_0@,
{
}

/// Where the first of a choice's parsers succeeds, the choice returns its outcome, whatever
/// the later ones would do.
pub proof fn choice_prefers_first(c: Choice, input: Seq<char>, pos: nat)
    requires
        c.parsers@.len() >= 1,
        parse(c.parsers@[0], input, pos) is Success,
    ensures
        parse(Parser::Choice(c), input, pos) == parse(c.parsers@[0], input, pos),
{
}

/// Where the first of two alternatives fails, however far it read, the second runs from the
/// choice's own start; if it fails too, the cursor ends back at that start.
pub proof fn choice_restarts_after_failure(c: Choice, input: Seq<char>, pos: nat)
    requires
        c.parsers@.len() == 2,
        parse(c.parsers@[0], input, pos) is Failure,
    ensures
        parse(Parser::Choice(c), input, pos) == (match parse(c.parsers@[1], input, pos) {
            Outcome::Success { value, pos: q } => Outcome::Success { value, pos: q },
            Outcome::Failure { error, pos: _ } => Outcome::Failure {
                error: prioritized(parse(c.parsers@[0], input, pos)->error, error),
                pos,
            },
            Outcome::Unimplemented => Outcome::Unimplemented,
        }),
{
    let first = parse(c.parsers@[0], input, pos);
    let second = parse(c.parsers@[1], input, pos);
    assert(parse_choice(c, 0, input, pos, None) == parse_choice(
        c,
        1,
        input,
        pos,
        Some(first->error),
    ));
    if second is Failure {
        assert(parse_choice(c, 1, input, pos, Some(first->error)) == parse_choice(
            c,
            2,
            input,
            pos,
            Some(prioritized(first->error, second->error)),
        ));
    }
}

/// Where the first of two grouped parsers succeeds and the second fails, the group fails with
/// the second one's error, leaving the cursor where the second one stopped.
pub proof fn group_stops_at_failure(g: Group, input: Seq<char>, pos: nat)
    requires
        g.parsers@.len() == 2,
        parse(g.parsers@[0], input, pos) is Success,
        parse(g.parsers@[1], input, parse(g.parsers@[0], input, pos)->Success_pos) is Failure,
    ensures
        parse(Parser::Group(g), input, pos) == parse(
            g.parsers@[1],
            input,
            parse(g.parsers@[0], input, pos)->Success_pos,
        ),
{
    let first = parse(g.parsers@[0], input, pos);
    assert(parse_group(g, 0, input, pos, seq![]) == parse_group(
        g,
        1,
        input,
        first->Success_pos,
        seq![first->Success_value],
    ));
}

/// `End` succeeds exactly at the end of input, and consumes nothing either way; `Empty`
/// succeeds everywhere and consumes nothing.
pub proof fn end_and_empty(input: Seq<char>, pos: nat)
    requires
        pos <= input.len(),
    ensures
        pos == input.len() ==> parse(Parser::End(End), input, pos) == (Outcome::Success {
            value: ValueView::Unit,
            pos,
        }),
        pos < input.len() ==> parse(Parser::End(End), input, pos) is Failure,
        parse(Parser::End(End), input, pos) is Failure ==> parse(
            Parser::End(End),
            input,
            pos,
        )->Failure_pos == pos,
        parse(Parser::Empty(Empty), input, pos) == (Outcome::Success {
            value: ValueView::Unit,
            pos,
        }),
{
}

/// Of two errors ending at different offsets, the one ending further wins, in either order.
pub proof fn deeper_error_wins(a: ErrorView, b: ErrorView)
    requires
        a.span.end > b.span.end,
    ensures
        prioritized(a, b) == a,
        prioritized(b, a) == a,
{
}

/// On a token, exactly one of `OneOf(set)` and `NoneOf(set)` succeeds, `OneOf` where the token
/// is in the set; whichever succeeds consumes that one token.
pub proof fn one_of_none_of_complement(o: OneOf, n: NoneOf, input: Seq<char>, pos: nat)
    requires
        o.set@ == n.set@,
        pos < input.len(),
    ensures
        parse(Parser::OneOf(o), input, pos) is Success <==> o.set@.contains(input[pos as int]),
        parse(Parser::NoneOf(n), input, pos) is Success <==> !o.set@.contains(input[pos as int]),
        parse(Parser::OneOf(o), input, pos) is Success ==> parse(
            Parser::OneOf(o),
            input,
            pos,
        )->Success_pos == pos + 1,
        parse(Parser::NoneOf(n), input, pos) is Success ==> parse(
            Parser::NoneOf(n),
            input,
            pos,
        )->Success_pos == pos + 1,
{
}

} // verus!
