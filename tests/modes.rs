use chumsky::mode::{Mode, Value};

#[test]
fn emit_builds_and_check_skips() {
    assert_eq!(Mode::Emit.bind(|| Value::Token('a')), Some(Value::Token('a')));
    assert_eq!(Mode::Check.bind(|| Value::Token('a')), None);
    assert!(Mode::Emit.emits());
    assert!(!Mode::Check.emits());
}

#[test]
fn map_applies_only_in_emit_mode() {
    let wrap = |v: Value| Value::Pair(Box::new(v), Box::new(Value::Unit));
    assert_eq!(
        Mode::Emit.map(Some(Value::Token('q')), wrap),
        Some(Value::Pair(Box::new(Value::Token('q')), Box::new(Value::Unit)))
    );
    assert_eq!(Mode::Check.map(None, wrap), None);
}

#[test]
fn combine_pairs_in_emit_mode() {
    assert_eq!(
        Mode::Emit.combine(Some(Value::Token('x')), Some(Value::Unit)),
        Some(Value::Pair(Box::new(Value::Token('x')), Box::new(Value::Unit)))
    );
    assert_eq!(Mode::Check.combine(None, None), None);
}
