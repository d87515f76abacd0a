use std::rc::Rc;

use treewalk::atoms::{Name, Number};
use treewalk::builtin::Capability;
use treewalk::env::Environment;
use treewalk::errors::RuntimeError;
use treewalk::list::VList;
use treewalk::value::{Builtin, Closure, Expression, Value};

fn num(v: i64) -> Value {
    Value::Number(Number::new(v))
}

#[test]
fn numbers_render_in_decimal() {
    assert_eq!(num(5).render(), "5");
    assert_eq!(num(0).render(), "0");
    assert_eq!(num(-17).render(), "-17");
    assert_eq!(num(1234567890).render(), "1234567890");
    assert_eq!(num(i64::MAX).render(), "9223372036854775807");
    assert_eq!(num(i64::MIN).render(), "-9223372036854775808");
}

#[test]
fn glyphs_render_as_the_literal_character() {
    assert_eq!(Value::Glyph('a').render(), "a");
    assert_eq!(Value::Glyph('[').render(), "[");
}

#[test]
fn lists_render_their_contents() {
    assert_eq!(Value::List(VList::from_vec(&vec![])).render(), "[]");
    assert_eq!(Value::List(VList::from_vec(&vec![num(1)])).render(), "[1]");
    assert_eq!(
        Value::List(VList::from_vec(&vec![num(1), num(2), num(3)])).render(),
        "[1, 2, 3]"
    );
    let nested = Value::List(VList::from_vec(&vec![
        Value::List(VList::from_vec(&vec![num(1)])),
        Value::Glyph('z'),
    ]));
    assert_eq!(nested.render(), "[[1], z]");
}

#[test]
fn callables_render_as_synthetic_identity_tags() {
    let genv = Environment::new(None, vec![]);
    let c = Closure {
        env: Rc::new(genv),
        argnames: Rc::new(vec![Name::new(1)]),
        variadic: false,
        body: Rc::new(Expression::Variable(Name::new(1))),
        id: 7,
    };
    assert_eq!(Value::Function(c).render(), "function@7");
    let cap = Capability::new(|_args: &VList| Err(RuntimeError::TypeError(String::from("no"))));
    assert_eq!(Value::Builtin(Builtin { func: cap, id: 3 }).render(), "builtin@3");
}
