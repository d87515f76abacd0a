use std::rc::Rc;

use treewalk::atoms::{Name, Number};
use treewalk::builtin::Capability;
use treewalk::env::Environment;
use treewalk::errors::RuntimeError;
use treewalk::list::VList;
use treewalk::value::{Builtin, Closure, Expression, Value};

fn num(v: i64) -> Value {
    Value::Number(Number::new(v))
}

fn expect_number(r: Result<Value, RuntimeError>) -> i64 {
    match r {
        Ok(Value::Number(n)) => n.value,
        _ => panic!("expected a number result"),
    }
}

fn closure(params: &[u64], variadic: bool, body: Expression, env: Environment) -> Closure {
    Closure {
        env: Rc::new(env),
        argnames: Rc::new(params.iter().map(|id| Name::new(*id)).collect()),
        variadic,
        body: Rc::new(body),
        id: 0,
    }
}

#[test]
fn undefined_variable_through_chain() {
    let parent = Environment::new(None, vec![(Name::new(1), num(10))]);
    let child = Environment::new(Some(Rc::new(parent)), vec![(Name::new(2), num(20))]);
    match child.get(&Name::new(3)) {
        Err(RuntimeError::UndefinedVariable(n)) => assert_eq!(n.id, 3),
        _ => panic!("expected UndefinedVariable"),
    }
}

#[test]
fn shadowing_nearest_binding_wins() {
    let x = Name::new(7);
    let parent = Rc::new(Environment::new(None, vec![(x, num(1))]));
    let child = Environment::new(Some(Rc::clone(&parent)), vec![(x, num(2))]);
    assert_eq!(expect_number(child.get(&x)), 2);
    assert_eq!(expect_number(parent.get(&x)), 1);
}

#[test]
fn later_binding_wins_within_one_frame() {
    let x = Name::new(7);
    let env = Environment::new(None, vec![(x, num(1)), (x, num(2))]);
    assert_eq!(expect_number(env.get(&x)), 2);
}

#[test]
fn arity_too_few_arguments() {
    let genv = Environment::new(None, vec![]);
    let c = closure(&[1, 2], false, Expression::Variable(Name::new(1)), genv);
    let args = VList::from_vec(&vec![num(5)]);
    match c.call(&args) {
        Err(RuntimeError::IncorrectNumberOfArgs(expected, actual)) => {
            assert_eq!((expected, actual), (2, 1));
        }
        _ => panic!("expected IncorrectNumberOfArgs"),
    }
}

#[test]
fn arity_too_many_arguments() {
    let genv = Environment::new(None, vec![]);
    let c = closure(&[1, 2], false, Expression::Variable(Name::new(1)), genv);
    let args = VList::from_vec(&vec![num(5), num(6), num(7)]);
    match c.call(&args) {
        Err(RuntimeError::IncorrectNumberOfArgs(expected, actual)) => {
            assert_eq!((expected, actual), (2, 3));
        }
        _ => panic!("expected IncorrectNumberOfArgs"),
    }
}

#[test]
fn arity_exact_binds_parameters_in_order() {
    let genv = Environment::new(None, vec![]);
    let first = closure(&[1, 2], false, Expression::Variable(Name::new(1)), genv);
    let genv2 = Environment::new(None, vec![]);
    let second = closure(&[1, 2], false, Expression::Variable(Name::new(2)), genv2);
    let args = VList::from_vec(&vec![num(5), num(6)]);
    assert_eq!(expect_number(first.call(&args)), 5);
    assert_eq!(expect_number(second.call(&args)), 6);
}

#[test]
fn identity_closure_returns_its_argument() {
    let genv = Environment::new(None, vec![]);
    let c = closure(&[1], false, Expression::Variable(Name::new(1)), genv);
    let args = VList::from_vec(&vec![num(5)]);
    assert_eq!(expect_number(Value::Function(c).try_call(&args)), 5);
}

#[test]
fn closure_sees_captured_environment() {
    let y = Name::new(9);
    let captured = Environment::new(None, vec![(y, num(41))]);
    let c = closure(&[1], false, Expression::Variable(y), captured);
    let args = VList::from_vec(&vec![num(0)]);
    assert_eq!(expect_number(c.call(&args)), 41);
}

#[test]
fn escaping_closure_keeps_captured_frame_alive() {
    let c = {
        let captured = Environment::new(None, vec![(Name::new(1), num(99))]);
        closure(&[2], false, Expression::Variable(Name::new(1)), captured)
    };
    assert_eq!(expect_number(c.call(&VList::from_vec(&vec![num(0)]))), 99);
}

#[test]
fn nested_application_recurses_into_closure_bodies() {
    let genv = Environment::new(None, vec![]);
    let identity = closure(&[1], false, Expression::Variable(Name::new(1)), genv);
    let inner_app = Expression::Application(
        Value::Function(identity),
        VList::from_vec(&vec![num(5)]),
    );
    let outer_env = Environment::new(None, vec![]);
    let outer = closure(&[], false, inner_app, outer_env);
    assert_eq!(expect_number(outer.call(&VList::from_vec(&vec![]))), 5);
}

#[test]
fn variadic_calls_are_unimplemented() {
    for n in 0..3 {
        let genv = Environment::new(None, vec![]);
        let c = closure(&[1], true, Expression::Variable(Name::new(1)), genv);
        let mut argv = Vec::new();
        for k in 0..n {
            argv.push(num(k));
        }
        match c.call(&VList::from_vec(&argv)) {
            Err(RuntimeError::Unimplemented(m)) => {
                assert_eq!(m, "variadic calling convention not implemented");
            }
            _ => panic!("expected Unimplemented"),
        }
    }
}

#[test]
fn non_callable_values_cannot_be_called() {
    let args = VList::from_vec(&vec![num(1)]);
    for v in [num(3), Value::Glyph('x')] {
        match v.try_call(&args) {
            Err(RuntimeError::CannotCallValue(m)) => assert_eq!(m, "must call a function"),
            _ => panic!("expected CannotCallValue"),
        }
    }
}

#[test]
fn builtin_bypasses_arity_and_environment() {
    // The capability sees the raw argument list: no frame is built, so no
    // arity rule applies and the capability's result comes back untouched.
    let cap = Capability::new(|args: &VList| Ok(num(args.len() as i64)));
    let b = Value::Builtin(Builtin { func: cap, id: 0 });
    let args = VList::from_vec(&vec![num(1), num(2), num(3)]);
    assert_eq!(expect_number(b.try_call(&args)), 3);
}

#[test]
fn builtin_error_passes_through_unmodified() {
    let cap = Capability::new(|_args: &VList| {
        Err(RuntimeError::TypeError(String::from("expected a number")))
    });
    let b = Value::Builtin(Builtin { func: cap, id: 0 });
    match b.try_call(&VList::from_vec(&vec![])) {
        Err(RuntimeError::TypeError(m)) => assert_eq!(m, "expected a number"),
        _ => panic!("expected TypeError"),
    }
}

#[test]
fn evaluate_atomic_and_variable_and_application() {
    let x = Name::new(4);
    let env = Environment::new(None, vec![(x, num(8))]);
    assert_eq!(expect_number(env.evaluate(&Expression::Atomic(num(9)))), 9);
    assert_eq!(expect_number(env.evaluate(&Expression::Variable(x))), 8);
    match env.evaluate(&Expression::Variable(Name::new(5))) {
        Err(RuntimeError::UndefinedVariable(n)) => assert_eq!(n.id, 5),
        _ => panic!("expected UndefinedVariable"),
    }
    let genv = Environment::new(None, vec![]);
    let c = closure(&[1], false, Expression::Variable(Name::new(1)), genv);
    let app = Expression::Application(Value::Function(c), VList::from_vec(&vec![num(5)]));
    assert_eq!(expect_number(env.evaluate(&app)), 5);
    let bad = Expression::Application(num(1), VList::from_vec(&vec![]));
    match env.evaluate(&bad) {
        Err(RuntimeError::CannotCallValue(m)) => assert_eq!(m, "must call a function"),
        _ => panic!("expected CannotCallValue"),
    }
}

#[test]
fn list_duplicate_shares_and_extending_leaves_original_alone() {
    let original = VList::from_vec(&vec![num(1)]);
    let duplicate = original.duplicate();
    let extended = duplicate.push_front(num(2));
    assert_eq!(original.len(), 1);
    assert_eq!(duplicate.len(), 1);
    assert_eq!(extended.len(), 2);
    let orig_items = original.to_vec();
    match &orig_items[0] {
        Value::Number(n) => assert_eq!(n.value, 1),
        _ => panic!("expected a number"),
    }
    let ext_items = extended.to_vec();
    let got: Vec<i64> = ext_items
        .iter()
        .map(|v| match v {
            Value::Number(n) => n.value,
            _ => panic!("expected a number"),
        })
        .collect();
    assert_eq!(got, vec![2, 1]);
}

#[test]
fn from_vec_preserves_order() {
    let l = VList::from_vec(&vec![num(1), num(2), num(3)]);
    let got: Vec<i64> = l
        .to_vec()
        .iter()
        .map(|v| match v {
            Value::Number(n) => n.value,
            _ => panic!("expected a number"),
        })
        .collect();
    assert_eq!(got, vec![1, 2, 3]);
}

#[test]
fn value_duplicate_preserves_contents() {
    let v = Value::List(VList::from_vec(&vec![num(1), Value::Glyph('a')]));
    match v.duplicate() {
        Value::List(l) => assert_eq!(l.len(), 2),
        _ => panic!("expected a list"),
    }
}
