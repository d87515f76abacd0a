//! The evaluation engine: expression evaluation, call dispatch and the
//! closure calling convention.
//!
//! Each public operation carries a relation pinning down its result:
//! atomics evaluate to themselves, variables to what the environment
//! chain binds, and applications to whatever dispatching the callee
//! gives. Dispatch routes a closure to the calling convention and a
//! builtin to its native capability, and fails on anything else. Only a
//! builtin's result is left open, because its capability is native code
//! the verifier never sees.

use vstd::prelude::*;
use std::rc::Rc;
use vstd::string::StringExecFns;
use crate::atoms::Name;
use crate::env::{chain_lookup, Environment};
use crate::errors::RuntimeError;
use crate::list::{list_elems, VList};
use crate::value::{Closure, Expression, Value};

verus! {

/// The failure produced by dispatching a call on a non-callable value.
pub open spec fn is_cannot_call(r: Result<Value, RuntimeError>) -> bool {
    &&& r matches Err(RuntimeError::CannotCallValue(m))
    &&& m@ == "must call a function"@
}

/// The failure produced by calling a variadic closure: the variadic
/// calling convention is a committed-but-unbuilt extension point.
pub open spec fn is_variadic_unimplemented(r: Result<Value, RuntimeError>) -> bool {
    &&& r matches Err(RuntimeError::Unimplemented(m))
    &&& m@ == "variadic calling convention not implemented"@
}

/// The binding table of a fresh call frame: each parameter name, in
/// order, paired with the corresponding argument value.
pub open spec fn frame_bindings(params: Seq<Name>, args: Seq<Value>) -> Seq<(Name, Value)> {
    Seq::new(args.len(), |i: int| (params[i], args[i]))
}

/// How a closure call's result relates to the closure and the argument
/// values: variadic closures fail as unimplemented, an arity mismatch
/// fails with the expected and the actual count, and otherwise the body
/// is evaluated in a fresh frame binding the parameters to the
/// arguments, layered on the closure's captured environment.
pub open spec fn call_rel(c: Closure, args: Seq<Value>, r: Result<Value, RuntimeError>) -> bool
    decreases c,
{
    if c.variadic {
        is_variadic_unimplemented(r)
    } else if args.len() != (*c.argnames)@.len() {
        &&& r matches Err(RuntimeError::IncorrectNumberOfArgs(expected, actual))
        &&& expected == (*c.argnames)@.len()
        &&& actual == args.len()
    } else {
        eval_rel(*c.body, frame_bindings((*c.argnames)@, args), Some(c.env), r)
    }
}

/// How dispatching a call on `callee` relates to the result: a closure
/// goes through the calling convention, a builtin's capability may
/// return anything, and any other value cannot be called.
pub open spec fn dispatch_rel(
    callee: Value,
    args: Seq<Value>,
    r: Result<Value, RuntimeError>,
) -> bool
    decreases callee,
{
    match callee {
        Value::Function(c) => call_rel(c, args, r),
        Value::Builtin(_) => true,
        _ => is_cannot_call(r),
    }
}

/// How evaluating `e` in a frame with the given binding table and
/// parent relates to the result: an atomic is its own value, a variable
/// is what the chain binds, and an application dispatches its callee on
/// its argument values.
pub open spec fn eval_rel(
    e: Expression,
    bindings: Seq<(Name, Value)>,
    parent: Option<Rc<Environment>>,
    r: Result<Value, RuntimeError>,
) -> bool
    decreases e,
{
    match e {
        Expression::Atomic(v) => r == Ok::<Value, RuntimeError>(v),
        Expression::Variable(n) => r == chain_lookup(bindings, parent, n),
        Expression::Application(f, a) => dispatch_rel(f, list_elems(a), r),
    }
}

impl Closure {
    /// The closure calling convention: reject variadic calls as
    /// unimplemented, check the arity, then build a fresh environment
    /// over the captured one, binding each parameter name to its
    /// argument in order, and evaluate the body in it. The body's result
    /// or error is returned unchanged.
    pub fn call(&self, args: &VList) -> (r: Result<Value, RuntimeError>)
        ensures
            call_rel(*self, list_elems(*args), r),
        decreases *self,
    {
        if self.variadic {
            return Err(
                RuntimeError::Unimplemented(
                    String::from_str("variadic calling convention not implemented"),
                ),
            );
        }
        let params: &Vec<Name> = &*self.argnames;
        let argvec: Vec<Value> = args.to_vec();
        if params.len() != argvec.len() {
            return Err(RuntimeError::IncorrectNumberOfArgs(params.len(), argvec.len()));
        }
        let mut defines: Vec<(Name, Value)> = Vec::new();
        let mut i: usize = 0;
        while i < argvec.len()
            invariant
                i <= argvec@.len(),
                params@.len() == argvec@.len(),
                defines@ == frame_bindings(params@, argvec@).take(i as int),
            decreases argvec@.len() - i,
        {
            defines.push((params[i], argvec[i].duplicate()));
            proof {
                assert(defines@ =~= frame_bindings(params@, argvec@).take(i + 1));
            }
            i = i + 1;
        }
        proof {
            assert(defines@ =~= frame_bindings(params@, argvec@));
        }
        let new_env = Environment::new(Some(self.env.clone()), defines);
        new_env.evaluate(&*self.body)
    }
}

impl Value {
    /// The single entry point for invoking any callable value: a closure
    /// goes through the calling convention, a builtin's capability is
    /// invoked directly with the argument list, and any other value
    /// fails with `CannotCallValue`.
    pub fn try_call(&self, args: &VList) -> (r: Result<Value, RuntimeError>)
        ensures
            dispatch_rel(*self, list_elems(*args), r),
        decreases *self,
    {
        match self {
            Value::Function(c) => c.call(args),
            Value::Builtin(b) => b.func.invoke(args),
            _ => Err(RuntimeError::CannotCallValue(String::from_str("must call a function"))),
        }
    }
}

impl Environment {
    /// Evaluates one expression in this environment: an atomic resolves
    /// to itself, a variable through the scope chain, and an application
    /// through call dispatch, which may recursively evaluate a closure
    /// body in a freshly built child environment.
    pub fn evaluate(&self, expr: &Expression) -> (r: Result<Value, RuntimeError>)
        ensures
            eval_rel(*expr, self.bindings@, self.parent, r),
        decreases *expr,
    {
        match expr {
            Expression::Atomic(v) => Ok(v.duplicate()),
            Expression::Variable(n) => self.get(n),
            Expression::Application(f, args) => f.try_call(args),
        }
    }
}

} // verus!
