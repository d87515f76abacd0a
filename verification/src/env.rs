//! The environment: a chain of immutable binding frames realizing
//! lexical scope.
//!
//! An environment owns a table of name-to-value bindings and at most one
//! shared parent environment. A table is fixed at construction time;
//! there is no mutation operation at this layer, so sibling call frames
//! can never observe each other's bindings. Lookup returns the binding
//! from the nearest enclosing frame; when a name is bound twice in one
//! frame, the binding added later wins, and a frame's own binding always
//! shadows any ancestor's.

use vstd::prelude::*;
use std::rc::Rc;
use crate::atoms::Name;
use crate::errors::RuntimeError;
use crate::value::Value;

verus! {

/// An environment usually has a parent environment, unless it is the
/// top-level environment.
pub struct Environment {
    pub bindings: Vec<(Name, Value)>,
    pub parent: Option<Rc<Environment>>,
}

/// The value bound to `n` in a single binding table, if any; among
/// several bindings of `n`, the one added last wins.
pub open spec fn lookup_pairs(s: Seq<(Name, Value)>, n: Name) -> Option<Value>
    decreases s.len(),
{
    if s.len() == 0 {
        None
    } else if s.last().0 == n {
        Some(s.last().1)
    } else {
        lookup_pairs(s.drop_last(), n)
    }
}

/// What looking `n` up in a frame with the given binding table and the
/// given parent returns: the local binding if there is one, else
/// whatever the parent chain returns, else `UndefinedVariable`.
pub open spec fn chain_lookup(
    bindings: Seq<(Name, Value)>,
    parent: Option<Rc<Environment>>,
    n: Name,
) -> Result<Value, RuntimeError>
    decreases parent,
{
    match lookup_pairs(bindings, n) {
        Some(v) => Ok(v),
        None => match parent {
            Some(p) => env_lookup(*p, n),
            None => Err(RuntimeError::UndefinedVariable(n)),
        },
    }
}

/// What looking `n` up in `env` returns.
pub open spec fn env_lookup(env: Environment, n: Name) -> Result<Value, RuntimeError>
    decreases env,
{
    chain_lookup(env.bindings@, env.parent, n)
}

/// Whether `n` is bound in `env` or any of its ancestors.
pub open spec fn env_contains(env: Environment, n: Name) -> bool
    decreases env,
{
    lookup_pairs(env.bindings@, n) is Some || match env.parent {
        Some(p) => env_contains(*p, n),
        None => false,
    }
}

impl Environment {
    /// Builds a frame with exactly the given bindings and parent.
    pub fn new(parent: Option<Rc<Environment>>, defines: Vec<(Name, Value)>) -> (env: Environment)
        ensures
            env.parent == parent,
            env.bindings@ == defines@,
    {
        Environment { parent, bindings: defines }
    }

    /// Returns the value bound to `name` in the nearest enclosing frame,
    /// or `UndefinedVariable` if the whole chain misses.
    pub fn get(&self, name: &Name) -> (r: Result<Value, RuntimeError>)
        ensures
            r == env_lookup(*self, *name),
        decreases *self,
    {
        let mut i: usize = self.bindings.len();
        proof {
            assert(self.bindings@.take(i as int) =~= self.bindings@);
        }
        while i > 0
            invariant
                i <= self.bindings@.len(),
                lookup_pairs(self.bindings@, *name) == lookup_pairs(
                    self.bindings@.take(i as int),
                    *name,
                ),
            decreases i,
        {
            let j: usize = i - 1;
            if self.bindings[j].0 == *name {
                proof {
                    assert(self.bindings@.take(i as int).last() == self.bindings@[j as int]);
                }
                return Ok(self.bindings[j].1.duplicate());
            }
            proof {
                assert(self.bindings@.take(i as int).drop_last() =~= self.bindings@.take(
                    j as int,
                ));
            }
            i = j;
        }
        match &self.parent {
            Some(p) => (&**p).get(name),
            None => Err(RuntimeError::UndefinedVariable(*name)),
        }
    }
}

/// Shadowing, first half: a binding in a frame's own table decides the
/// lookup, whatever the ancestors bind.
pub proof fn lemma_local_binding_shadows(env: Environment, n: Name, v: Value)
    requires
        lookup_pairs(env.bindings@, n) == Some(v),
    ensures
        env_lookup(env, n) == Ok::<Value, RuntimeError>(v),
{
}

/// Shadowing, second half: a frame without a local binding defers to its
/// parent unchanged, so an ancestor's binding is visible exactly where
/// no nearer frame rebinds the name.
pub proof fn lemma_absent_local_defers(env: Environment, p: Rc<Environment>, n: Name)
    requires
        lookup_pairs(env.bindings@, n) is None,
        env.parent == Some(p),
    ensures
        env_lookup(env, n) == env_lookup(*p, n),
{
}

/// A name bound nowhere in a chain fails with `UndefinedVariable`
/// carrying that name, and only such a name does.
pub proof fn lemma_missing_name(env: &Environment, n: Name)
    ensures
        !env_contains(*env, n) <==> env_lookup(*env, n) == Err::<Value, RuntimeError>(
            RuntimeError::UndefinedVariable(n),
        ),
    decreases *env,
{
    match &env.parent {
        Some(p) => {
            lemma_missing_name(&**p, n);
        },
        None => {},
    }
}

} // verus!
