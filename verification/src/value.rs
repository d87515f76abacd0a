//! The tagged value model and the expression, statement and program
//! shapes of the language.
//!
//! A value is immutable once constructed and cheap to duplicate: lists
//! share their backing nodes, and a closure's captured environment,
//! parameter list and body are shared by reference counting, never
//! deep-copied.

use vstd::prelude::*;
use std::rc::Rc;
use crate::atoms::{Name, Number};
use crate::builtin::Capability;
use crate::env::Environment;
use crate::list::VList;

verus! {

/// A callable value built by the language: a body expression to run, the
/// ordered names its arguments are bound to, whether the closure is
/// variadic, and the environment it was defined in, which lookups fall
/// back to. The `id` is a stable synthetic tag used only for rendering.
pub struct Closure {
    pub env: Rc<Environment>,
    pub argnames: Rc<Vec<Name>>,
    pub variadic: bool,
    pub body: Rc<Expression>,
    pub id: u64,
}

impl Closure {
    /// Returns a closure sharing this one's environment, parameter list
    /// and body.
    pub fn duplicate(&self) -> (r: Closure)
        ensures
            r == *self,
    {
        Closure {
            env: self.env.clone(),
            argnames: self.argnames.clone(),
            variadic: self.variadic,
            body: self.body.clone(),
            id: self.id,
        }
    }
}

/// A callable value native to the host: a stateless wrapper around a
/// native capability, with no captured environment. The `id` is a stable
/// synthetic tag used only for rendering.
pub struct Builtin {
    pub func: Capability,
    pub id: u64,
}

impl Builtin {
    /// Returns a builtin sharing this one's capability.
    pub fn duplicate(&self) -> (r: Builtin)
        ensures
            r == *self,
    {
        Builtin { func: self.func.duplicate(), id: self.id }
    }
}

/// Something that can be passed around and stored in variables.
pub enum Value {
    Number(Number),
    /// A glyph is a single character; a string is a list of glyphs.
    Glyph(char),
    List(VList),
    Function(Closure),
    Builtin(Builtin),
}

impl Value {
    /// Returns a value equal to this one without deep-copying: list
    /// nodes, captured environments and bodies are shared.
    pub fn duplicate(&self) -> (r: Value)
        ensures
            r == *self,
    {
        match self {
            Value::Number(n) => Value::Number(*n),
            Value::Glyph(g) => Value::Glyph(*g),
            Value::List(l) => Value::List(l.duplicate()),
            Value::Function(c) => Value::Function(c.duplicate()),
            Value::Builtin(b) => Value::Builtin(b.duplicate()),
        }
    }
}

/// A single evaluation step's worth of syntax. An application carries
/// its callee and its arguments as already-resolved values.
pub enum Expression {
    Atomic(Value),
    Variable(Name),
    /// The first component is the callee; if it is not callable,
    /// evaluation gives a runtime error.
    Application(Value, VList),
}

/// One top-level instruction of a program.
pub enum Statement {
    Expression(Expression),
    Assignment(Name, Value),
}

/// An ordered sequence of statements; execution order is sequence order.
pub type Program = Vec<Statement>;

} // verus!
