//! The primitive atom types of the language: variable names and numbers.
//!
//! Both are opaque to the rest of the engine: a `Name` is only ever
//! compared for equality, and a `Number` is only ever carried around and
//! rendered. Each wraps a single machine integer so that equality and
//! hashing mean exactly equality of that integer.

use vstd::prelude::*;

verus! {

/// An identifier for a variable binding. Two names denote the same
/// variable exactly when their `id` fields are equal.
#[derive(Clone, Copy, PartialEq, Eq, Hash, Structural, Debug)]
pub struct Name {
    pub id: u64,
}

impl Name {
    pub fn new(id: u64) -> (n: Name)
        ensures
            n.id == id,
    {
        Name { id }
    }
}

/// An opaque numeric value. The engine never computes with it; it only
/// stores it, passes it around and renders it in decimal.
#[derive(Clone, Copy, PartialEq, Eq, Hash, Structural, Debug)]
pub struct Number {
    pub value: i64,
}

impl Number {
    pub fn new(value: i64) -> (n: Number)
        ensures
            n.value == value,
    {
        Number { value }
    }
}

} // verus!
