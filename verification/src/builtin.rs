//! Native callable capabilities.
//!
//! A builtin wraps a function supplied by the host: an ordered list of
//! values in, a value or a runtime error out. The engine invokes it
//! directly, with no environment created and no scoping involved, and
//! passes its result through unmodified. The wrapped function is native
//! code the verifier never sees, so nothing is promised of its result.

use vstd::prelude::*;
use std::rc::Rc;
use crate::errors::RuntimeError;
use crate::list::VList;
use crate::value::Value;

verus! {

/// A native capability: a host function from an argument list to a
/// value or a runtime error, shared by reference counting.
#[verifier::external_body]
pub struct Capability {
    func: Rc<dyn Fn(&VList) -> Result<Value, RuntimeError>>,
}

impl Capability {
    /// Relies on `Rc::new` to take ownership of the host function.
    #[verifier::external_body]
    pub fn new<F: Fn(&VList) -> Result<Value, RuntimeError> + 'static>(func: F) -> Capability {
        Capability { func: Rc::new(func) }
    }

    /// Invokes the wrapped host function directly on the argument list.
    /// The function is arbitrary native code, so no relation between the
    /// arguments and the result can be stated.
    #[verifier::external_body]
    pub fn invoke(&self, args: &VList) -> Result<Value, RuntimeError> {
        (self.func)(args)
    }

    /// Relies on `Rc::clone`: returns a handle to the same host
    /// function.
    #[verifier::external_body]
    pub fn duplicate(&self) -> (c: Capability)
        ensures
            c == *self,
    {
        Capability { func: Rc::clone(&self.func) }
    }
}

} // verus!
