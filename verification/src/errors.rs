//! The runtime error taxonomy.
//!
//! Every failure of the engine is an explicit `Result` value carrying one
//! of these variants; nothing in the engine panics or aborts. Evaluation
//! propagates the first error encountered, unchanged, to the caller.

use vstd::prelude::*;
use crate::atoms::Name;

verus! {

/// The ways an evaluation can fail.
pub enum RuntimeError {
    /// A variable lookup missed in the environment and every ancestor;
    /// carries the missing name.
    UndefinedVariable(Name),
    /// A non-variadic closure was called with the wrong number of
    /// arguments; carries the expected count, then the actual count.
    IncorrectNumberOfArgs(usize, usize),
    /// A call was dispatched on a value that is not callable; carries a
    /// description.
    CannotCallValue(String),
    /// A committed-but-unbuilt feature was exercised (currently: calling
    /// a variadic closure); carries a description.
    Unimplemented(String),
    /// Reserved for type-mismatch failures raised by builtins or an
    /// arithmetic layer on top of this engine; carries a description.
    TypeError(String),
}

} // verus!
