//! Functions with empty bodies: the smallest functions that the
//! function-name injection can be tried on. Where the doc comment of a
//! function goes on inside its body, the injected local would stand in front
//! of it, and the compiler refuses a doc comment there.

use vstd::prelude::*;

verus! {

/// A function with a plain doc comment: the injection applies.
pub fn test0() {
}

/// A function whose doc comment goes on inside its body, after an empty
/// first line:
pub fn test4() {
    //!
    //! the injection does not apply.
}

/// A function whose doc comment goes on inside its body:
pub fn test5() {
    //! the injection does not apply.
}

} // verus!
