//! Expressions handed to the calculator.

use vstd::prelude::*;

verus! {

/// An expression for the calculator. Nothing of it is read: its words are
/// passed on as they are.
pub struct Expression {}

} // verus!
