//! Lowering of the concrete syntax trees that a PEG parser emits for the shell grammar
//! into typed expression trees, with the rule table and the command-line options of the
//! driver around it.
use vstd::prelude::*;

pub mod args;
pub mod ast;
pub mod cst;
pub mod diagnostics;
pub mod laws;
pub mod lower;
pub mod rule;
pub mod text;

verus! {

} // verus!
