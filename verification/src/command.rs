//! A planned invocation of an external command-line tool: the program and
//! its arguments, fully decided before anything runs.

use vstd::prelude::*;

verus! {

/// One external tool invocation, as planned by the library. A thin host
/// shell spawns it and reports the outcome.
pub struct ToolInvocation {
    /// The program to run.
    pub program: String,
    /// Its arguments, in order.
    pub args: Vec<String>,
}

} // verus!
