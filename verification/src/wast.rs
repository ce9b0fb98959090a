//! Options for running a `.wast` WebAssembly test suite.

use vstd::prelude::*;

verus! {

/// The options for running a `.wast` test suite.  Running the suite itself
/// is the job of the engine around this library.
#[derive(Debug, Clone)]
pub struct Wast {
    /// Wast file to run.
    pub path: String,
    /// A flag to indicate wast stop at the first error or continue.
    pub fail_fast: bool,
}

} // verus!
