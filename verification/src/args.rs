//! The command-line arguments the browser is started with.
//!
//! Argument parsing itself happens in the unverified shell; the library
//! sees the result as plain values.

use vstd::prelude::*;

verus! {

/// What the command line selects: the file to view.
#[derive(Clone, Debug, PartialEq, Eq)]
pub struct Args {
    /// Path of the columnar file to view.
    pub filename: String,
}

} // verus!
