//! How command results are shown.

use vstd::prelude::*;

verus! {

/// Output format for command results.
#[derive(Clone, Copy, Debug, PartialEq, Eq, Structural)]
pub enum OutputFormat {
    Json,
    Table,
}

impl Default for OutputFormat {
    /// Results are shown as a table unless JSON is asked for.
    fn default() -> (r: Self)
        ensures
            r == OutputFormat::Table,
    {
        OutputFormat::Table
    }
}

} // verus!
