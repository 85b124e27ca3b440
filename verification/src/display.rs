//! Options that callers pass along when a record is shown to a person.
//!
//! How a record is rendered is outside the workflow; these flags only
//! carry the caller's choice of format.

use vstd::prelude::*;

verus! {

/// The display serialization options chosen for a printed record.
#[derive(Clone, Copy, PartialEq, Eq, Structural, Debug)]
pub struct DisplayOptions {
    /// Render the record as JSON rather than as a debug listing.
    pub json: bool,
    /// Pretty-print the chosen format.
    pub pretty: bool,
}

impl DisplayOptions {
    /// Instantiate based on the values of the argument options.
    pub fn from_args(json: bool, pretty: bool) -> (r: Self)
        ensures
            r == (DisplayOptions { json, pretty }),
    {
        Self { json, pretty }
    }
}

} // verus!
