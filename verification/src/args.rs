//! The two flags of the flat command line.

use vstd::prelude::*;

verus! {

/// The flags as they are parsed: each asks for one stage.
#[derive(Clone, Copy, Debug, PartialEq, Eq, Structural)]
pub struct CliArgs {
    /// Capture the credential and start afresh.
    pub setup: bool,
    /// Sync the courses.
    pub sync: bool,
}

} // verus!
