//! The first run: from the captured line to the first state.

use crate::config::{fresh_state, Config};
use crate::text::{trim, trimmed};
use vstd::prelude::*;

verus! {

/// Makes the first state from the line in which the user gave the token.
/// The token is the line without the white space around it; nothing is
/// synced or published yet.
pub fn run(line: &str) -> (config: Config)
    ensures
        config@ == fresh_state(trimmed(line@)),
        config@.wf(),
{
    Config::new(trim(line))
}

} // verus!
