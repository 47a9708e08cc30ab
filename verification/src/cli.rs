//! The stages of the pipeline, one for each command.

pub mod calendar;
pub mod sync;
