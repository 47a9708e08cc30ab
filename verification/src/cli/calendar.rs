//! The commands on calendar feeds.

pub mod ls;
pub mod publish;
