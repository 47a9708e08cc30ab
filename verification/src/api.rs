//! Adapters over the remote course source.

pub mod canvas;
