//! Tag-type readers.

pub mod curve;
