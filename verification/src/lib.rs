//! Verified core of an ICC colour-management engine: the byte-level reader,
//! the profile header and tag directory, the tone-curve tag readers, and the
//! integer decisions of the profile-link chain.

pub mod error;
pub mod sig;
pub mod fixed;
pub mod io;
pub mod profile;
pub mod link;
pub mod format;
