//! Linking profiles into a device-link chain.

pub mod intents;
